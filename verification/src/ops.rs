//! What each operator computes, on values.
//!
//! Operators behave as they do on the machine types themselves. Arithmetic
//! that leaves the range of its type, division by zero and a shift by the
//! type's width or more do not wrap or saturate: they are faults.

use crate::fault::Fault;
use crate::types::{TypeTag, Value};
use vstd::arithmetic::div_mod::{
    lemma_div_basics, lemma_div_decreases, lemma_div_nonincreasing, lemma_div_pos_is_pos,
    lemma_mod_bound, lemma_mod_decreases,
};
use vstd::prelude::*;

verus! {

/// The operators that take one operand.
#[derive(Clone, Copy, Debug, PartialEq, Eq, Structural)]
pub enum UnaryOp {
    Neg,
    Not,
}

/// The operators that take two operands.
#[derive(Clone, Copy, Debug, PartialEq, Eq, Structural)]
pub enum BinaryOp {
    Add,
    Sub,
    Mul,
    Div,
    Rem,
    BitAnd,
    BitOr,
    BitXor,
    Shl,
    Shr,
    Index,
}

/// The integer `i` as a value of type `ty`, or a fault when `ty` cannot
/// hold it.
pub open spec fn checked(ty: TypeTag, i: int) -> Result<Value, Fault> {
    if ty.min() <= i <= ty.max() {
        Ok(Value::from_int(ty, i))
    } else {
        Err(Fault::Arithmetic)
    }
}

/// The magnitude of `i`.
pub open spec fn abs(i: int) -> int {
    if i < 0 {
        -i
    } else {
        i
    }
}

/// The quotient of `x` by `d`, rounded toward zero.
pub open spec fn trunc_div(x: int, d: int) -> int {
    if (x < 0) == (d < 0) {
        abs(x) / abs(d)
    } else {
        -(abs(x) / abs(d))
    }
}

/// The remainder that goes with [`trunc_div`]; it has the sign of `x`.
pub open spec fn trunc_rem(x: int, d: int) -> int {
    if x < 0 {
        -(abs(x) % abs(d))
    } else {
        x % abs(d)
    }
}

/// A quotient is no larger in magnitude than its dividend, and a remainder
/// is smaller in magnitude than its divisor.
pub proof fn lemma_trunc_bounds(x: int, d: int)
    requires
        d != 0,
    ensures
        abs(trunc_div(x, d)) <= abs(x),
        abs(trunc_rem(x, d)) < abs(d),
        abs(trunc_rem(x, d)) <= abs(x),
        x >= 0 ==> trunc_rem(x, d) >= 0,
        x <= 0 ==> trunc_rem(x, d) <= 0,
        abs(d) == 1 ==> abs(trunc_div(x, d)) == abs(x),
        abs(d) > 1 && x != 0 ==> abs(trunc_div(x, d)) < abs(x),
{
    lemma_div_pos_is_pos(abs(x), abs(d));
    lemma_div_nonincreasing(abs(x), abs(d));
    lemma_mod_bound(abs(x), abs(d));
    lemma_mod_decreases(abs(x) as nat, abs(d) as nat);
    lemma_div_basics(abs(x));
    if abs(d) > 1 && x != 0 {
        lemma_div_decreases(abs(x), abs(d));
    }
}

/// The sum, or a fault where the type cannot hold it.
pub open spec fn add_spec(a: Value, b: Value) -> Result<Value, Fault> {
    checked(a.spec_ty(), a.as_int() + b.as_int())
}

/// The difference, or a fault where the type cannot hold it.
pub open spec fn sub_spec(a: Value, b: Value) -> Result<Value, Fault> {
    checked(a.spec_ty(), a.as_int() - b.as_int())
}

/// The product, or a fault where the type cannot hold it.
pub open spec fn mul_spec(a: Value, b: Value) -> Result<Value, Fault> {
    checked(a.spec_ty(), a.as_int() * b.as_int())
}

/// The quotient rounded toward zero, or a fault where the divisor is zero or
/// the type cannot hold the quotient.
pub open spec fn div_spec(a: Value, b: Value) -> Result<Value, Fault> {
    if b.as_int() == 0 {
        Err(Fault::Arithmetic)
    } else {
        checked(a.spec_ty(), trunc_div(a.as_int(), b.as_int()))
    }
}

/// The remainder faults wherever the quotient does.
pub open spec fn rem_spec(a: Value, b: Value) -> Result<Value, Fault> {
    if b.as_int() == 0 || div_spec(a, b) is Err {
        Err(Fault::Arithmetic)
    } else {
        Ok(Value::from_int(a.spec_ty(), trunc_rem(a.as_int(), b.as_int())))
    }
}

/// The negative, or a fault where the type cannot hold it.
pub open spec fn neg_spec(a: Value) -> Result<Value, Fault> {
    checked(a.spec_ty(), -a.as_int())
}

/// Every bit flipped; a `bool` negated.
pub open spec fn not_bits(a: Value) -> Value {
    match a {
        Value::Bool(x) => Value::Bool(!x),
        Value::U8(x) => Value::U8(!x),
        Value::U16(x) => Value::U16(!x),
        Value::U32(x) => Value::U32(!x),
        Value::U64(x) => Value::U64(!x),
        Value::U128(x) => Value::U128(!x),
        Value::Usize(x) => Value::Usize(!x),
        Value::I8(x) => Value::I8(!x),
        Value::I16(x) => Value::I16(!x),
        Value::I32(x) => Value::I32(!x),
        Value::I64(x) => Value::I64(!x),
        Value::I128(x) => Value::I128(!x),
        Value::Isize(x) => Value::Isize(!x),
        _ => a,
    }
}

/// Bitwise and; on `bool`, logical and.
pub open spec fn and_bits(a: Value, b: Value) -> Value {
    match (a, b) {
        (Value::Bool(x), Value::Bool(y)) => Value::Bool(x && y),
        (Value::U8(x), Value::U8(y)) => Value::U8(x & y),
        (Value::U16(x), Value::U16(y)) => Value::U16(x & y),
        (Value::U32(x), Value::U32(y)) => Value::U32(x & y),
        (Value::U64(x), Value::U64(y)) => Value::U64(x & y),
        (Value::U128(x), Value::U128(y)) => Value::U128(x & y),
        (Value::Usize(x), Value::Usize(y)) => Value::Usize(x & y),
        (Value::I8(x), Value::I8(y)) => Value::I8(x & y),
        (Value::I16(x), Value::I16(y)) => Value::I16(x & y),
        (Value::I32(x), Value::I32(y)) => Value::I32(x & y),
        (Value::I64(x), Value::I64(y)) => Value::I64(x & y),
        (Value::I128(x), Value::I128(y)) => Value::I128(x & y),
        (Value::Isize(x), Value::Isize(y)) => Value::Isize(x & y),
        _ => a,
    }
}

/// Bitwise or; on `bool`, logical or.
pub open spec fn or_bits(a: Value, b: Value) -> Value {
    match (a, b) {
        (Value::Bool(x), Value::Bool(y)) => Value::Bool(x || y),
        (Value::U8(x), Value::U8(y)) => Value::U8(x | y),
        (Value::U16(x), Value::U16(y)) => Value::U16(x | y),
        (Value::U32(x), Value::U32(y)) => Value::U32(x | y),
        (Value::U64(x), Value::U64(y)) => Value::U64(x | y),
        (Value::U128(x), Value::U128(y)) => Value::U128(x | y),
        (Value::Usize(x), Value::Usize(y)) => Value::Usize(x | y),
        (Value::I8(x), Value::I8(y)) => Value::I8(x | y),
        (Value::I16(x), Value::I16(y)) => Value::I16(x | y),
        (Value::I32(x), Value::I32(y)) => Value::I32(x | y),
        (Value::I64(x), Value::I64(y)) => Value::I64(x | y),
        (Value::I128(x), Value::I128(y)) => Value::I128(x | y),
        (Value::Isize(x), Value::Isize(y)) => Value::Isize(x | y),
        _ => a,
    }
}

/// Bitwise exclusive or; on `bool`, inequality.
pub open spec fn xor_bits(a: Value, b: Value) -> Value {
    match (a, b) {
        (Value::Bool(x), Value::Bool(y)) => Value::Bool(x != y),
        (Value::U8(x), Value::U8(y)) => Value::U8(x ^ y),
        (Value::U16(x), Value::U16(y)) => Value::U16(x ^ y),
        (Value::U32(x), Value::U32(y)) => Value::U32(x ^ y),
        (Value::U64(x), Value::U64(y)) => Value::U64(x ^ y),
        (Value::U128(x), Value::U128(y)) => Value::U128(x ^ y),
        (Value::Usize(x), Value::Usize(y)) => Value::Usize(x ^ y),
        (Value::I8(x), Value::I8(y)) => Value::I8(x ^ y),
        (Value::I16(x), Value::I16(y)) => Value::I16(x ^ y),
        (Value::I32(x), Value::I32(y)) => Value::I32(x ^ y),
        (Value::I64(x), Value::I64(y)) => Value::I64(x ^ y),
        (Value::I128(x), Value::I128(y)) => Value::I128(x ^ y),
        (Value::Isize(x), Value::Isize(y)) => Value::Isize(x ^ y),
        _ => a,
    }
}

/// Shifted left by `n` places; bits that leave the type are lost.
pub open spec fn shl_bits(a: Value, n: u32) -> Value {
    match a {
        Value::U8(x) => Value::U8(x << n),
        Value::U16(x) => Value::U16(x << n),
        Value::U32(x) => Value::U32(x << n),
        Value::U64(x) => Value::U64(x << n),
        Value::U128(x) => Value::U128(x << n),
        Value::Usize(x) => Value::Usize(x << n),
        Value::I8(x) => Value::I8(x << n),
        Value::I16(x) => Value::I16(x << n),
        Value::I32(x) => Value::I32(x << n),
        Value::I64(x) => Value::I64(x << n),
        Value::I128(x) => Value::I128(x << n),
        Value::Isize(x) => Value::Isize(x << n),
        _ => a,
    }
}

/// Shifted right by `n` places; a signed value keeps its sign.
pub open spec fn shr_bits(a: Value, n: u32) -> Value {
    match a {
        Value::U8(x) => Value::U8(x >> n),
        Value::U16(x) => Value::U16(x >> n),
        Value::U32(x) => Value::U32(x >> n),
        Value::U64(x) => Value::U64(x >> n),
        Value::U128(x) => Value::U128(x >> n),
        Value::Usize(x) => Value::Usize(x >> n),
        Value::I8(x) => Value::I8(x >> n),
        Value::I16(x) => Value::I16(x >> n),
        Value::I32(x) => Value::I32(x >> n),
        Value::I64(x) => Value::I64(x >> n),
        Value::I128(x) => Value::I128(x >> n),
        Value::Isize(x) => Value::Isize(x >> n),
        _ => a,
    }
}

/// A shift faults unless its amount is at least zero and less than the width
/// of the left operand's type.
pub open spec fn shl_spec(a: Value, b: Value) -> Result<Value, Fault> {
    if 0 <= b.as_int() < a.spec_ty().bits() {
        Ok(shl_bits(a, b.as_int() as u32))
    } else {
        Err(Fault::Arithmetic)
    }
}

/// As [`shl_spec`], to the right.
pub open spec fn shr_spec(a: Value, b: Value) -> Result<Value, Fault> {
    if 0 <= b.as_int() < a.spec_ty().bits() {
        Ok(shr_bits(a, b.as_int() as u32))
    } else {
        Err(Fault::Arithmetic)
    }
}

/// The element at position `i`, or a fault when the array has none there.
pub open spec fn index_spec(a: Value, i: Value) -> Result<Value, Fault> {
    match (a, i) {
        (Value::Array8(arr), Value::Usize(k)) => if k < 8 {
            Ok(Value::U8(arr@[k as int]))
        } else {
            Err(Fault::Index)
        },
        _ => Err(Fault::Index),
    }
}

/// `a + b`.
pub fn native_add(a: Value, b: Value) -> (r: Result<Value, Fault>)
    requires
        a.spec_ty().is_int(),
        a.spec_ty() == b.spec_ty(),
    ensures
        r == add_spec(a, b),
{
    match (a, b) {
        (Value::U8(x), Value::U8(y)) => match x.checked_add(y) {
            Some(z) => Ok(Value::U8(z)),
            None => Err(Fault::Arithmetic),
        },
        (Value::U16(x), Value::U16(y)) => match x.checked_add(y) {
            Some(z) => Ok(Value::U16(z)),
            None => Err(Fault::Arithmetic),
        },
        (Value::U32(x), Value::U32(y)) => match x.checked_add(y) {
            Some(z) => Ok(Value::U32(z)),
            None => Err(Fault::Arithmetic),
        },
        (Value::U64(x), Value::U64(y)) => match x.checked_add(y) {
            Some(z) => Ok(Value::U64(z)),
            None => Err(Fault::Arithmetic),
        },
        (Value::U128(x), Value::U128(y)) => match x.checked_add(y) {
            Some(z) => Ok(Value::U128(z)),
            None => Err(Fault::Arithmetic),
        },
        (Value::Usize(x), Value::Usize(y)) => match x.checked_add(y) {
            Some(z) => Ok(Value::Usize(z)),
            None => Err(Fault::Arithmetic),
        },
        (Value::I8(x), Value::I8(y)) => match x.checked_add(y) {
            Some(z) => Ok(Value::I8(z)),
            None => Err(Fault::Arithmetic),
        },
        (Value::I16(x), Value::I16(y)) => match x.checked_add(y) {
            Some(z) => Ok(Value::I16(z)),
            None => Err(Fault::Arithmetic),
        },
        (Value::I32(x), Value::I32(y)) => match x.checked_add(y) {
            Some(z) => Ok(Value::I32(z)),
            None => Err(Fault::Arithmetic),
        },
        (Value::I64(x), Value::I64(y)) => match x.checked_add(y) {
            Some(z) => Ok(Value::I64(z)),
            None => Err(Fault::Arithmetic),
        },
        (Value::I128(x), Value::I128(y)) => match x.checked_add(y) {
            Some(z) => Ok(Value::I128(z)),
            None => Err(Fault::Arithmetic),
        },
        (Value::Isize(x), Value::Isize(y)) => match x.checked_add(y) {
            Some(z) => Ok(Value::Isize(z)),
            None => Err(Fault::Arithmetic),
        },
        _ => Err(Fault::Arithmetic),
    }
}

/// `a - b`.
pub fn native_sub(a: Value, b: Value) -> (r: Result<Value, Fault>)
    requires
        a.spec_ty().is_int(),
        a.spec_ty() == b.spec_ty(),
    ensures
        r == sub_spec(a, b),
{
    match (a, b) {
        (Value::U8(x), Value::U8(y)) => match x.checked_sub(y) {
            Some(z) => Ok(Value::U8(z)),
            None => Err(Fault::Arithmetic),
        },
        (Value::U16(x), Value::U16(y)) => match x.checked_sub(y) {
            Some(z) => Ok(Value::U16(z)),
            None => Err(Fault::Arithmetic),
        },
        (Value::U32(x), Value::U32(y)) => match x.checked_sub(y) {
            Some(z) => Ok(Value::U32(z)),
            None => Err(Fault::Arithmetic),
        },
        (Value::U64(x), Value::U64(y)) => match x.checked_sub(y) {
            Some(z) => Ok(Value::U64(z)),
            None => Err(Fault::Arithmetic),
        },
        (Value::U128(x), Value::U128(y)) => match x.checked_sub(y) {
            Some(z) => Ok(Value::U128(z)),
            None => Err(Fault::Arithmetic),
        },
        (Value::Usize(x), Value::Usize(y)) => match x.checked_sub(y) {
            Some(z) => Ok(Value::Usize(z)),
            None => Err(Fault::Arithmetic),
        },
        (Value::I8(x), Value::I8(y)) => match x.checked_sub(y) {
            Some(z) => Ok(Value::I8(z)),
            None => Err(Fault::Arithmetic),
        },
        (Value::I16(x), Value::I16(y)) => match x.checked_sub(y) {
            Some(z) => Ok(Value::I16(z)),
            None => Err(Fault::Arithmetic),
        },
        (Value::I32(x), Value::I32(y)) => match x.checked_sub(y) {
            Some(z) => Ok(Value::I32(z)),
            None => Err(Fault::Arithmetic),
        },
        (Value::I64(x), Value::I64(y)) => match x.checked_sub(y) {
            Some(z) => Ok(Value::I64(z)),
            None => Err(Fault::Arithmetic),
        },
        (Value::I128(x), Value::I128(y)) => match x.checked_sub(y) {
            Some(z) => Ok(Value::I128(z)),
            None => Err(Fault::Arithmetic),
        },
        (Value::Isize(x), Value::Isize(y)) => match x.checked_sub(y) {
            Some(z) => Ok(Value::Isize(z)),
            None => Err(Fault::Arithmetic),
        },
        _ => Err(Fault::Arithmetic),
    }
}

/// `a * b`.
pub fn native_mul(a: Value, b: Value) -> (r: Result<Value, Fault>)
    requires
        a.spec_ty().is_int(),
        a.spec_ty() == b.spec_ty(),
    ensures
        r == mul_spec(a, b),
{
    match (a, b) {
        (Value::U8(x), Value::U8(y)) => match x.checked_mul(y) {
            Some(z) => Ok(Value::U8(z)),
            None => Err(Fault::Arithmetic),
        },
        (Value::U16(x), Value::U16(y)) => match x.checked_mul(y) {
            Some(z) => Ok(Value::U16(z)),
            None => Err(Fault::Arithmetic),
        },
        (Value::U32(x), Value::U32(y)) => match x.checked_mul(y) {
            Some(z) => Ok(Value::U32(z)),
            None => Err(Fault::Arithmetic),
        },
        (Value::U64(x), Value::U64(y)) => match x.checked_mul(y) {
            Some(z) => Ok(Value::U64(z)),
            None => Err(Fault::Arithmetic),
        },
        (Value::U128(x), Value::U128(y)) => match x.checked_mul(y) {
            Some(z) => Ok(Value::U128(z)),
            None => Err(Fault::Arithmetic),
        },
        (Value::Usize(x), Value::Usize(y)) => match x.checked_mul(y) {
            Some(z) => Ok(Value::Usize(z)),
            None => Err(Fault::Arithmetic),
        },
        (Value::I8(x), Value::I8(y)) => match x.checked_mul(y) {
            Some(z) => Ok(Value::I8(z)),
            None => Err(Fault::Arithmetic),
        },
        (Value::I16(x), Value::I16(y)) => match x.checked_mul(y) {
            Some(z) => Ok(Value::I16(z)),
            None => Err(Fault::Arithmetic),
        },
        (Value::I32(x), Value::I32(y)) => match x.checked_mul(y) {
            Some(z) => Ok(Value::I32(z)),
            None => Err(Fault::Arithmetic),
        },
        (Value::I64(x), Value::I64(y)) => match x.checked_mul(y) {
            Some(z) => Ok(Value::I64(z)),
            None => Err(Fault::Arithmetic),
        },
        (Value::I128(x), Value::I128(y)) => match x.checked_mul(y) {
            Some(z) => Ok(Value::I128(z)),
            None => Err(Fault::Arithmetic),
        },
        (Value::Isize(x), Value::Isize(y)) => match x.checked_mul(y) {
            Some(z) => Ok(Value::Isize(z)),
            None => Err(Fault::Arithmetic),
        },
        _ => Err(Fault::Arithmetic),
    }
}

/// `a / b`, rounded toward zero.
pub fn native_div(a: Value, b: Value) -> (r: Result<Value, Fault>)
    requires
        a.spec_ty().is_int(),
        a.spec_ty() == b.spec_ty(),
    ensures
        r == div_spec(a, b),
{
    match (a, b) {
        (Value::U8(x), Value::U8(y)) => match x.checked_div(y) {
            Some(z) => Ok(Value::U8(z)),
            None => Err(Fault::Arithmetic),
        },
        (Value::U16(x), Value::U16(y)) => match x.checked_div(y) {
            Some(z) => Ok(Value::U16(z)),
            None => Err(Fault::Arithmetic),
        },
        (Value::U32(x), Value::U32(y)) => match x.checked_div(y) {
            Some(z) => Ok(Value::U32(z)),
            None => Err(Fault::Arithmetic),
        },
        (Value::U64(x), Value::U64(y)) => match x.checked_div(y) {
            Some(z) => Ok(Value::U64(z)),
            None => Err(Fault::Arithmetic),
        },
        (Value::U128(x), Value::U128(y)) => match x.checked_div(y) {
            Some(z) => Ok(Value::U128(z)),
            None => Err(Fault::Arithmetic),
        },
        (Value::Usize(x), Value::Usize(y)) => match x.checked_div(y) {
            Some(z) => Ok(Value::Usize(z)),
            None => Err(Fault::Arithmetic),
        },
        (Value::I8(x), Value::I8(y)) => match x.checked_div(y) {
            Some(z) => Ok(Value::I8(z)),
            None => Err(Fault::Arithmetic),
        },
        (Value::I16(x), Value::I16(y)) => match x.checked_div(y) {
            Some(z) => Ok(Value::I16(z)),
            None => Err(Fault::Arithmetic),
        },
        (Value::I32(x), Value::I32(y)) => match x.checked_div(y) {
            Some(z) => Ok(Value::I32(z)),
            None => Err(Fault::Arithmetic),
        },
        (Value::I64(x), Value::I64(y)) => match x.checked_div(y) {
            Some(z) => Ok(Value::I64(z)),
            None => Err(Fault::Arithmetic),
        },
        (Value::I128(x), Value::I128(y)) => match x.checked_div(y) {
            Some(z) => Ok(Value::I128(z)),
            None => Err(Fault::Arithmetic),
        },
        (Value::Isize(x), Value::Isize(y)) => match x.checked_div(y) {
            Some(z) => Ok(Value::Isize(z)),
            None => Err(Fault::Arithmetic),
        },
        _ => Err(Fault::Arithmetic),
    }
}

/// `a % b`, with the sign of `a`.
pub fn native_rem(a: Value, b: Value) -> (r: Result<Value, Fault>)
    requires
        a.spec_ty().is_int(),
        a.spec_ty() == b.spec_ty(),
    ensures
        r == rem_spec(a, b),
{
    proof {
        if b.as_int() != 0 {
            lemma_trunc_bounds(a.as_int(), b.as_int());
        }
    }
    match (a, b) {
        (Value::U8(x), Value::U8(y)) => match x.checked_rem(y) {
            Some(z) => Ok(Value::U8(z)),
            None => Err(Fault::Arithmetic),
        },
        (Value::U16(x), Value::U16(y)) => match x.checked_rem(y) {
            Some(z) => Ok(Value::U16(z)),
            None => Err(Fault::Arithmetic),
        },
        (Value::U32(x), Value::U32(y)) => match x.checked_rem(y) {
            Some(z) => Ok(Value::U32(z)),
            None => Err(Fault::Arithmetic),
        },
        (Value::U64(x), Value::U64(y)) => match x.checked_rem(y) {
            Some(z) => Ok(Value::U64(z)),
            None => Err(Fault::Arithmetic),
        },
        (Value::U128(x), Value::U128(y)) => match x.checked_rem(y) {
            Some(z) => Ok(Value::U128(z)),
            None => Err(Fault::Arithmetic),
        },
        (Value::Usize(x), Value::Usize(y)) => match x.checked_rem(y) {
            Some(z) => Ok(Value::Usize(z)),
            None => Err(Fault::Arithmetic),
        },
        (Value::I8(x), Value::I8(y)) => match x.checked_rem(y) {
            Some(z) => Ok(Value::I8(z)),
            None => Err(Fault::Arithmetic),
        },
        (Value::I16(x), Value::I16(y)) => match x.checked_rem(y) {
            Some(z) => Ok(Value::I16(z)),
            None => Err(Fault::Arithmetic),
        },
        (Value::I32(x), Value::I32(y)) => match x.checked_rem(y) {
            Some(z) => Ok(Value::I32(z)),
            None => Err(Fault::Arithmetic),
        },
        (Value::I64(x), Value::I64(y)) => match x.checked_rem(y) {
            Some(z) => Ok(Value::I64(z)),
            None => Err(Fault::Arithmetic),
        },
        (Value::I128(x), Value::I128(y)) => match x.checked_rem(y) {
            Some(z) => Ok(Value::I128(z)),
            None => Err(Fault::Arithmetic),
        },
        (Value::Isize(x), Value::Isize(y)) => match x.checked_rem(y) {
            Some(z) => Ok(Value::Isize(z)),
            None => Err(Fault::Arithmetic),
        },
        _ => Err(Fault::Arithmetic),
    }
}

/// `-a`.
pub fn native_neg(a: Value) -> (r: Result<Value, Fault>)
    requires
        a.spec_ty().is_signed(),
    ensures
        r == neg_spec(a),
{
    match a {
        Value::I8(x) => if x == i8::MIN {
            Err(Fault::Arithmetic)
        } else {
            Ok(Value::I8(-x))
        },
        Value::I16(x) => if x == i16::MIN {
            Err(Fault::Arithmetic)
        } else {
            Ok(Value::I16(-x))
        },
        Value::I32(x) => if x == i32::MIN {
            Err(Fault::Arithmetic)
        } else {
            Ok(Value::I32(-x))
        },
        Value::I64(x) => if x == i64::MIN {
            Err(Fault::Arithmetic)
        } else {
            Ok(Value::I64(-x))
        },
        Value::I128(x) => if x == i128::MIN {
            Err(Fault::Arithmetic)
        } else {
            Ok(Value::I128(-x))
        },
        Value::Isize(x) => if x == isize::MIN {
            Err(Fault::Arithmetic)
        } else {
            Ok(Value::Isize(-x))
        },
        _ => Err(Fault::Arithmetic),
    }
}

/// `!a`.
pub fn native_not(a: Value) -> (r: Value)
    requires
        a.spec_ty().is_int() || a.spec_ty() == TypeTag::Bool,
    ensures
        r == not_bits(a),
{
    match a {
        Value::Bool(x) => Value::Bool(!x),
        Value::U8(x) => Value::U8(!x),
        Value::U16(x) => Value::U16(!x),
        Value::U32(x) => Value::U32(!x),
        Value::U64(x) => Value::U64(!x),
        Value::U128(x) => Value::U128(!x),
        Value::Usize(x) => Value::Usize(!x),
        Value::I8(x) => Value::I8(!x),
        Value::I16(x) => Value::I16(!x),
        Value::I32(x) => Value::I32(!x),
        Value::I64(x) => Value::I64(!x),
        Value::I128(x) => Value::I128(!x),
        Value::Isize(x) => Value::Isize(!x),
        _ => a,
    }
}

/// `a & b`.
pub fn native_bitand(a: Value, b: Value) -> (r: Value)
    requires
        a.spec_ty().is_int() || a.spec_ty() == TypeTag::Bool,
        a.spec_ty() == b.spec_ty(),
    ensures
        r == and_bits(a, b),
{
    match (a, b) {
        (Value::Bool(x), Value::Bool(y)) => Value::Bool(x && y),
        (Value::U8(x), Value::U8(y)) => Value::U8(x & y),
        (Value::U16(x), Value::U16(y)) => Value::U16(x & y),
        (Value::U32(x), Value::U32(y)) => Value::U32(x & y),
        (Value::U64(x), Value::U64(y)) => Value::U64(x & y),
        (Value::U128(x), Value::U128(y)) => Value::U128(x & y),
        (Value::Usize(x), Value::Usize(y)) => Value::Usize(x & y),
        (Value::I8(x), Value::I8(y)) => Value::I8(x & y),
        (Value::I16(x), Value::I16(y)) => Value::I16(x & y),
        (Value::I32(x), Value::I32(y)) => Value::I32(x & y),
        (Value::I64(x), Value::I64(y)) => Value::I64(x & y),
        (Value::I128(x), Value::I128(y)) => Value::I128(x & y),
        (Value::Isize(x), Value::Isize(y)) => Value::Isize(x & y),
        _ => a,
    }
}

/// `a | b`.
pub fn native_bitor(a: Value, b: Value) -> (r: Value)
    requires
        a.spec_ty().is_int() || a.spec_ty() == TypeTag::Bool,
        a.spec_ty() == b.spec_ty(),
    ensures
        r == or_bits(a, b),
{
    match (a, b) {
        (Value::Bool(x), Value::Bool(y)) => Value::Bool(x || y),
        (Value::U8(x), Value::U8(y)) => Value::U8(x | y),
        (Value::U16(x), Value::U16(y)) => Value::U16(x | y),
        (Value::U32(x), Value::U32(y)) => Value::U32(x | y),
        (Value::U64(x), Value::U64(y)) => Value::U64(x | y),
        (Value::U128(x), Value::U128(y)) => Value::U128(x | y),
        (Value::Usize(x), Value::Usize(y)) => Value::Usize(x | y),
        (Value::I8(x), Value::I8(y)) => Value::I8(x | y),
        (Value::I16(x), Value::I16(y)) => Value::I16(x | y),
        (Value::I32(x), Value::I32(y)) => Value::I32(x | y),
        (Value::I64(x), Value::I64(y)) => Value::I64(x | y),
        (Value::I128(x), Value::I128(y)) => Value::I128(x | y),
        (Value::Isize(x), Value::Isize(y)) => Value::Isize(x | y),
        _ => a,
    }
}

/// `a ^ b`.
pub fn native_bitxor(a: Value, b: Value) -> (r: Value)
    requires
        a.spec_ty().is_int() || a.spec_ty() == TypeTag::Bool,
        a.spec_ty() == b.spec_ty(),
    ensures
        r == xor_bits(a, b),
{
    match (a, b) {
        (Value::Bool(x), Value::Bool(y)) => Value::Bool(x != y),
        (Value::U8(x), Value::U8(y)) => Value::U8(x ^ y),
        (Value::U16(x), Value::U16(y)) => Value::U16(x ^ y),
        (Value::U32(x), Value::U32(y)) => Value::U32(x ^ y),
        (Value::U64(x), Value::U64(y)) => Value::U64(x ^ y),
        (Value::U128(x), Value::U128(y)) => Value::U128(x ^ y),
        (Value::Usize(x), Value::Usize(y)) => Value::Usize(x ^ y),
        (Value::I8(x), Value::I8(y)) => Value::I8(x ^ y),
        (Value::I16(x), Value::I16(y)) => Value::I16(x ^ y),
        (Value::I32(x), Value::I32(y)) => Value::I32(x ^ y),
        (Value::I64(x), Value::I64(y)) => Value::I64(x ^ y),
        (Value::I128(x), Value::I128(y)) => Value::I128(x ^ y),
        (Value::Isize(x), Value::Isize(y)) => Value::Isize(x ^ y),
        _ => a,
    }
}

/// The shift amount that `b` asks for, where it is at least zero and fits a
/// `u32`. Every other amount is too large for any type.
pub fn shift_amount(b: Value) -> (r: Option<u32>)
    requires
        b.spec_ty().is_int(),
    ensures
        r == if 0 <= b.as_int() <= u32::MAX {
            Some(b.as_int() as u32)
        } else {
            None::<u32>
        },
{
    match b {
        Value::U8(x) => Some(x as u32),
        Value::U16(x) => Some(x as u32),
        Value::U32(x) => Some(x),
        Value::U64(x) => if x <= 0xffff_ffff {
            Some(x as u32)
        } else {
            None
        },
        Value::U128(x) => if x <= 0xffff_ffff {
            Some(x as u32)
        } else {
            None
        },
        Value::Usize(x) => if x <= 0xffff_ffff {
            Some(x as u32)
        } else {
            None
        },
        Value::I8(x) => if x >= 0 {
            Some(x as u32)
        } else {
            None
        },
        Value::I16(x) => if x >= 0 {
            Some(x as u32)
        } else {
            None
        },
        Value::I32(x) => if x >= 0 {
            Some(x as u32)
        } else {
            None
        },
        Value::I64(x) => if 0 <= x && x <= 0xffff_ffff {
            Some(x as u32)
        } else {
            None
        },
        Value::I128(x) => if 0 <= x && x <= 0xffff_ffff {
            Some(x as u32)
        } else {
            None
        },
        Value::Isize(x) => {
            let wide: i64 = x as i64;
            if 0 <= wide && wide <= 0xffff_ffff {
                Some(wide as u32)
            } else {
                None
            }
        },
        _ => None,
    }
}

/// `a << b`.
pub fn native_shl(a: Value, b: Value) -> (r: Result<Value, Fault>)
    requires
        a.spec_ty().is_int(),
        b.spec_ty().is_int(),
    ensures
        r == shl_spec(a, b),
{
    let n: u32 = match shift_amount(b) {
        Some(n) => n,
        None => {
            return Err(Fault::Arithmetic);
        },
    };
    match a {
        Value::U8(x) => if n < 8 {
            Ok(Value::U8(x << n))
        } else {
            Err(Fault::Arithmetic)
        },
        Value::U16(x) => if n < 16 {
            Ok(Value::U16(x << n))
        } else {
            Err(Fault::Arithmetic)
        },
        Value::U32(x) => if n < 32 {
            Ok(Value::U32(x << n))
        } else {
            Err(Fault::Arithmetic)
        },
        Value::U64(x) => if n < 64 {
            Ok(Value::U64(x << n))
        } else {
            Err(Fault::Arithmetic)
        },
        Value::U128(x) => if n < 128 {
            Ok(Value::U128(x << n))
        } else {
            Err(Fault::Arithmetic)
        },
        Value::Usize(x) => if n < usize::BITS {
            Ok(Value::Usize(x << n))
        } else {
            Err(Fault::Arithmetic)
        },
        Value::I8(x) => if n < 8 {
            Ok(Value::I8(x << n))
        } else {
            Err(Fault::Arithmetic)
        },
        Value::I16(x) => if n < 16 {
            Ok(Value::I16(x << n))
        } else {
            Err(Fault::Arithmetic)
        },
        Value::I32(x) => if n < 32 {
            Ok(Value::I32(x << n))
        } else {
            Err(Fault::Arithmetic)
        },
        Value::I64(x) => if n < 64 {
            Ok(Value::I64(x << n))
        } else {
            Err(Fault::Arithmetic)
        },
        Value::I128(x) => if n < 128 {
            Ok(Value::I128(x << n))
        } else {
            Err(Fault::Arithmetic)
        },
        Value::Isize(x) => if n < isize::BITS {
            Ok(Value::Isize(x << n))
        } else {
            Err(Fault::Arithmetic)
        },
        _ => Err(Fault::Arithmetic),
    }
}

/// `a >> b`.
pub fn native_shr(a: Value, b: Value) -> (r: Result<Value, Fault>)
    requires
        a.spec_ty().is_int(),
        b.spec_ty().is_int(),
    ensures
        r == shr_spec(a, b),
{
    let n: u32 = match shift_amount(b) {
        Some(n) => n,
        None => {
            return Err(Fault::Arithmetic);
        },
    };
    match a {
        Value::U8(x) => if n < 8 {
            Ok(Value::U8(x >> n))
        } else {
            Err(Fault::Arithmetic)
        },
        Value::U16(x) => if n < 16 {
            Ok(Value::U16(x >> n))
        } else {
            Err(Fault::Arithmetic)
        },
        Value::U32(x) => if n < 32 {
            Ok(Value::U32(x >> n))
        } else {
            Err(Fault::Arithmetic)
        },
        Value::U64(x) => if n < 64 {
            Ok(Value::U64(x >> n))
        } else {
            Err(Fault::Arithmetic)
        },
        Value::U128(x) => if n < 128 {
            Ok(Value::U128(x >> n))
        } else {
            Err(Fault::Arithmetic)
        },
        Value::Usize(x) => if n < usize::BITS {
            Ok(Value::Usize(x >> n))
        } else {
            Err(Fault::Arithmetic)
        },
        Value::I8(x) => if n < 8 {
            Ok(Value::I8(x >> n))
        } else {
            Err(Fault::Arithmetic)
        },
        Value::I16(x) => if n < 16 {
            Ok(Value::I16(x >> n))
        } else {
            Err(Fault::Arithmetic)
        },
        Value::I32(x) => if n < 32 {
            Ok(Value::I32(x >> n))
        } else {
            Err(Fault::Arithmetic)
        },
        Value::I64(x) => if n < 64 {
            Ok(Value::I64(x >> n))
        } else {
            Err(Fault::Arithmetic)
        },
        Value::I128(x) => if n < 128 {
            Ok(Value::I128(x >> n))
        } else {
            Err(Fault::Arithmetic)
        },
        Value::Isize(x) => if n < isize::BITS {
            Ok(Value::Isize(x >> n))
        } else {
            Err(Fault::Arithmetic)
        },
        _ => Err(Fault::Arithmetic),
    }
}

/// `a[i]`, copied out.
pub fn native_index(a: Value, i: Value) -> (r: Result<Value, Fault>)
    requires
        a.spec_ty() == TypeTag::Array8,
        i.spec_ty() == TypeTag::Usize,
    ensures
        r == index_spec(a, i),
{
    match (a, i) {
        (Value::Array8(arr), Value::Usize(k)) => if k < 8 {
            Ok(Value::U8(arr[k]))
        } else {
            Err(Fault::Index)
        },
        _ => Err(Fault::Index),
    }
}

impl UnaryOp {
    /// Whether a value of type `t` supports the operator.
    pub open spec fn spec_accepts(self, t: TypeTag) -> bool {
        match self {
            UnaryOp::Neg => t.is_signed(),
            UnaryOp::Not => t.is_int() || t == TypeTag::Bool,
        }
    }

    /// The type of the result, given the type of the operand.
    pub open spec fn spec_result_type(self, t: TypeTag) -> TypeTag {
        t
    }

    /// What the operator yields on `v`.
    pub open spec fn spec_apply(self, v: Value) -> Result<Value, Fault> {
        match self {
            UnaryOp::Neg => neg_spec(v),
            UnaryOp::Not => Ok(not_bits(v)),
        }
    }

    /// Whether a value of type `t` supports the operator.
    pub fn accepts(&self, t: TypeTag) -> (r: bool)
        ensures
            r == self.spec_accepts(t),
    {
        match self {
            UnaryOp::Neg => is_signed(t),
            UnaryOp::Not => is_int(t) || is_bool(t),
        }
    }

    /// The type of the result, given the type of the operand.
    pub fn result_type(&self, t: TypeTag) -> (r: TypeTag)
        ensures
            r == self.spec_result_type(t),
    {
        t
    }

    /// Applies the operator to `v`.
    pub fn apply(&self, v: Value) -> (r: Result<Value, Fault>)
        requires
            self.spec_accepts(v.spec_ty()),
        ensures
            r == self.spec_apply(v),
    {
        match self {
            UnaryOp::Neg => native_neg(v),
            UnaryOp::Not => Ok(native_not(v)),
        }
    }

    /// A result has the type that the operator promises.
    pub proof fn lemma_apply_typed(self, v: Value)
        requires
            self.spec_accepts(v.spec_ty()),
        ensures
            self.spec_apply(v) matches Ok(out) ==> out.spec_ty() == self.spec_result_type(
                v.spec_ty(),
            ),
    {
    }
}

impl BinaryOp {
    /// Whether a left operand of type `l` supports the operator with a right
    /// operand of type `r`.
    pub open spec fn spec_accepts(self, l: TypeTag, r: TypeTag) -> bool {
        match self {
            BinaryOp::Add | BinaryOp::Sub | BinaryOp::Mul | BinaryOp::Div | BinaryOp::Rem => l.is_int()
                && l == r,
            BinaryOp::BitAnd | BinaryOp::BitOr | BinaryOp::BitXor => (l.is_int() || l
                == TypeTag::Bool) && l == r,
            BinaryOp::Shl | BinaryOp::Shr => l.is_int() && r.is_int(),
            BinaryOp::Index => l == TypeTag::Array8 && r == TypeTag::Usize,
        }
    }

    /// The type of the result, given the types of the operands.
    pub open spec fn spec_result_type(self, l: TypeTag, r: TypeTag) -> TypeTag {
        match self {
            BinaryOp::Index => TypeTag::U8,
            _ => l,
        }
    }

    /// What the operator yields on `a` and `b`.
    pub open spec fn spec_apply(self, a: Value, b: Value) -> Result<Value, Fault> {
        match self {
            BinaryOp::Add => add_spec(a, b),
            BinaryOp::Sub => sub_spec(a, b),
            BinaryOp::Mul => mul_spec(a, b),
            BinaryOp::Div => div_spec(a, b),
            BinaryOp::Rem => rem_spec(a, b),
            BinaryOp::BitAnd => Ok(and_bits(a, b)),
            BinaryOp::BitOr => Ok(or_bits(a, b)),
            BinaryOp::BitXor => Ok(xor_bits(a, b)),
            BinaryOp::Shl => shl_spec(a, b),
            BinaryOp::Shr => shr_spec(a, b),
            BinaryOp::Index => index_spec(a, b),
        }
    }

    /// Whether a left operand of type `l` supports the operator with a right
    /// operand of type `r`.
    pub fn accepts(&self, l: TypeTag, r: TypeTag) -> (ok: bool)
        ensures
            ok == self.spec_accepts(l, r),
    {
        match self {
            BinaryOp::Add | BinaryOp::Sub | BinaryOp::Mul | BinaryOp::Div | BinaryOp::Rem => is_int(l)
                && l == r,
            BinaryOp::BitAnd | BinaryOp::BitOr | BinaryOp::BitXor => (is_int(l) || is_bool(l)) && l
                == r,
            BinaryOp::Shl | BinaryOp::Shr => is_int(l) && is_int(r),
            BinaryOp::Index => l == TypeTag::Array8 && r == TypeTag::Usize,
        }
    }

    /// The type of the result, given the types of the operands.
    pub fn result_type(&self, l: TypeTag, r: TypeTag) -> (t: TypeTag)
        ensures
            t == self.spec_result_type(l, r),
    {
        match self {
            BinaryOp::Index => TypeTag::U8,
            _ => l,
        }
    }

    /// Applies the operator to `a` and `b`.
    pub fn apply(&self, a: Value, b: Value) -> (r: Result<Value, Fault>)
        requires
            self.spec_accepts(a.spec_ty(), b.spec_ty()),
        ensures
            r == self.spec_apply(a, b),
    {
        match self {
            BinaryOp::Add => native_add(a, b),
            BinaryOp::Sub => native_sub(a, b),
            BinaryOp::Mul => native_mul(a, b),
            BinaryOp::Div => native_div(a, b),
            BinaryOp::Rem => native_rem(a, b),
            BinaryOp::BitAnd => Ok(native_bitand(a, b)),
            BinaryOp::BitOr => Ok(native_bitor(a, b)),
            BinaryOp::BitXor => Ok(native_bitxor(a, b)),
            BinaryOp::Shl => native_shl(a, b),
            BinaryOp::Shr => native_shr(a, b),
            BinaryOp::Index => native_index(a, b),
        }
    }

    /// A result has the type that the operator promises.
    pub proof fn lemma_apply_typed(self, a: Value, b: Value)
        requires
            self.spec_accepts(a.spec_ty(), b.spec_ty()),
        ensures
            self.spec_apply(a, b) matches Ok(out) ==> out.spec_ty() == self.spec_result_type(
                a.spec_ty(),
                b.spec_ty(),
            ),
    {
    }
}

/// Whether `t` is one of the integer types.
fn is_int(t: TypeTag) -> (r: bool)
    ensures
        r == t.is_int(),
{
    match t {
        TypeTag::U8 | TypeTag::U16 | TypeTag::U32 | TypeTag::U64 | TypeTag::U128 => true,
        TypeTag::I8 | TypeTag::I16 | TypeTag::I32 | TypeTag::I64 | TypeTag::I128 => true,
        TypeTag::Usize | TypeTag::Isize => true,
        _ => false,
    }
}

/// Whether `t` is one of the signed integer types.
fn is_signed(t: TypeTag) -> (r: bool)
    ensures
        r == t.is_signed(),
{
    match t {
        TypeTag::I8 | TypeTag::I16 | TypeTag::I32 | TypeTag::I64 | TypeTag::I128 => true,
        TypeTag::Isize => true,
        _ => false,
    }
}

/// Whether `t` is `bool`.
fn is_bool(t: TypeTag) -> (r: bool)
    ensures
        r == (t == TypeTag::Bool),
{
    match t {
        TypeTag::Bool => true,
        _ => false,
    }
}

} // verus!
