//! Type-erased storage: the byte image of exactly one value.
//!
//! An image is laid out little end first. It does not record which type it
//! was made from, so whoever decodes it names the type again; only the length
//! is checked against that type.

use crate::types::{TypeTag, Value};
use vstd::prelude::*;

verus! {

/// `256` raised to the power `k`.
pub open spec fn pow256(k: nat) -> nat
    decreases k,
{
    if k == 0 {
        1
    } else {
        256 * pow256((k - 1) as nat)
    }
}

/// The `len` lowest base-256 digits of `n`, lowest first.
pub open spec fn le_bytes(n: nat, len: nat) -> Seq<u8>
    decreases len,
{
    if len == 0 {
        Seq::empty()
    } else {
        seq![(n % 256) as u8] + le_bytes(n / 256, (len - 1) as nat)
    }
}

/// The number whose base-256 digits, lowest first, are `s`.
pub open spec fn le_value(s: Seq<u8>) -> nat
    decreases s.len(),
{
    if s.len() == 0 {
        0
    } else {
        s[0] as nat + 256 * le_value(s.drop_first())
    }
}

/// The array whose elements are those of `s`.
pub open spec fn array8_of(s: Seq<u8>) -> [u8; 8] {
    choose|a: [u8; 8]| a@ == s
}

/// The number that the image of `v` spells. Signed integers count in two's
/// complement; an array counts by its bytes, the first one lowest.
pub open spec fn payload(v: Value) -> nat {
    match v {
        Value::Unit => 0,
        Value::Bool(b) => if b {
            1
        } else {
            0
        },
        Value::U8(x) => x as nat,
        Value::U16(x) => x as nat,
        Value::U32(x) => x as nat,
        Value::U64(x) => x as nat,
        Value::U128(x) => x as nat,
        Value::Usize(x) => x as nat,
        Value::I8(x) => (if x < 0 {
            x + 0x100
        } else {
            x as int
        }) as nat,
        Value::I16(x) => (if x < 0 {
            x + 0x1_0000
        } else {
            x as int
        }) as nat,
        Value::I32(x) => (if x < 0 {
            x + 0x1_0000_0000
        } else {
            x as int
        }) as nat,
        Value::I64(x) => (if x < 0 {
            x + 0x1_0000_0000_0000_0000
        } else {
            x as int
        }) as nat,
        Value::I128(x) => (if x < 0 {
            x + 0x1_0000_0000_0000_0000_0000_0000_0000_0000
        } else {
            x as int
        }) as nat,
        Value::Isize(x) => (if x < 0 {
            x + 0x1_0000_0000_0000_0000
        } else {
            x as int
        }) as nat,
        Value::Array8(a) => le_value(a@),
        Value::Marker(_) => 0,
    }
}

/// The value of type `ty` whose image spells `n`.
pub open spec fn from_payload(ty: TypeTag, n: nat) -> Value {
    match ty {
        TypeTag::Unit => Value::Unit,
        TypeTag::Bool => Value::Bool(n != 0),
        TypeTag::U8 => Value::U8(n as u8),
        TypeTag::U16 => Value::U16(n as u16),
        TypeTag::U32 => Value::U32(n as u32),
        TypeTag::U64 => Value::U64(n as u64),
        TypeTag::U128 => Value::U128(n as u128),
        TypeTag::Usize => Value::Usize(n as usize),
        TypeTag::I8 => Value::I8(
            (if n >= 0x80 {
                n - 0x100
            } else {
                n as int
            }) as i8,
        ),
        TypeTag::I16 => Value::I16(
            (if n >= 0x8000 {
                n - 0x1_0000
            } else {
                n as int
            }) as i16,
        ),
        TypeTag::I32 => Value::I32(
            (if n >= 0x8000_0000 {
                n - 0x1_0000_0000
            } else {
                n as int
            }) as i32,
        ),
        TypeTag::I64 => Value::I64(
            (if n >= 0x8000_0000_0000_0000 {
                n - 0x1_0000_0000_0000_0000
            } else {
                n as int
            }) as i64,
        ),
        TypeTag::I128 => Value::I128(
            (if n >= 0x8000_0000_0000_0000_0000_0000_0000_0000 {
                n - 0x1_0000_0000_0000_0000_0000_0000_0000_0000
            } else {
                n as int
            }) as i128,
        ),
        TypeTag::Isize => Value::Isize(
            (if n >= 0x8000_0000_0000_0000 {
                n - 0x1_0000_0000_0000_0000
            } else {
                n as int
            }) as isize,
        ),
        TypeTag::Array8 => Value::Array8(array8_of(le_bytes(n, 8))),
        TypeTag::Marker(k) => Value::Marker(k),
    }
}

/// The byte image of a value: the number that the value spells, in as many
/// base-256 digits as its type takes, lowest first.
pub open spec fn image(v: Value) -> Seq<u8> {
    le_bytes(payload(v), v.spec_ty().spec_size())
}

/// The value of type `ty` that the bytes `s` are read as. Meaningful when
/// `s` is as long as an image of `ty`; any nonzero byte reads as `true`.
pub open spec fn decode(ty: TypeTag, s: Seq<u8>) -> Value {
    from_payload(ty, le_value(s))
}

/// The powers of 256 that the sizes of the types call for.
pub proof fn lemma_pow256_values()
    ensures
        pow256(0) == 1,
        pow256(1) == 0x100,
        pow256(2) == 0x1_0000,
        pow256(4) == 0x1_0000_0000,
        pow256(8) == 0x1_0000_0000_0000_0000,
        pow256(16) == 0x1_0000_0000_0000_0000_0000_0000_0000_0000,
{
    reveal_with_fuel(pow256, 17);
}

/// Writing `len` digits gives `len` digits.
pub proof fn lemma_le_bytes_len(n: nat, len: nat)
    ensures
        le_bytes(n, len).len() == len,
    decreases len,
{
    if len > 0 {
        lemma_le_bytes_len(n / 256, (len - 1) as nat);
    }
}

/// A number read back from its own digits is unchanged, provided that the
/// digits were enough to hold it.
pub proof fn lemma_le_value_of_bytes(n: nat, len: nat)
    requires
        n < pow256(len),
    ensures
        le_value(le_bytes(n, len)) == n,
    decreases len,
{
    if len > 0 {
        let rest = le_bytes(n / 256, (len - 1) as nat);
        lemma_le_bytes_len(n / 256, (len - 1) as nat);
        lemma_le_value_of_bytes(n / 256, (len - 1) as nat);
        assert(le_bytes(n, len).drop_first() =~= rest);
    }
}

/// A number spelled by `k` digits is less than 256 to the power `k`.
pub proof fn lemma_le_value_bound(s: Seq<u8>)
    ensures
        le_value(s) < pow256(s.len()),
    decreases s.len(),
{
    if s.len() > 0 {
        lemma_le_value_bound(s.drop_first());
    }
}

/// Digits written back from the number they spell are unchanged.
pub proof fn lemma_le_bytes_of_value(s: Seq<u8>)
    ensures
        le_bytes(le_value(s), s.len()) == s,
    decreases s.len(),
{
    if s.len() > 0 {
        lemma_le_bytes_of_value(s.drop_first());
        assert(le_bytes(le_value(s), s.len()) =~= s);
    }
}

/// An image is as long as its type says.
pub proof fn lemma_image_len(v: Value)
    ensures
        image(v).len() == v.spec_ty().spec_size(),
{
    lemma_le_bytes_len(payload(v), v.spec_ty().spec_size());
}

/// Round trip: decoding the image of a value at the value's own type gives
/// the value back.
pub proof fn lemma_round_trip(v: Value)
    ensures
        decode(v.spec_ty(), image(v)) == v,
{
    lemma_pow256_values();
    match v {
        Value::Array8(a) => {
            lemma_le_bytes_of_value(a@);
            assert(array8_of(a@)@ == a@);
            assert(array8_of(a@) =~= a);
        },
        _ => {
            lemma_le_value_of_bytes(payload(v), v.spec_ty().spec_size());
        },
    }
}

/// An array's image is the array's bytes.
pub proof fn lemma_array_image(a: [u8; 8])
    ensures
        image(Value::Array8(a)) == a@,
{
    lemma_le_bytes_of_value(a@);
}

/// Writes the `len` lowest base-256 digits of `n`, lowest first.
fn le_encode(n: u128, len: usize) -> (r: Vec<u8>)
    requires
        len <= 16,
    ensures
        r@ == le_bytes(n as nat, len as nat),
{
    let mut out: Vec<u8> = Vec::new();
    let mut rest: u128 = n;
    let mut i: usize = 0;
    while i < len
        invariant
            i <= len,
            out@.len() == i,
            le_bytes(n as nat, len as nat) == out@ + le_bytes(rest as nat, (len - i) as nat),
        decreases len - i,
    {
        let low: u8 = (rest % 256) as u8;
        proof {
            let tail = le_bytes((rest / 256) as nat, (len - i - 1) as nat);
            assert(le_bytes(rest as nat, (len - i) as nat) == seq![low] + tail);
            assert(out@ + (seq![low] + tail) =~= out@.push(low) + tail);
        }
        out.push(low);
        rest = rest / 256;
        i = i + 1;
    }
    assert(out@ + Seq::<u8>::empty() =~= out@);
    out
}

/// Reads the number whose base-256 digits, lowest first, are `s`.
fn le_decode(s: &Vec<u8>) -> (n: u128)
    requires
        s@.len() <= 16,
    ensures
        n == le_value(s@),
{
    let len: usize = s.len();
    let mut acc: u128 = 0;
    let mut i: usize = len;
    proof {
        assert(s@.subrange(len as int, len as int) =~= Seq::<u8>::empty());
        lemma_pow256_values();
    }
    while i > 0
        invariant
            i <= len,
            len == s@.len(),
            len <= 16,
            acc == le_value(s@.subrange(i as int, len as int)),
        decreases i,
    {
        proof {
            let cur = s@.subrange(i - 1, len as int);
            let old_tail = s@.subrange(i as int, len as int);
            assert(cur.drop_first() =~= old_tail);
            lemma_le_value_bound(cur);
            lemma_le_value_bound(old_tail);
            lemma_pow_monotone(cur.len(), 16);
            lemma_pow256_values();
        }
        i = i - 1;
        let byte: u128 = s[i] as u128;
        acc = acc * 256 + byte;
    }
    assert(s@.subrange(0, len as int) =~= s@);
    acc
}

/// Powers of 256 grow with the exponent.
pub proof fn lemma_pow_monotone(a: nat, b: nat)
    requires
        a <= b,
    ensures
        pow256(a) <= pow256(b),
    decreases b,
{
    if a < b {
        lemma_pow_monotone(a, (b - 1) as nat);
    }
}

/// The number that the image of `v` spells.
fn payload_of(v: &Value) -> (n: u128)
    requires
        !(v is Array8),
    ensures
        n == payload(*v),
{
    match v {
        Value::Unit => 0,
        Value::Bool(b) => if *b {
            1
        } else {
            0
        },
        Value::U8(x) => *x as u128,
        Value::U16(x) => *x as u128,
        Value::U32(x) => *x as u128,
        Value::U64(x) => *x as u128,
        Value::U128(x) => *x,
        Value::Usize(x) => *x as u128,
        Value::I8(x) => if *x < 0 {
            (*x as i128 + 0x100) as u128
        } else {
            *x as u128
        },
        Value::I16(x) => if *x < 0 {
            (*x as i128 + 0x1_0000) as u128
        } else {
            *x as u128
        },
        Value::I32(x) => if *x < 0 {
            (*x as i128 + 0x1_0000_0000) as u128
        } else {
            *x as u128
        },
        Value::I64(x) => if *x < 0 {
            (*x as i128 + 0x1_0000_0000_0000_0000i128) as u128
        } else {
            *x as u128
        },
        Value::I128(x) => if *x < 0 {
            let below: u128 = (-(*x + 1)) as u128;
            u128::MAX - below
        } else {
            *x as u128
        },
        Value::Isize(x) => if *x < 0 {
            (*x as i128 + 0x1_0000_0000_0000_0000i128) as u128
        } else {
            *x as u128
        },
        Value::Array8(_) => 0,
        Value::Marker(_) => 0,
    }
}

/// The value of type `ty` whose image spells `n`.
fn value_of_payload(ty: TypeTag, n: u128) -> (v: Value)
    requires
        !(ty is Array8),
        n < pow256(ty.spec_size()),
    ensures
        v == from_payload(ty, n as nat),
{
    proof {
        lemma_pow256_values();
    }
    match ty {
        TypeTag::Unit => Value::Unit,
        TypeTag::Bool => Value::Bool(n != 0),
        TypeTag::U8 => Value::U8(n as u8),
        TypeTag::U16 => Value::U16(n as u16),
        TypeTag::U32 => Value::U32(n as u32),
        TypeTag::U64 => Value::U64(n as u64),
        TypeTag::U128 => Value::U128(n),
        TypeTag::Usize => {
            let narrow: usize = #[verifier::truncate]
            (n as usize);
            Value::Usize(narrow)
        },
        TypeTag::I8 => if n >= 0x80 {
            Value::I8((n as i128 - 0x100) as i8)
        } else {
            Value::I8(n as i8)
        },
        TypeTag::I16 => if n >= 0x8000 {
            Value::I16((n as i128 - 0x1_0000) as i16)
        } else {
            Value::I16(n as i16)
        },
        TypeTag::I32 => if n >= 0x8000_0000 {
            Value::I32((n as i128 - 0x1_0000_0000) as i32)
        } else {
            Value::I32(n as i32)
        },
        TypeTag::I64 => if n >= 0x8000_0000_0000_0000 {
            Value::I64((n as i128 - 0x1_0000_0000_0000_0000i128) as i64)
        } else {
            Value::I64(n as i64)
        },
        TypeTag::I128 => if n >= 0x8000_0000_0000_0000_0000_0000_0000_0000 {
            let above: i128 = (u128::MAX - n) as i128;
            Value::I128(-above - 1)
        } else {
            Value::I128(n as i128)
        },
        TypeTag::Isize => {
            let wide: i128 = if n >= 0x8000_0000_0000_0000 {
                n as i128 - 0x1_0000_0000_0000_0000i128
            } else {
                n as i128
            };
            let narrow: isize = #[verifier::truncate]
            (wide as isize);
            Value::Isize(narrow)
        },
        TypeTag::Array8 => Value::Unit,
        TypeTag::Marker(k) => Value::Marker(k),
    }
}

/// The byte image of one value, stripped of its type.
#[derive(Clone, Debug, PartialEq, Eq)]
pub struct Bytes(Vec<u8>);

impl View for Bytes {
    type V = Seq<u8>;

    closed spec fn view(&self) -> Seq<u8> {
        self.0@
    }
}

/// A typed look at stored bytes that borrows them instead of copying.
#[derive(Clone, Copy, Debug)]
pub struct ValueRef<'a> {
    ty: TypeTag,
    bytes: &'a Bytes,
}

impl<'a> ValueRef<'a> {
    /// The type at which the bytes are read.
    pub closed spec fn spec_ty(&self) -> TypeTag {
        self.ty
    }

    /// The bytes that are looked at.
    pub closed spec fn spec_bytes(&self) -> Seq<u8> {
        self.bytes@
    }

    /// The value that is seen.
    pub open spec fn spec_value(&self) -> Value {
        decode(self.spec_ty(), self.spec_bytes())
    }

    /// The bytes have the length of an image of the type.
    #[verifier::type_invariant]
    spec fn well_formed(&self) -> bool {
        self.bytes@.len() == self.ty.spec_size()
    }

    /// The type at which the bytes are read.
    pub fn ty(&self) -> (t: TypeTag)
        ensures
            t == self.spec_ty(),
    {
        self.ty
    }

    /// Copies the value out.
    pub fn get(&self) -> (v: Value)
        ensures
            v == self.spec_value(),
    {
        proof {
            use_type_invariant(self);
        }
        self.bytes.as_type(self.ty)
    }
}

impl Bytes {
    /// Captures the image of `value`.
    pub fn new(value: &Value) -> (r: Bytes)
        ensures
            r@ == image(*value),
    {
        match value {
            Value::Array8(a) => {
                let mut out: Vec<u8> = Vec::new();
                let mut i: usize = 0;
                while i < 8
                    invariant
                        i <= 8,
                        out@ == a@.subrange(0, i as int),
                    decreases 8 - i,
                {
                    out.push(a[i]);
                    assert(out@ =~= a@.subrange(0, i + 1));
                    i = i + 1;
                }
                proof {
                    assert(a@.subrange(0, 8) =~= a@);
                    lemma_array_image(*a);
                }
                Bytes(out)
            },
            _ => {
                let n = payload_of(value);
                let len = value.ty().size();
                Bytes(le_encode(n, len))
            },
        }
    }

    /// Wraps raw bytes as they are.
    pub fn from_vec(raw: Vec<u8>) -> (r: Bytes)
        ensures
            r@ == raw@,
    {
        Bytes(raw)
    }

    /// Hands the raw bytes back.
    pub fn into_vec(self) -> (raw: Vec<u8>)
        ensures
            raw@ == self@,
    {
        self.0
    }

    /// A copy of the bytes.
    pub fn duplicate(&self) -> (r: Bytes)
        ensures
            r@ == self@,
    {
        let mut out: Vec<u8> = Vec::new();
        let mut i: usize = 0;
        while i < self.0.len()
            invariant
                i <= self.0@.len(),
                out@ == self.0@.subrange(0, i as int),
            decreases self.0@.len() - i,
        {
            out.push(self.0[i]);
            assert(out@ =~= self.0@.subrange(0, i + 1));
            i = i + 1;
        }
        assert(self.0@.subrange(0, self.0@.len() as int) =~= self.0@);
        Bytes(out)
    }

    /// The number of bytes.
    pub fn len(&self) -> (n: usize)
        ensures
            n == self@.len(),
    {
        self.0.len()
    }

    /// Reads the bytes as a value of type `ty`.
    ///
    /// Only the length is checked against `ty`: bytes made from another type
    /// of the same size are read without complaint.
    pub fn as_type(&self, ty: TypeTag) -> (v: Value)
        requires
            self@.len() == ty.spec_size(),
        ensures
            v == decode(ty, self@),
    {
        match ty {
            TypeTag::Array8 => {
                let s = &self.0;
                let a: [u8; 8] = [s[0], s[1], s[2], s[3], s[4], s[5], s[6], s[7]];
                proof {
                    assert(a@ =~= self@);
                    lemma_le_bytes_of_value(self@);
                    assert(array8_of(self@)@ == self@);
                    assert(array8_of(self@) =~= a);
                }
                Value::Array8(a)
            },
            _ => {
                proof {
                    lemma_le_value_bound(self@);
                }
                let n = le_decode(&self.0);
                value_of_payload(ty, n)
            },
        }
    }

    /// Reads the bytes as a value of type `ty`, provided that they have the
    /// length of an image of `ty`.
    pub fn checked_as_type(&self, ty: TypeTag) -> (r: Option<Value>)
        ensures
            r == if self@.len() == ty.spec_size() {
                Some(decode(ty, self@))
            } else {
                None::<Value>
            },
    {
        if self.len() == ty.size() {
            Some(self.as_type(ty))
        } else {
            None
        }
    }

    /// Looks at the bytes as a value of type `ty` without copying them.
    pub fn as_ref<'a>(&'a self, ty: TypeTag) -> (r: ValueRef<'a>)
        requires
            self@.len() == ty.spec_size(),
        ensures
            r.spec_ty() == ty,
            r.spec_bytes() == self@,
    {
        ValueRef { ty, bytes: self }
    }
}

} // verus!
