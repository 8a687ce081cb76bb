//! The expression algebra: deferred computations that yield a value only
//! when they are forced.
//!
//! Every kind of expression is a type of its own that implements
//! [`ConstValue`]. An expression owns its operands, so a composite expression
//! is a tree; forcing it forces the operands from left to right, applies the
//! operator and captures the result as bytes. Nothing is kept between two
//! forcings: forcing twice computes twice, with the same outcome.

use crate::bytes::{decode, image, lemma_image_len, lemma_round_trip, Bytes};
use crate::fault::Fault;
use crate::ops::{BinaryOp, UnaryOp};
use crate::types::{TypeTag, Value};
use vstd::prelude::*;
use vstd::std_specs::ops::{
    AddSpecImpl, BitAndSpecImpl, BitOrSpecImpl, BitXorSpecImpl, DivSpecImpl, MulSpecImpl,
    NegSpecImpl, NotSpecImpl, RemSpecImpl, ShlSpecImpl, ShrSpecImpl, SubSpecImpl,
};

verus! {

/// Whether `out` is a faithful outcome of forcing an expression of type `ty`
/// that should yield `expected`: the same fault, or bytes of the right length
/// that read as the expected value.
pub open spec fn outcome_is(
    out: Result<Bytes, Fault>,
    ty: TypeTag,
    expected: Result<Value, Fault>,
) -> bool {
    match out {
        Ok(bytes) => bytes@.len() == ty.spec_size() && expected == Ok::<Value, Fault>(
            decode(ty, bytes@),
        ),
        Err(e) => expected == Err::<Value, Fault>(e),
    }
}

/// A deferred computation.
pub trait ConstValue: Sized {
    /// Whether the expression is put together properly: operand types
    /// support their operators, stored bytes have the length of their type,
    /// and every transform may be called on what it will be given.
    spec fn wf(&self) -> bool;

    /// The logical type of the result.
    spec fn spec_ty(&self) -> TypeTag;

    /// What forcing the expression yields.
    spec fn spec_value(&self) -> Result<Value, Fault>;

    /// The logical type of the result.
    fn ty(&self) -> (t: TypeTag)
        ensures
            t == self.spec_ty(),
    ;

    /// Forces the expression and captures the result as bytes.
    fn value(&self) -> (out: Result<Bytes, Fault>)
        requires
            self.wf(),
        ensures
            outcome_is(out, self.spec_ty(), self.spec_value()),
    ;

    /// A result has the type of its expression.
    proof fn lemma_typed(&self)
        requires
            self.wf(),
        ensures
            self.spec_value() matches Ok(v) ==> v.spec_ty() == self.spec_ty(),
    ;
}

/// Forces `node` and reads the result back at the type of `node`.
pub fn force<V: ConstValue>(node: &V) -> (r: Result<Value, Fault>)
    requires
        node.wf(),
    ensures
        r == node.spec_value(),
{
    match node.value() {
        Ok(bytes) => Ok(bytes.as_type(node.ty())),
        Err(e) => Err(e),
    }
}

/// Whether `out` is a fault, or the image of the value it reads as at
/// type `ty`.
pub open spec fn canonical(out: Result<Bytes, Fault>, ty: TypeTag) -> bool {
    out matches Ok(bytes) ==> bytes@ == image(decode(ty, bytes@))
}

/// Captures `v` as the outcome of an expression.
fn capture(v: Value) -> (out: Result<Bytes, Fault>)
    ensures
        outcome_is(out, v.spec_ty(), Ok(v)),
        canonical(out, v.spec_ty()),
        out matches Ok(bytes) && bytes@ == image(v),
{
    proof {
        lemma_image_len(v);
        lemma_round_trip(v);
    }
    Ok(Bytes::new(&v))
}

/// The expression that yields `()`.
impl ConstValue for () {
    open spec fn wf(&self) -> bool {
        true
    }

    open spec fn spec_ty(&self) -> TypeTag {
        TypeTag::Unit
    }

    open spec fn spec_value(&self) -> Result<Value, Fault> {
        Ok(Value::Unit)
    }

    fn ty(&self) -> (t: TypeTag) {
        TypeTag::Unit
    }

    fn value(&self) -> (out: Result<Bytes, Fault>)
        ensures
            canonical(out, self.spec_ty()),
    {
        capture(Value::Unit)
    }

    proof fn lemma_typed(&self) {
    }
}

/// A value that is already in byte form, with the type to read it at.
#[derive(Clone, Debug)]
pub struct ConstLiteral {
    pub ty: TypeTag,
    pub bytes: Bytes,
}

impl ConstLiteral {
    /// The literal that holds `v`.
    pub fn new(v: Value) -> (r: ConstLiteral)
        ensures
            r.wf(),
            r.spec_ty() == v.spec_ty(),
            r.spec_value() == Ok::<Value, Fault>(v),
            r.bytes@ == image(v),
    {
        proof {
            lemma_image_len(v);
            lemma_round_trip(v);
        }
        ConstLiteral { ty: v.ty(), bytes: Bytes::new(&v) }
    }

    /// The literal that reads `bytes` at type `ty`, provided that `bytes`
    /// has the length of an image of `ty`.
    pub fn from_bytes(ty: TypeTag, bytes: Bytes) -> (r: Option<ConstLiteral>)
        ensures
            match r {
                Some(literal) => literal.wf() && literal.ty == ty && literal.bytes == bytes,
                None => bytes@.len() != ty.spec_size(),
            },
    {
        if bytes.len() == ty.size() {
            Some(ConstLiteral { ty, bytes })
        } else {
            None
        }
    }
}

impl ConstValue for ConstLiteral {
    open spec fn wf(&self) -> bool {
        self.bytes@.len() == self.ty.spec_size()
    }

    open spec fn spec_ty(&self) -> TypeTag {
        self.ty
    }

    open spec fn spec_value(&self) -> Result<Value, Fault> {
        Ok(decode(self.ty, self.bytes@))
    }

    fn ty(&self) -> (t: TypeTag) {
        self.ty
    }

    fn value(&self) -> (out: Result<Bytes, Fault>)
        ensures
            out matches Ok(bytes) && bytes@ == self.bytes@,
    {
        Ok(self.bytes.duplicate())
    }

    proof fn lemma_typed(&self) {
    }
}

/// What a unary operator yields on the outcome of its operand.
pub open spec fn unary_value(op: UnaryOp, operand: Result<Value, Fault>) -> Result<Value, Fault> {
    match operand {
        Ok(v) => op.spec_apply(v),
        Err(e) => Err(e),
    }
}

/// What a binary operator yields on the outcomes of its operands. A fault on
/// the left hides whatever the right would have done.
pub open spec fn binary_value(
    op: BinaryOp,
    left: Result<Value, Fault>,
    right: Result<Value, Fault>,
) -> Result<Value, Fault> {
    match left {
        Ok(a) => match right {
            Ok(b) => op.spec_apply(a, b),
            Err(e) => Err(e),
        },
        Err(e) => Err(e),
    }
}

/// Whether `op` on `operand` is well formed: the operand is, and its type
/// supports the operator.
pub open spec fn unary_wf<V: ConstValue>(op: UnaryOp, operand: V) -> bool {
    operand.wf() && op.spec_accepts(operand.spec_ty())
}

/// Whether `op` on `left` and `right` is well formed: the operands are, and
/// their types support the operator.
pub open spec fn binary_wf<L: ConstValue, R: ConstValue>(op: BinaryOp, left: L, right: R) -> bool {
    left.wf() && right.wf() && op.spec_accepts(left.spec_ty(), right.spec_ty())
}

/// Forces the operand, applies `op` and captures the result.
pub fn eval_unary<V: ConstValue>(op: UnaryOp, operand: &V) -> (out: Result<Bytes, Fault>)
    requires
        unary_wf(op, *operand),
    ensures
        outcome_is(
            out,
            op.spec_result_type(operand.spec_ty()),
            unary_value(op, operand.spec_value()),
        ),
        canonical(out, op.spec_result_type(operand.spec_ty())),
{
    let v = force(operand)?;
    proof {
        operand.lemma_typed();
        op.lemma_apply_typed(v);
    }
    let r = op.apply(v)?;
    capture(r)
}

/// Forces the operands from left to right, applies `op` and captures the
/// result.
pub fn eval_binary<L: ConstValue, R: ConstValue>(op: BinaryOp, left: &L, right: &R) -> (out: Result<
    Bytes,
    Fault,
>)
    requires
        binary_wf(op, *left, *right),
    ensures
        outcome_is(
            out,
            op.spec_result_type(left.spec_ty(), right.spec_ty()),
            binary_value(op, left.spec_value(), right.spec_value()),
        ),
        canonical(out, op.spec_result_type(left.spec_ty(), right.spec_ty())),
{
    let a = force(left)?;
    let b = force(right)?;
    proof {
        left.lemma_typed();
        right.lemma_typed();
        op.lemma_apply_typed(a, b);
    }
    let r = op.apply(a, b)?;
    capture(r)
}

/// The result of a unary operator has the type that the operator promises.
pub proof fn lemma_unary_typed<V: ConstValue>(op: UnaryOp, operand: V)
    requires
        unary_wf(op, operand),
    ensures
        unary_value(op, operand.spec_value()) matches Ok(v) ==> v.spec_ty() == op.spec_result_type(
            operand.spec_ty(),
        ),
{
    operand.lemma_typed();
    if let Ok(v) = operand.spec_value() {
        op.lemma_apply_typed(v);
    }
}

/// The result of a binary operator has the type that the operator promises.
pub proof fn lemma_binary_typed<L: ConstValue, R: ConstValue>(op: BinaryOp, left: L, right: R)
    requires
        binary_wf(op, left, right),
    ensures
        binary_value(op, left.spec_value(), right.spec_value()) matches Ok(v) ==> v.spec_ty()
            == op.spec_result_type(left.spec_ty(), right.spec_ty()),
{
    left.lemma_typed();
    right.lemma_typed();
    if let Ok(a) = left.spec_value() {
        if let Ok(b) = right.spec_value() {
            op.lemma_apply_typed(a, b);
        }
    }
}

/// The expression `-operand`.
#[derive(Clone, Copy, Debug)]
pub struct ConstNeg<V>(pub V);

impl<V: ConstValue> ConstValue for ConstNeg<V> {
    open spec fn wf(&self) -> bool {
        unary_wf(UnaryOp::Neg, self.0)
    }

    open spec fn spec_ty(&self) -> TypeTag {
        UnaryOp::Neg.spec_result_type(self.0.spec_ty())
    }

    open spec fn spec_value(&self) -> Result<Value, Fault> {
        unary_value(UnaryOp::Neg, self.0.spec_value())
    }

    fn ty(&self) -> (t: TypeTag) {
        UnaryOp::Neg.result_type(self.0.ty())
    }

    fn value(&self) -> (out: Result<Bytes, Fault>)
        ensures
            canonical(out, self.spec_ty()),
    {
        eval_unary(UnaryOp::Neg, &self.0)
    }

    proof fn lemma_typed(&self) {
        lemma_unary_typed(UnaryOp::Neg, self.0);
    }
}

/// The expression `!operand`.
#[derive(Clone, Copy, Debug)]
pub struct ConstNot<V>(pub V);

impl<V: ConstValue> ConstValue for ConstNot<V> {
    open spec fn wf(&self) -> bool {
        unary_wf(UnaryOp::Not, self.0)
    }

    open spec fn spec_ty(&self) -> TypeTag {
        UnaryOp::Not.spec_result_type(self.0.spec_ty())
    }

    open spec fn spec_value(&self) -> Result<Value, Fault> {
        unary_value(UnaryOp::Not, self.0.spec_value())
    }

    fn ty(&self) -> (t: TypeTag) {
        UnaryOp::Not.result_type(self.0.ty())
    }

    fn value(&self) -> (out: Result<Bytes, Fault>)
        ensures
            canonical(out, self.spec_ty()),
    {
        eval_unary(UnaryOp::Not, &self.0)
    }

    proof fn lemma_typed(&self) {
        lemma_unary_typed(UnaryOp::Not, self.0);
    }
}

/// The expression `left + right`.
#[derive(Clone, Copy, Debug)]
pub struct ConstAdd<L, R>(pub L, pub R);

impl<L: ConstValue, R: ConstValue> ConstValue for ConstAdd<L, R> {
    open spec fn wf(&self) -> bool {
        binary_wf(BinaryOp::Add, self.0, self.1)
    }

    open spec fn spec_ty(&self) -> TypeTag {
        BinaryOp::Add.spec_result_type(self.0.spec_ty(), self.1.spec_ty())
    }

    open spec fn spec_value(&self) -> Result<Value, Fault> {
        binary_value(BinaryOp::Add, self.0.spec_value(), self.1.spec_value())
    }

    fn ty(&self) -> (t: TypeTag) {
        BinaryOp::Add.result_type(self.0.ty(), self.1.ty())
    }

    fn value(&self) -> (out: Result<Bytes, Fault>)
        ensures
            canonical(out, self.spec_ty()),
    {
        eval_binary(BinaryOp::Add, &self.0, &self.1)
    }

    proof fn lemma_typed(&self) {
        lemma_binary_typed(BinaryOp::Add, self.0, self.1);
    }
}

/// The expression `left - right`.
#[derive(Clone, Copy, Debug)]
pub struct ConstSub<L, R>(pub L, pub R);

impl<L: ConstValue, R: ConstValue> ConstValue for ConstSub<L, R> {
    open spec fn wf(&self) -> bool {
        binary_wf(BinaryOp::Sub, self.0, self.1)
    }

    open spec fn spec_ty(&self) -> TypeTag {
        BinaryOp::Sub.spec_result_type(self.0.spec_ty(), self.1.spec_ty())
    }

    open spec fn spec_value(&self) -> Result<Value, Fault> {
        binary_value(BinaryOp::Sub, self.0.spec_value(), self.1.spec_value())
    }

    fn ty(&self) -> (t: TypeTag) {
        BinaryOp::Sub.result_type(self.0.ty(), self.1.ty())
    }

    fn value(&self) -> (out: Result<Bytes, Fault>)
        ensures
            canonical(out, self.spec_ty()),
    {
        eval_binary(BinaryOp::Sub, &self.0, &self.1)
    }

    proof fn lemma_typed(&self) {
        lemma_binary_typed(BinaryOp::Sub, self.0, self.1);
    }
}

/// The expression `left * right`.
#[derive(Clone, Copy, Debug)]
pub struct ConstMul<L, R>(pub L, pub R);

impl<L: ConstValue, R: ConstValue> ConstValue for ConstMul<L, R> {
    open spec fn wf(&self) -> bool {
        binary_wf(BinaryOp::Mul, self.0, self.1)
    }

    open spec fn spec_ty(&self) -> TypeTag {
        BinaryOp::Mul.spec_result_type(self.0.spec_ty(), self.1.spec_ty())
    }

    open spec fn spec_value(&self) -> Result<Value, Fault> {
        binary_value(BinaryOp::Mul, self.0.spec_value(), self.1.spec_value())
    }

    fn ty(&self) -> (t: TypeTag) {
        BinaryOp::Mul.result_type(self.0.ty(), self.1.ty())
    }

    fn value(&self) -> (out: Result<Bytes, Fault>)
        ensures
            canonical(out, self.spec_ty()),
    {
        eval_binary(BinaryOp::Mul, &self.0, &self.1)
    }

    proof fn lemma_typed(&self) {
        lemma_binary_typed(BinaryOp::Mul, self.0, self.1);
    }
}

/// The expression `left / right`.
#[derive(Clone, Copy, Debug)]
pub struct ConstDiv<L, R>(pub L, pub R);

impl<L: ConstValue, R: ConstValue> ConstValue for ConstDiv<L, R> {
    open spec fn wf(&self) -> bool {
        binary_wf(BinaryOp::Div, self.0, self.1)
    }

    open spec fn spec_ty(&self) -> TypeTag {
        BinaryOp::Div.spec_result_type(self.0.spec_ty(), self.1.spec_ty())
    }

    open spec fn spec_value(&self) -> Result<Value, Fault> {
        binary_value(BinaryOp::Div, self.0.spec_value(), self.1.spec_value())
    }

    fn ty(&self) -> (t: TypeTag) {
        BinaryOp::Div.result_type(self.0.ty(), self.1.ty())
    }

    fn value(&self) -> (out: Result<Bytes, Fault>)
        ensures
            canonical(out, self.spec_ty()),
    {
        eval_binary(BinaryOp::Div, &self.0, &self.1)
    }

    proof fn lemma_typed(&self) {
        lemma_binary_typed(BinaryOp::Div, self.0, self.1);
    }
}

/// The expression `left % right`.
#[derive(Clone, Copy, Debug)]
pub struct ConstRem<L, R>(pub L, pub R);

impl<L: ConstValue, R: ConstValue> ConstValue for ConstRem<L, R> {
    open spec fn wf(&self) -> bool {
        binary_wf(BinaryOp::Rem, self.0, self.1)
    }

    open spec fn spec_ty(&self) -> TypeTag {
        BinaryOp::Rem.spec_result_type(self.0.spec_ty(), self.1.spec_ty())
    }

    open spec fn spec_value(&self) -> Result<Value, Fault> {
        binary_value(BinaryOp::Rem, self.0.spec_value(), self.1.spec_value())
    }

    fn ty(&self) -> (t: TypeTag) {
        BinaryOp::Rem.result_type(self.0.ty(), self.1.ty())
    }

    fn value(&self) -> (out: Result<Bytes, Fault>)
        ensures
            canonical(out, self.spec_ty()),
    {
        eval_binary(BinaryOp::Rem, &self.0, &self.1)
    }

    proof fn lemma_typed(&self) {
        lemma_binary_typed(BinaryOp::Rem, self.0, self.1);
    }
}

/// The expression `left & right`.
#[derive(Clone, Copy, Debug)]
pub struct ConstBitAnd<L, R>(pub L, pub R);

impl<L: ConstValue, R: ConstValue> ConstValue for ConstBitAnd<L, R> {
    open spec fn wf(&self) -> bool {
        binary_wf(BinaryOp::BitAnd, self.0, self.1)
    }

    open spec fn spec_ty(&self) -> TypeTag {
        BinaryOp::BitAnd.spec_result_type(self.0.spec_ty(), self.1.spec_ty())
    }

    open spec fn spec_value(&self) -> Result<Value, Fault> {
        binary_value(BinaryOp::BitAnd, self.0.spec_value(), self.1.spec_value())
    }

    fn ty(&self) -> (t: TypeTag) {
        BinaryOp::BitAnd.result_type(self.0.ty(), self.1.ty())
    }

    fn value(&self) -> (out: Result<Bytes, Fault>)
        ensures
            canonical(out, self.spec_ty()),
    {
        eval_binary(BinaryOp::BitAnd, &self.0, &self.1)
    }

    proof fn lemma_typed(&self) {
        lemma_binary_typed(BinaryOp::BitAnd, self.0, self.1);
    }
}

/// The expression `left | right`.
#[derive(Clone, Copy, Debug)]
pub struct ConstBitOr<L, R>(pub L, pub R);

impl<L: ConstValue, R: ConstValue> ConstValue for ConstBitOr<L, R> {
    open spec fn wf(&self) -> bool {
        binary_wf(BinaryOp::BitOr, self.0, self.1)
    }

    open spec fn spec_ty(&self) -> TypeTag {
        BinaryOp::BitOr.spec_result_type(self.0.spec_ty(), self.1.spec_ty())
    }

    open spec fn spec_value(&self) -> Result<Value, Fault> {
        binary_value(BinaryOp::BitOr, self.0.spec_value(), self.1.spec_value())
    }

    fn ty(&self) -> (t: TypeTag) {
        BinaryOp::BitOr.result_type(self.0.ty(), self.1.ty())
    }

    fn value(&self) -> (out: Result<Bytes, Fault>)
        ensures
            canonical(out, self.spec_ty()),
    {
        eval_binary(BinaryOp::BitOr, &self.0, &self.1)
    }

    proof fn lemma_typed(&self) {
        lemma_binary_typed(BinaryOp::BitOr, self.0, self.1);
    }
}

/// The expression `left ^ right`.
#[derive(Clone, Copy, Debug)]
pub struct ConstBitXor<L, R>(pub L, pub R);

impl<L: ConstValue, R: ConstValue> ConstValue for ConstBitXor<L, R> {
    open spec fn wf(&self) -> bool {
        binary_wf(BinaryOp::BitXor, self.0, self.1)
    }

    open spec fn spec_ty(&self) -> TypeTag {
        BinaryOp::BitXor.spec_result_type(self.0.spec_ty(), self.1.spec_ty())
    }

    open spec fn spec_value(&self) -> Result<Value, Fault> {
        binary_value(BinaryOp::BitXor, self.0.spec_value(), self.1.spec_value())
    }

    fn ty(&self) -> (t: TypeTag) {
        BinaryOp::BitXor.result_type(self.0.ty(), self.1.ty())
    }

    fn value(&self) -> (out: Result<Bytes, Fault>)
        ensures
            canonical(out, self.spec_ty()),
    {
        eval_binary(BinaryOp::BitXor, &self.0, &self.1)
    }

    proof fn lemma_typed(&self) {
        lemma_binary_typed(BinaryOp::BitXor, self.0, self.1);
    }
}

/// The expression `left << right`.
#[derive(Clone, Copy, Debug)]
pub struct ConstShl<L, R>(pub L, pub R);

impl<L: ConstValue, R: ConstValue> ConstValue for ConstShl<L, R> {
    open spec fn wf(&self) -> bool {
        binary_wf(BinaryOp::Shl, self.0, self.1)
    }

    open spec fn spec_ty(&self) -> TypeTag {
        BinaryOp::Shl.spec_result_type(self.0.spec_ty(), self.1.spec_ty())
    }

    open spec fn spec_value(&self) -> Result<Value, Fault> {
        binary_value(BinaryOp::Shl, self.0.spec_value(), self.1.spec_value())
    }

    fn ty(&self) -> (t: TypeTag) {
        BinaryOp::Shl.result_type(self.0.ty(), self.1.ty())
    }

    fn value(&self) -> (out: Result<Bytes, Fault>)
        ensures
            canonical(out, self.spec_ty()),
    {
        eval_binary(BinaryOp::Shl, &self.0, &self.1)
    }

    proof fn lemma_typed(&self) {
        lemma_binary_typed(BinaryOp::Shl, self.0, self.1);
    }
}

/// The expression `left >> right`.
#[derive(Clone, Copy, Debug)]
pub struct ConstShr<L, R>(pub L, pub R);

impl<L: ConstValue, R: ConstValue> ConstValue for ConstShr<L, R> {
    open spec fn wf(&self) -> bool {
        binary_wf(BinaryOp::Shr, self.0, self.1)
    }

    open spec fn spec_ty(&self) -> TypeTag {
        BinaryOp::Shr.spec_result_type(self.0.spec_ty(), self.1.spec_ty())
    }

    open spec fn spec_value(&self) -> Result<Value, Fault> {
        binary_value(BinaryOp::Shr, self.0.spec_value(), self.1.spec_value())
    }

    fn ty(&self) -> (t: TypeTag) {
        BinaryOp::Shr.result_type(self.0.ty(), self.1.ty())
    }

    fn value(&self) -> (out: Result<Bytes, Fault>)
        ensures
            canonical(out, self.spec_ty()),
    {
        eval_binary(BinaryOp::Shr, &self.0, &self.1)
    }

    proof fn lemma_typed(&self) {
        lemma_binary_typed(BinaryOp::Shr, self.0, self.1);
    }
}

/// The expression `container[index]`.
#[derive(Clone, Copy, Debug)]
pub struct ConstIndex<L, R>(pub L, pub R);

impl<L: ConstValue, R: ConstValue> ConstValue for ConstIndex<L, R> {
    open spec fn wf(&self) -> bool {
        binary_wf(BinaryOp::Index, self.0, self.1)
    }

    open spec fn spec_ty(&self) -> TypeTag {
        BinaryOp::Index.spec_result_type(self.0.spec_ty(), self.1.spec_ty())
    }

    open spec fn spec_value(&self) -> Result<Value, Fault> {
        binary_value(BinaryOp::Index, self.0.spec_value(), self.1.spec_value())
    }

    fn ty(&self) -> (t: TypeTag) {
        BinaryOp::Index.result_type(self.0.ty(), self.1.ty())
    }

    fn value(&self) -> (out: Result<Bytes, Fault>)
        ensures
            canonical(out, self.spec_ty()),
    {
        eval_binary(BinaryOp::Index, &self.0, &self.1)
    }

    proof fn lemma_typed(&self) {
        lemma_binary_typed(BinaryOp::Index, self.0, self.1);
    }
}

/// A function from values to values, as an object.
///
/// A transform must not carry state: forcing an expression that applies a
/// transform whose type occupies storage is a fault.
pub trait Transform {
    /// Whether the function may be called on `v`.
    spec fn spec_accepts(&self, v: Value) -> bool;

    /// What the function gives on `v`.
    spec fn spec_apply(&self, v: Value) -> Value;

    /// Calls the function on `v`.
    fn apply(&self, v: Value) -> (r: Value)
        requires
            self.spec_accepts(v),
        ensures
            r == self.spec_apply(v),
    ;
}

/// The result of calling `f` on `v`, for an `f` that can give only one.
pub open spec fn call_result<F: Fn(Value) -> Value>(f: F, v: Value) -> Value {
    choose|r: Value| f.ensures((v,), r)
}

/// Whether `f` may be called on `v` and can then give only one result.
pub open spec fn callable_on<F: Fn(Value) -> Value>(f: F, v: Value) -> bool {
    &&& f.requires((v,))
    &&& forall|a: Value, b: Value| f.ensures((v,), a) && f.ensures((v,), b) ==> a == b
}

/// A plain function or closure as a transform.
///
/// It occupies as much storage as the function it wraps, so a closure that
/// captures anything is a transform that carries state.
#[derive(Clone, Copy)]
pub struct FnTransform<F>(pub F);

impl<F: Fn(Value) -> Value> Transform for FnTransform<F> {
    open spec fn spec_accepts(&self, v: Value) -> bool {
        callable_on(self.0, v)
    }

    open spec fn spec_apply(&self, v: Value) -> Value {
        call_result(self.0, v)
    }

    fn apply(&self, v: Value) -> (r: Value) {
        (self.0)(v)
    }
}

/// What a transform yields: a fault where the transform carries state or the
/// inner expression faults, otherwise the function's result, which must be
/// of the declared type.
pub open spec fn map_value<F: Transform>(inner: Result<Value, Fault>, f: F, ret: TypeTag) -> Result<
    Value,
    Fault,
> {
    if vstd::layout::size_of::<F>() != 0 {
        Err(Fault::Misuse)
    } else {
        match inner {
            Ok(v) => {
                let r = f.spec_apply(v);
                if r.spec_ty() == ret {
                    Ok(r)
                } else {
                    Err(Fault::TypeMismatch { expected: ret, found: r.spec_ty() })
                }
            },
            Err(e) => Err(e),
        }
    }
}

/// Whether `f` may be called on what `inner` yields.
pub open spec fn map_wf<V: ConstValue, F: Transform>(inner: V, f: F) -> bool {
    &&& inner.wf()
    &&& inner.spec_value() matches Ok(v) ==> f.spec_accepts(v)
}

/// The expression that applies a transform to the result of an inner
/// expression. Its fields are the inner expression, the transform, and the
/// type that the transform's result is declared to have.
#[derive(Clone, Copy)]
pub struct ConstMap<V, F>(pub V, pub F, pub TypeTag);

impl<V: ConstValue, F: Transform> ConstValue for ConstMap<V, F> {
    open spec fn wf(&self) -> bool {
        map_wf(self.0, self.1)
    }

    open spec fn spec_ty(&self) -> TypeTag {
        self.2
    }

    open spec fn spec_value(&self) -> Result<Value, Fault> {
        map_value(self.0.spec_value(), self.1, self.2)
    }

    fn ty(&self) -> (t: TypeTag) {
        self.2
    }

    fn value(&self) -> (out: Result<Bytes, Fault>)
        ensures
            canonical(out, self.spec_ty()),
    {
        if core::mem::size_of::<F>() != 0 {
            return Err(Fault::Misuse);
        }
        let v = force(&self.0)?;
        let r = self.1.apply(v);
        let found = r.ty();
        if found != self.2 {
            return Err(Fault::TypeMismatch { expected: self.2, found });
        }
        capture(r)
    }

    proof fn lemma_typed(&self) {
    }
}

/// What inspecting with a transform `f` yields: the faults of applying `f`,
/// otherwise nothing.
pub open spec fn inspect_value<F: Transform>(inner: Result<Value, Fault>, f: F) -> Result<
    (),
    Fault,
> {
    if vstd::layout::size_of::<F>() != 0 {
        Err(Fault::Misuse)
    } else {
        match inner {
            Ok(_) => Ok(()),
            Err(e) => Err(e),
        }
    }
}

/// A handle on an expression: the value to compose, store and force.
#[derive(Clone, Copy)]
pub struct ConstValueInstance<V: ConstValue>(pub V);

/// The leaf that holds `v`.
pub fn const_value(v: Value) -> (r: ConstValueInstance<ConstLiteral>)
    ensures
        r.0.wf(),
        r.0.spec_ty() == v.spec_ty(),
        r.0.spec_value() == Ok::<Value, Fault>(v),
{
    ConstValueInstance::new(ConstLiteral::new(v))
}

impl<V: ConstValue> ConstValueInstance<V> {
    /// The handle on `node`.
    pub fn new(node: V) -> (r: Self)
        ensures
            r.0 == node,
    {
        ConstValueInstance(node)
    }

    /// The expression that applies `f` to the result of this one. The
    /// result of `f` is declared to be of type `ret`.
    pub fn map<F: Transform>(self, f: F, ret: TypeTag) -> (r: ConstValueInstance<ConstMap<V, F>>)
        ensures
            r.0 == ConstMap(self.0, f, ret),
            r.0.spec_ty() == ret,
            r.0.spec_value() == map_value(self.0.spec_value(), f, ret),
            r.0.wf() <==> map_wf(self.0, f),
    {
        ConstValueInstance(ConstMap(self.0, f, ret))
    }

    /// Forces the expression and hands the result to `f`, for a check on the
    /// side; what `f` gives back is dropped and the expression itself is left
    /// as it is.
    pub fn inspect<F: Transform>(&self, f: F) -> (r: Result<(), Fault>)
        requires
            map_wf(self.0, f),
        ensures
            r == inspect_value(self.0.spec_value(), f),
    {
        if core::mem::size_of::<F>() != 0 {
            return Err(Fault::Misuse);
        }
        let v = force(&self.0)?;
        let _ = f.apply(v);
        Ok(())
    }

    /// Forces the expression to a concrete value.
    pub fn into_inner(self) -> (r: Result<Value, Fault>)
        requires
            self.0.wf(),
        ensures
            r == self.0.spec_value(),
    {
        force(&self.0)
    }

    /// Forces the expression and reads the result through a borrowed look at
    /// the captured bytes.
    pub fn deref(&self) -> (r: Result<Value, Fault>)
        requires
            self.0.wf(),
        ensures
            r == self.0.spec_value(),
    {
        let bytes = self.0.value()?;
        let seen = bytes.as_ref(self.0.ty());
        Ok(seen.get())
    }

    /// The expression `self[idx]`.
    pub fn index<I: ConstValue>(self, idx: ConstValueInstance<I>) -> (r: ConstValueInstance<
        ConstIndex<V, I>,
    >)
        requires
            BinaryOp::Index.spec_accepts(self.0.spec_ty(), idx.0.spec_ty()),
        ensures
            r.0 == ConstIndex(self.0, idx.0),
    {
        ConstValueInstance(ConstIndex(self.0, idx.0))
    }
}

impl<V: ConstValue> core::ops::Neg for ConstValueInstance<V> {
    type Output = ConstValueInstance<ConstNeg<V>>;

    fn neg(self) -> (out: Self::Output) {
        ConstValueInstance(ConstNeg(self.0))
    }
}

impl<V: ConstValue> NegSpecImpl for ConstValueInstance<V> {
    open spec fn obeys_neg_spec() -> bool {
        true
    }

    open spec fn neg_req(self) -> bool {
        UnaryOp::Neg.spec_accepts(self.0.spec_ty())
    }

    open spec fn neg_spec(self) -> Self::Output {
        ConstValueInstance(ConstNeg(self.0))
    }
}

impl<V: ConstValue> core::ops::Not for ConstValueInstance<V> {
    type Output = ConstValueInstance<ConstNot<V>>;

    fn not(self) -> (out: Self::Output) {
        ConstValueInstance(ConstNot(self.0))
    }
}

impl<V: ConstValue> NotSpecImpl for ConstValueInstance<V> {
    open spec fn obeys_not_spec() -> bool {
        true
    }

    open spec fn not_req(self) -> bool {
        UnaryOp::Not.spec_accepts(self.0.spec_ty())
    }

    open spec fn not_spec(self) -> Self::Output {
        ConstValueInstance(ConstNot(self.0))
    }
}

impl<L: ConstValue, R: ConstValue> core::ops::Add<ConstValueInstance<R>> for ConstValueInstance<L> {
    type Output = ConstValueInstance<ConstAdd<L, R>>;

    fn add(self, rhs: ConstValueInstance<R>) -> (out: Self::Output) {
        ConstValueInstance(ConstAdd(self.0, rhs.0))
    }
}

impl<L: ConstValue, R: ConstValue> AddSpecImpl<ConstValueInstance<R>> for ConstValueInstance<L> {
    open spec fn obeys_add_spec() -> bool {
        true
    }

    open spec fn add_req(self, rhs: ConstValueInstance<R>) -> bool {
        BinaryOp::Add.spec_accepts(self.0.spec_ty(), rhs.0.spec_ty())
    }

    open spec fn add_spec(self, rhs: ConstValueInstance<R>) -> Self::Output {
        ConstValueInstance(ConstAdd(self.0, rhs.0))
    }
}

impl<L: ConstValue, R: ConstValue> core::ops::Sub<ConstValueInstance<R>> for ConstValueInstance<L> {
    type Output = ConstValueInstance<ConstSub<L, R>>;

    fn sub(self, rhs: ConstValueInstance<R>) -> (out: Self::Output) {
        ConstValueInstance(ConstSub(self.0, rhs.0))
    }
}

impl<L: ConstValue, R: ConstValue> SubSpecImpl<ConstValueInstance<R>> for ConstValueInstance<L> {
    open spec fn obeys_sub_spec() -> bool {
        true
    }

    open spec fn sub_req(self, rhs: ConstValueInstance<R>) -> bool {
        BinaryOp::Sub.spec_accepts(self.0.spec_ty(), rhs.0.spec_ty())
    }

    open spec fn sub_spec(self, rhs: ConstValueInstance<R>) -> Self::Output {
        ConstValueInstance(ConstSub(self.0, rhs.0))
    }
}

impl<L: ConstValue, R: ConstValue> core::ops::Mul<ConstValueInstance<R>> for ConstValueInstance<L> {
    type Output = ConstValueInstance<ConstMul<L, R>>;

    fn mul(self, rhs: ConstValueInstance<R>) -> (out: Self::Output) {
        ConstValueInstance(ConstMul(self.0, rhs.0))
    }
}

impl<L: ConstValue, R: ConstValue> MulSpecImpl<ConstValueInstance<R>> for ConstValueInstance<L> {
    open spec fn obeys_mul_spec() -> bool {
        true
    }

    open spec fn mul_req(self, rhs: ConstValueInstance<R>) -> bool {
        BinaryOp::Mul.spec_accepts(self.0.spec_ty(), rhs.0.spec_ty())
    }

    open spec fn mul_spec(self, rhs: ConstValueInstance<R>) -> Self::Output {
        ConstValueInstance(ConstMul(self.0, rhs.0))
    }
}

impl<L: ConstValue, R: ConstValue> core::ops::Div<ConstValueInstance<R>> for ConstValueInstance<L> {
    type Output = ConstValueInstance<ConstDiv<L, R>>;

    fn div(self, rhs: ConstValueInstance<R>) -> (out: Self::Output) {
        ConstValueInstance(ConstDiv(self.0, rhs.0))
    }
}

impl<L: ConstValue, R: ConstValue> DivSpecImpl<ConstValueInstance<R>> for ConstValueInstance<L> {
    open spec fn obeys_div_spec() -> bool {
        true
    }

    open spec fn div_req(self, rhs: ConstValueInstance<R>) -> bool {
        BinaryOp::Div.spec_accepts(self.0.spec_ty(), rhs.0.spec_ty())
    }

    open spec fn div_spec(self, rhs: ConstValueInstance<R>) -> Self::Output {
        ConstValueInstance(ConstDiv(self.0, rhs.0))
    }
}

impl<L: ConstValue, R: ConstValue> core::ops::Rem<ConstValueInstance<R>> for ConstValueInstance<L> {
    type Output = ConstValueInstance<ConstRem<L, R>>;

    fn rem(self, rhs: ConstValueInstance<R>) -> (out: Self::Output) {
        ConstValueInstance(ConstRem(self.0, rhs.0))
    }
}

impl<L: ConstValue, R: ConstValue> RemSpecImpl<ConstValueInstance<R>> for ConstValueInstance<L> {
    open spec fn obeys_rem_spec() -> bool {
        true
    }

    open spec fn rem_req(self, rhs: ConstValueInstance<R>) -> bool {
        BinaryOp::Rem.spec_accepts(self.0.spec_ty(), rhs.0.spec_ty())
    }

    open spec fn rem_spec(self, rhs: ConstValueInstance<R>) -> Self::Output {
        ConstValueInstance(ConstRem(self.0, rhs.0))
    }
}

impl<L: ConstValue, R: ConstValue> core::ops::BitAnd<ConstValueInstance<R>> for ConstValueInstance<L> {
    type Output = ConstValueInstance<ConstBitAnd<L, R>>;

    fn bitand(self, rhs: ConstValueInstance<R>) -> (out: Self::Output) {
        ConstValueInstance(ConstBitAnd(self.0, rhs.0))
    }
}

impl<L: ConstValue, R: ConstValue> BitAndSpecImpl<ConstValueInstance<R>> for ConstValueInstance<L> {
    open spec fn obeys_bitand_spec() -> bool {
        true
    }

    open spec fn bitand_req(self, rhs: ConstValueInstance<R>) -> bool {
        BinaryOp::BitAnd.spec_accepts(self.0.spec_ty(), rhs.0.spec_ty())
    }

    open spec fn bitand_spec(self, rhs: ConstValueInstance<R>) -> Self::Output {
        ConstValueInstance(ConstBitAnd(self.0, rhs.0))
    }
}

impl<L: ConstValue, R: ConstValue> core::ops::BitOr<ConstValueInstance<R>> for ConstValueInstance<L> {
    type Output = ConstValueInstance<ConstBitOr<L, R>>;

    fn bitor(self, rhs: ConstValueInstance<R>) -> (out: Self::Output) {
        ConstValueInstance(ConstBitOr(self.0, rhs.0))
    }
}

impl<L: ConstValue, R: ConstValue> BitOrSpecImpl<ConstValueInstance<R>> for ConstValueInstance<L> {
    open spec fn obeys_bitor_spec() -> bool {
        true
    }

    open spec fn bitor_req(self, rhs: ConstValueInstance<R>) -> bool {
        BinaryOp::BitOr.spec_accepts(self.0.spec_ty(), rhs.0.spec_ty())
    }

    open spec fn bitor_spec(self, rhs: ConstValueInstance<R>) -> Self::Output {
        ConstValueInstance(ConstBitOr(self.0, rhs.0))
    }
}

impl<L: ConstValue, R: ConstValue> core::ops::BitXor<ConstValueInstance<R>> for ConstValueInstance<L> {
    type Output = ConstValueInstance<ConstBitXor<L, R>>;

    fn bitxor(self, rhs: ConstValueInstance<R>) -> (out: Self::Output) {
        ConstValueInstance(ConstBitXor(self.0, rhs.0))
    }
}

impl<L: ConstValue, R: ConstValue> BitXorSpecImpl<ConstValueInstance<R>> for ConstValueInstance<L> {
    open spec fn obeys_bitxor_spec() -> bool {
        true
    }

    open spec fn bitxor_req(self, rhs: ConstValueInstance<R>) -> bool {
        BinaryOp::BitXor.spec_accepts(self.0.spec_ty(), rhs.0.spec_ty())
    }

    open spec fn bitxor_spec(self, rhs: ConstValueInstance<R>) -> Self::Output {
        ConstValueInstance(ConstBitXor(self.0, rhs.0))
    }
}

impl<L: ConstValue, R: ConstValue> core::ops::Shl<ConstValueInstance<R>> for ConstValueInstance<L> {
    type Output = ConstValueInstance<ConstShl<L, R>>;

    fn shl(self, rhs: ConstValueInstance<R>) -> (out: Self::Output) {
        ConstValueInstance(ConstShl(self.0, rhs.0))
    }
}

impl<L: ConstValue, R: ConstValue> ShlSpecImpl<ConstValueInstance<R>> for ConstValueInstance<L> {
    open spec fn obeys_shl_spec() -> bool {
        true
    }

    open spec fn shl_req(self, rhs: ConstValueInstance<R>) -> bool {
        BinaryOp::Shl.spec_accepts(self.0.spec_ty(), rhs.0.spec_ty())
    }

    open spec fn shl_spec(self, rhs: ConstValueInstance<R>) -> Self::Output {
        ConstValueInstance(ConstShl(self.0, rhs.0))
    }
}

impl<L: ConstValue, R: ConstValue> core::ops::Shr<ConstValueInstance<R>> for ConstValueInstance<L> {
    type Output = ConstValueInstance<ConstShr<L, R>>;

    fn shr(self, rhs: ConstValueInstance<R>) -> (out: Self::Output) {
        ConstValueInstance(ConstShr(self.0, rhs.0))
    }
}

impl<L: ConstValue, R: ConstValue> ShrSpecImpl<ConstValueInstance<R>> for ConstValueInstance<L> {
    open spec fn obeys_shr_spec() -> bool {
        true
    }

    open spec fn shr_req(self, rhs: ConstValueInstance<R>) -> bool {
        BinaryOp::Shr.spec_accepts(self.0.spec_ty(), rhs.0.spec_ty())
    }

    open spec fn shr_spec(self, rhs: ConstValueInstance<R>) -> Self::Output {
        ConstValueInstance(ConstShr(self.0, rhs.0))
    }
}

} // verus!
