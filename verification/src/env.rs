//! The typed environment: an ordered chain of bindings with shadowing.
//!
//! A chain only ever grows at its head. Binding a key puts a new entry in
//! front of the chain; removing a key puts a tombstone in front of it. A
//! lookup walks from the head and stops at the first entry for the key it
//! looks for, so the nearest entry hides every older one for the same key.
//!
//! Keys are types. A variable names a key and the type of the values it is
//! meant to hold; a lookup succeeds only if the nearest entry for the key
//! binds an expression of exactly that type.

use crate::bytes::{image, lemma_image_len, lemma_round_trip, Bytes};
use crate::fault::Fault;
use crate::types::{TypeTag, Value};
use crate::value::{outcome_is, ConstValue, ConstValueInstance};
use vstd::prelude::*;

verus! {

/// What the head of a chain is.
#[derive(Clone, Copy, Debug, PartialEq, Eq, Structural)]
pub enum VariableListKind {
    End,
    Has,
    Removed,
}

/// An entry of a chain as a lookup sees it.
pub enum Binding {
    /// `key` is bound to an expression of type `ty` that yields `value` when
    /// it is forced.
    Has { key: TypeTag, ty: TypeTag, value: Result<Value, Fault> },
    /// `key` is removed.
    Removed { key: TypeTag },
}

impl Binding {
    /// The key that the entry is about.
    pub open spec fn key(self) -> TypeTag {
        match self {
            Binding::Has { key, .. } => key,
            Binding::Removed { key } => key,
        }
    }

    /// Whether a bound outcome has the type that its entry names.
    pub open spec fn typed(self) -> bool {
        match self {
            Binding::Has { ty, value, .. } => value matches Ok(v) ==> v.spec_ty() == ty,
            Binding::Removed { .. } => true,
        }
    }
}

/// What the head of `chain` is.
pub open spec fn kind_of(chain: Seq<Binding>) -> VariableListKind {
    if chain.len() == 0 {
        VariableListKind::End
    } else {
        match chain[0] {
            Binding::Has { .. } => VariableListKind::Has,
            Binding::Removed { .. } => VariableListKind::Removed,
        }
    }
}

/// The key of the head of `chain`; at the end, where there is no head, `()`.
pub open spec fn key_of(chain: Seq<Binding>) -> TypeTag {
    if chain.len() == 0 {
        TypeTag::Unit
    } else {
        chain[0].key()
    }
}

/// What lies behind the head of `chain`; behind the end lies the end.
pub open spec fn behind(chain: Seq<Binding>) -> Seq<Binding> {
    if chain.len() == 0 {
        chain
    } else {
        chain.drop_first()
    }
}

/// The nearest entry for `key` in `chain`, if there is any.
pub open spec fn nearest(chain: Seq<Binding>, key: TypeTag) -> Option<Binding>
    decreases chain.len(),
{
    if chain.len() == 0 {
        None
    } else if chain[0].key() == key {
        Some(chain[0])
    } else {
        nearest(chain.drop_first(), key)
    }
}

/// The outcome of looking `key` up at type `ty` where `entry` is the nearest
/// entry for `key`.
pub open spec fn resolve(entry: Option<Binding>, key: TypeTag, ty: TypeTag) -> Result<Value, Fault> {
    match entry {
        None => Err(Fault::KeyNotFound { key }),
        Some(Binding::Removed { .. }) => Err(Fault::KeyNotFound { key }),
        Some(Binding::Has { ty: found, value, .. }) => if found == ty {
            value
        } else {
            Err(Fault::TypeMismatch { expected: ty, found })
        },
    }
}

/// Whether `entry` binds an expression of type `ty`.
pub open spec fn binds(entry: Option<Binding>, ty: TypeTag) -> bool {
    entry matches Some(Binding::Has { ty: found, .. }) && found == ty
}

/// The outcome of looking `key` up at type `ty` in `chain`.
pub open spec fn find_spec(chain: Seq<Binding>, key: TypeTag, ty: TypeTag) -> Result<Value, Fault> {
    resolve(nearest(chain, key), key, ty)
}

/// Whether a lookup of `key` at type `ty` in `chain` finds a binding of that
/// type.
pub open spec fn has_spec(chain: Seq<Binding>, key: TypeTag, ty: TypeTag) -> bool {
    binds(nearest(chain, key), ty)
}

/// Whether every bound outcome in `chain` has the type that its entry names.
pub open spec fn chain_typed(chain: Seq<Binding>) -> bool {
    forall|i: int| 0 <= i < chain.len() ==> (#[trigger] chain[i]).typed()
}

/// A chain of bindings.
pub trait VariableList: Sized {
    /// The type of the expression that the head binds; `()` where the head
    /// binds nothing.
    type Value: ConstValue;

    /// The entries of the chain, nearest first.
    spec fn chain(&self) -> Seq<Binding>;

    /// Whether every bound expression is well formed.
    spec fn wf(&self) -> bool;

    /// What the head is.
    fn kind(&self) -> (k: VariableListKind)
        ensures
            k == kind_of(self.chain()),
    ;

    /// The key of the head; at the end, `()`.
    fn key(&self) -> (k: TypeTag)
        ensures
            k == key_of(self.chain()),
    ;

    /// The expression that the head binds.
    fn value(&self) -> (v: &Self::Value)
        ensures
            self.chain().len() > 0 ==> (self.chain()[0] matches Binding::Has { ty, value, .. } ==> {
                &&& v.spec_ty() == ty
                &&& v.spec_value() == value
                &&& self.wf() ==> v.wf()
            }),
    ;

    /// Looks `key` up behind the head.
    fn find_next(&self, key: TypeTag, ty: TypeTag) -> (out: Result<Bytes, Fault>)
        requires
            self.wf(),
        ensures
            outcome_is(out, ty, find_spec(behind(self.chain()), key, ty)),
    ;

    /// Tells whether `key` is bound at type `ty` behind the head.
    fn has_next(&self, key: TypeTag, ty: TypeTag) -> (r: bool)
        ensures
            r == has_spec(behind(self.chain()), key, ty),
    ;

    /// In a well-formed chain every bound outcome has the type of its entry.
    proof fn lemma_chain_typed(&self)
        requires
            self.wf(),
        ensures
            chain_typed(self.chain()),
    ;
}

/// The empty chain.
#[derive(Clone, Copy, Debug)]
pub struct VariableListEnd;

/// A chain whose head binds `key` to `value`.
#[derive(Clone, Copy, Debug)]
pub struct VariableListHas<V, Next> {
    pub key: TypeTag,
    pub value: V,
    pub next: Next,
}

/// A chain whose head is a tombstone for `key`.
#[derive(Clone, Copy, Debug)]
pub struct VariableListRemoved<Next> {
    pub key: TypeTag,
    pub next: Next,
}

/// Whether `a` and `b` are the same type, decided by their fingerprints.
pub fn type_eq(a: TypeTag, b: TypeTag) -> (r: bool)
    ensures
        r == (a == b),
{
    proof {
        TypeTag::lemma_id_injective(a, b);
    }
    a.id() == b.id()
}

/// Looks `key` up at type `ty`: walks the chain from its head, stops at the
/// first entry for `key`, and forces what that entry binds.
pub fn find_variable<List: VariableList>(list: &List, key: TypeTag, ty: TypeTag) -> (out: Result<
    Bytes,
    Fault,
>)
    requires
        list.wf(),
    ensures
        outcome_is(out, ty, find_spec(list.chain(), key, ty)),
{
    match list.kind() {
        VariableListKind::End => Err(Fault::KeyNotFound { key }),
        VariableListKind::Removed if type_eq(key, list.key()) => Err(Fault::KeyNotFound { key }),
        VariableListKind::Has if type_eq(key, list.key()) => {
            let bound = list.value();
            let found = bound.ty();
            if type_eq(ty, found) {
                bound.value()
            } else {
                Err(Fault::TypeMismatch { expected: ty, found })
            }
        },
        _ => list.find_next(key, ty),
    }
}

/// Tells whether a lookup of `key` at type `ty` would find a binding of that
/// type. Nothing is forced, so this never faults.
pub fn has_variable<List: VariableList>(list: &List, key: TypeTag, ty: TypeTag) -> (r: bool)
    ensures
        r == has_spec(list.chain(), key, ty),
{
    match list.kind() {
        VariableListKind::End => false,
        VariableListKind::Removed if type_eq(key, list.key()) => false,
        VariableListKind::Has if type_eq(key, list.key()) => type_eq(ty, list.value().ty()),
        _ => list.has_next(key, ty),
    }
}

impl VariableList for VariableListEnd {
    type Value = ();

    open spec fn chain(&self) -> Seq<Binding> {
        Seq::empty()
    }

    open spec fn wf(&self) -> bool {
        true
    }

    fn kind(&self) -> (k: VariableListKind) {
        VariableListKind::End
    }

    fn key(&self) -> (k: TypeTag) {
        TypeTag::Unit
    }

    fn value(&self) -> (v: &Self::Value) {
        &()
    }

    fn find_next(&self, key: TypeTag, ty: TypeTag) -> (out: Result<Bytes, Fault>) {
        Err(Fault::KeyNotFound { key })
    }

    fn has_next(&self, key: TypeTag, ty: TypeTag) -> (r: bool) {
        false
    }

    proof fn lemma_chain_typed(&self) {
    }
}

impl<V: ConstValue, Next: VariableList> VariableList for VariableListHas<V, Next> {
    type Value = V;

    open spec fn chain(&self) -> Seq<Binding> {
        seq![
            Binding::Has {
                key: self.key,
                ty: self.value.spec_ty(),
                value: self.value.spec_value(),
            },
        ] + self.next.chain()
    }

    open spec fn wf(&self) -> bool {
        self.value.wf() && self.next.wf()
    }

    fn kind(&self) -> (k: VariableListKind) {
        VariableListKind::Has
    }

    fn key(&self) -> (k: TypeTag) {
        self.key
    }

    fn value(&self) -> (v: &Self::Value) {
        &self.value
    }

    fn find_next(&self, key: TypeTag, ty: TypeTag) -> (out: Result<Bytes, Fault>) {
        assert(behind(self.chain()) =~= self.next.chain());
        find_variable(&self.next, key, ty)
    }

    fn has_next(&self, key: TypeTag, ty: TypeTag) -> (r: bool) {
        assert(behind(self.chain()) =~= self.next.chain());
        has_variable(&self.next, key, ty)
    }

    proof fn lemma_chain_typed(&self) {
        self.value.lemma_typed();
        self.next.lemma_chain_typed();
        assert forall|i: int| 0 <= i < self.chain().len() implies (#[trigger] self.chain()[
            i
        ]).typed() by {
            if i > 0 {
                assert(self.chain()[i] == self.next.chain()[i - 1]);
            }
        }
    }
}

impl<Next: VariableList> VariableList for VariableListRemoved<Next> {
    type Value = ();

    open spec fn chain(&self) -> Seq<Binding> {
        seq![Binding::Removed { key: self.key }] + self.next.chain()
    }

    open spec fn wf(&self) -> bool {
        self.next.wf()
    }

    fn kind(&self) -> (k: VariableListKind) {
        VariableListKind::Removed
    }

    fn key(&self) -> (k: TypeTag) {
        self.key
    }

    fn value(&self) -> (v: &Self::Value) {
        &()
    }

    fn find_next(&self, key: TypeTag, ty: TypeTag) -> (out: Result<Bytes, Fault>) {
        assert(behind(self.chain()) =~= self.next.chain());
        find_variable(&self.next, key, ty)
    }

    fn has_next(&self, key: TypeTag, ty: TypeTag) -> (r: bool) {
        assert(behind(self.chain()) =~= self.next.chain());
        has_variable(&self.next, key, ty)
    }

    proof fn lemma_chain_typed(&self) {
        self.next.lemma_chain_typed();
        assert forall|i: int| 0 <= i < self.chain().len() implies (#[trigger] self.chain()[
            i
        ]).typed() by {
            if i > 0 {
                assert(self.chain()[i] == self.next.chain()[i - 1]);
            }
        }
    }
}

/// The nearest entry for a key is one of the entries of the chain.
pub proof fn lemma_nearest_is_entry(chain: Seq<Binding>, key: TypeTag)
    ensures
        nearest(chain, key) matches Some(entry) ==> entry.key() == key && chain.contains(entry),
    decreases chain.len(),
{
    if chain.len() > 0 && chain[0].key() != key {
        let rest = chain.drop_first();
        lemma_nearest_is_entry(rest, key);
        if let Some(entry) = nearest(rest, key) {
            let i = choose|i: int| 0 <= i < rest.len() && rest[i] == entry;
            assert(chain[i + 1] == entry);
        }
    }
}

/// A lookup never yields a value of another type than was asked for.
pub proof fn lemma_find_typed(chain: Seq<Binding>, key: TypeTag, ty: TypeTag)
    requires
        chain_typed(chain),
    ensures
        find_spec(chain, key, ty) matches Ok(v) ==> v.spec_ty() == ty,
{
    lemma_nearest_is_entry(chain, key);
}

/// The deferred lookup of `key` at type `ty` in `list`.
#[derive(Clone, Copy, Debug)]
pub struct FindConstVariable<'a, List> {
    pub list: &'a List,
    pub key: TypeTag,
    pub ty: TypeTag,
}

impl<'a, List: VariableList> ConstValue for FindConstVariable<'a, List> {
    open spec fn wf(&self) -> bool {
        self.list.wf()
    }

    open spec fn spec_ty(&self) -> TypeTag {
        self.ty
    }

    open spec fn spec_value(&self) -> Result<Value, Fault> {
        find_spec(self.list.chain(), self.key, self.ty)
    }

    fn ty(&self) -> (t: TypeTag) {
        self.ty
    }

    fn value(&self) -> (out: Result<Bytes, Fault>) {
        find_variable(self.list, self.key, self.ty)
    }

    proof fn lemma_typed(&self) {
        self.list.lemma_chain_typed();
        lemma_find_typed(self.list.chain(), self.key, self.ty);
    }
}

/// The deferred test whether `key` is bound at type `ty` in `list`.
#[derive(Clone, Copy, Debug)]
pub struct HasConstVariable<'a, List> {
    pub list: &'a List,
    pub key: TypeTag,
    pub ty: TypeTag,
}

impl<'a, List: VariableList> ConstValue for HasConstVariable<'a, List> {
    open spec fn wf(&self) -> bool {
        true
    }

    open spec fn spec_ty(&self) -> TypeTag {
        TypeTag::Bool
    }

    open spec fn spec_value(&self) -> Result<Value, Fault> {
        Ok(Value::Bool(has_spec(self.list.chain(), self.key, self.ty)))
    }

    fn ty(&self) -> (t: TypeTag) {
        TypeTag::Bool
    }

    fn value(&self) -> (out: Result<Bytes, Fault>)
        ensures
            out matches Ok(bytes) && bytes@ == image(
                Value::Bool(has_spec(self.list.chain(), self.key, self.ty)),
            ),
    {
        let found = Value::Bool(has_variable(self.list, self.key, self.ty));
        proof {
            lemma_image_len(found);
            lemma_round_trip(found);
        }
        Ok(Bytes::new(&found))
    }

    proof fn lemma_typed(&self) {
    }
}

/// A variable: the key that identifies it and the type of the values it is
/// meant to hold.
pub trait ConstVariable {
    /// The key that identifies the variable.
    spec fn spec_key(&self) -> TypeTag;

    /// The type of the values that the variable is meant to hold.
    spec fn spec_value_type(&self) -> TypeTag;

    /// The key that identifies the variable.
    fn key(&self) -> (k: TypeTag)
        ensures
            k == self.spec_key(),
    ;

    /// The type of the values that the variable is meant to hold.
    fn value_type(&self) -> (t: TypeTag)
        ensures
            t == self.spec_value_type(),
    ;
}

/// The variable whose key and type are both `()`.
impl ConstVariable for () {
    open spec fn spec_key(&self) -> TypeTag {
        TypeTag::Unit
    }

    open spec fn spec_value_type(&self) -> TypeTag {
        TypeTag::Unit
    }

    fn key(&self) -> (k: TypeTag) {
        TypeTag::Unit
    }

    fn value_type(&self) -> (t: TypeTag) {
        TypeTag::Unit
    }
}

/// A pair of a key and a type is the variable of that key and type.
impl ConstVariable for (TypeTag, TypeTag) {
    open spec fn spec_key(&self) -> TypeTag {
        self.0
    }

    open spec fn spec_value_type(&self) -> TypeTag {
        self.1
    }

    fn key(&self) -> (k: TypeTag) {
        self.0
    }

    fn value_type(&self) -> (t: TypeTag) {
        self.1
    }
}

/// An environment: a chain of bindings and the operations on it.
///
/// Binding and removing take the environment by value and give a new one; an
/// environment that is still needed afterwards is cloned first.
#[derive(Clone, Copy, Debug)]
pub struct Environment<List: VariableList>(pub List);

/// The environment over `list` with `key` bound to `value` in front.
fn set_concrete<Value: ConstValue, List: VariableList>(
    key: TypeTag,
    value: ConstValueInstance<Value>,
    list: List,
) -> (r: Environment<VariableListHas<Value, List>>)
    ensures
        r.0 == (VariableListHas { key, value: value.0, next: list }),
{
    Environment(VariableListHas { key, value: value.0, next: list })
}

impl Environment<VariableListEnd> {
    /// The empty environment.
    pub open spec fn spec_new() -> Self {
        Environment(VariableListEnd)
    }

    /// The empty environment.
    pub fn new() -> (r: Self)
        ensures
            r == Self::spec_new(),
    {
        Environment(VariableListEnd)
    }
}

impl<List: VariableList> Environment<List> {
    /// The outcome of looking `key` up at type `ty`.
    pub open spec fn spec_get(self, key: TypeTag, ty: TypeTag) -> Result<Value, Fault> {
        find_spec(self.0.chain(), key, ty)
    }

    /// Whether `key` is bound at type `ty`.
    pub open spec fn spec_has(self, key: TypeTag, ty: TypeTag) -> bool {
        has_spec(self.0.chain(), key, ty)
    }

    /// This environment with `key` bound to `value` in front.
    pub open spec fn spec_set<Value: ConstValue>(self, key: TypeTag, value: Value) -> Environment<
        VariableListHas<Value, List>,
    > {
        Environment(VariableListHas { key, value, next: self.0 })
    }

    /// This environment with a tombstone for `key` in front.
    pub open spec fn spec_unset(self, key: TypeTag) -> Environment<VariableListRemoved<List>> {
        Environment(VariableListRemoved { key, next: self.0 })
    }

    /// The deferred lookup of `var`. Forcing it yields what the nearest
    /// entry for the key of `var` binds, provided that entry is a binding of
    /// the type of `var`.
    pub fn get<'a, Var: ConstVariable>(&'a self, var: Var) -> (r: ConstValueInstance<
        FindConstVariable<'a, List>,
    >)
        ensures
            r.0 == (FindConstVariable {
                list: &self.0,
                key: var.spec_key(),
                ty: var.spec_value_type(),
            }),
            r.0.spec_value() == self.spec_get(var.spec_key(), var.spec_value_type()),
            r.0.wf() == self.0.wf(),
    {
        ConstValueInstance::new(
            FindConstVariable { list: &self.0, key: var.key(), ty: var.value_type() },
        )
    }

    /// The deferred test whether `var` is bound at its type.
    pub fn has<'a, Var: ConstVariable>(&'a self, var: Var) -> (r: ConstValueInstance<
        HasConstVariable<'a, List>,
    >)
        ensures
            r.0 == (HasConstVariable {
                list: &self.0,
                key: var.spec_key(),
                ty: var.spec_value_type(),
            }),
            r.0.spec_value() == Ok::<Value, Fault>(
                Value::Bool(self.spec_has(var.spec_key(), var.spec_value_type())),
            ),
            r.0.wf(),
    {
        ConstValueInstance::new(
            HasConstVariable { list: &self.0, key: var.key(), ty: var.value_type() },
        )
    }

    /// The environment that binds the key of `var` to `value` in front of
    /// this one. The type of the binding is the type of `value`, whatever
    /// type `var` names.
    pub fn set<Var: ConstVariable, Value: ConstValue>(
        self,
        var: Var,
        value: ConstValueInstance<Value>,
    ) -> (r: Environment<VariableListHas<Value, List>>)
        ensures
            r == self.spec_set(var.spec_key(), value.0),
    {
        set_concrete(var.key(), value, self.0)
    }

    /// The environment that hides every binding of the key of `var` that
    /// this one holds.
    pub fn unset<Var: ConstVariable>(self, var: Var) -> (r: Environment<VariableListRemoved<List>>)
        ensures
            r == self.spec_unset(var.spec_key()),
    {
        Environment(VariableListRemoved { key: var.key(), next: self.0 })
    }

    /// The environment over the chain `next`, in place of this one.
    pub fn auto<Next: VariableList>(self, next: Next) -> (r: Environment<Next>)
        ensures
            r.0 == next,
    {
        Environment(next)
    }
}

/// Nearest entry wins: where the entry at position `i` is the first one for
/// `key`, it is the nearest, so a lookup is decided by that entry alone,
/// whatever lies behind it.
pub proof fn lemma_nearest_wins(chain: Seq<Binding>, key: TypeTag, i: int)
    requires
        0 <= i < chain.len(),
        chain[i].key() == key,
        forall|j: int| 0 <= j < i ==> chain[j].key() != key,
    ensures
        nearest(chain, key) == Some(chain[i]),
    decreases i,
{
    if i > 0 {
        let rest = chain.drop_first();
        assert(rest[i - 1] == chain[i]);
        assert forall|j: int| 0 <= j < i - 1 implies rest[j].key() != key by {
            assert(rest[j] == chain[j + 1]);
        }
        lemma_nearest_wins(rest, key, i - 1);
    }
}

/// A key that no entry mentions has no nearest entry: it is not found.
pub proof fn lemma_absent_key(chain: Seq<Binding>, key: TypeTag)
    requires
        forall|j: int| 0 <= j < chain.len() ==> chain[j].key() != key,
    ensures
        nearest(chain, key) is None,
    decreases chain.len(),
{
    if chain.len() > 0 {
        let rest = chain.drop_first();
        assert forall|j: int| 0 <= j < rest.len() implies rest[j].key() != key by {
            assert(rest[j] == chain[j + 1]);
        }
        lemma_absent_key(rest, key);
    }
}

/// `has` tells whether `get` reaches a bound expression: where it says yes,
/// the lookup yields what the nearest binding yields; where it says no, the
/// lookup fails with `KeyNotFound` or `TypeMismatch`.
pub proof fn lemma_has_decides_get(chain: Seq<Binding>, key: TypeTag, ty: TypeTag)
    ensures
        has_spec(chain, key, ty) ==> (nearest(chain, key) matches Some(Binding::Has { value, .. })
            && find_spec(chain, key, ty) == value),
        !has_spec(chain, key, ty) ==> (match find_spec(chain, key, ty) {
            Err(Fault::KeyNotFound { key: k }) => k == key,
            Err(Fault::TypeMismatch { expected, found }) => expected == ty && found != ty,
            _ => false,
        }),
{
}

/// Nothing is bound in the empty environment: every lookup fails with
/// `KeyNotFound`, and no key is reported as bound.
pub proof fn lemma_empty(key: TypeTag, ty: TypeTag)
    ensures
        Environment::spec_new().spec_get(key, ty) == Err::<Value, Fault>(
            Fault::KeyNotFound { key },
        ),
        !Environment::spec_new().spec_has(key, ty),
{
}

/// Set, then get: looking a key up right after binding it, at the type of
/// the bound expression, yields what that expression yields, and the key is
/// reported as bound.
pub proof fn lemma_set_get<List: VariableList, V: ConstValue>(
    env: Environment<List>,
    key: TypeTag,
    value: V,
)
    ensures
        env.spec_set(key, value).spec_get(key, value.spec_ty()) == value.spec_value(),
        env.spec_set(key, value).spec_has(key, value.spec_ty()),
{
}

/// Shadowing: of two bindings of one key, a lookup sees the later one and
/// never the earlier one. What it yields does not depend on the earlier
/// binding at all.
pub proof fn lemma_shadowing<List: VariableList, V1: ConstValue, V2: ConstValue>(
    env: Environment<List>,
    key: TypeTag,
    first: V1,
    second: V2,
    ty: TypeTag,
)
    ensures
        env.spec_set(key, first).spec_set(key, second).spec_get(key, second.spec_ty())
            == second.spec_value(),
        env.spec_set(key, first).spec_set(key, second).spec_get(key, ty) == env.spec_set(
            key,
            second,
        ).spec_get(key, ty),
        env.spec_set(key, first).spec_set(key, second).spec_has(key, ty) == (ty
            == second.spec_ty()),
{
}

/// Tombstone precedence: once a key is removed, looking it up fails with
/// `KeyNotFound` at every type, although the older binding is still in the
/// chain.
pub proof fn lemma_tombstone<List: VariableList, V: ConstValue>(
    env: Environment<List>,
    key: TypeTag,
    value: V,
    ty: TypeTag,
)
    ensures
        env.spec_set(key, value).spec_unset(key).spec_get(key, ty) == Err::<Value, Fault>(
            Fault::KeyNotFound { key },
        ),
        !env.spec_set(key, value).spec_unset(key).spec_has(key, ty),
        env.spec_set(key, value).spec_unset(key).0.chain().contains(
            Binding::Has { key, ty: value.spec_ty(), value: value.spec_value() },
        ),
{
    let chain = env.spec_set(key, value).spec_unset(key).0.chain();
    assert(chain[1] == Binding::Has { key, ty: value.spec_ty(), value: value.spec_value() });
}

/// Type discrimination: a key bound to an expression of one type is not
/// bound at any other type, and looking it up at another type fails with
/// `TypeMismatch`.
pub proof fn lemma_type_discrimination<List: VariableList, V: ConstValue>(
    env: Environment<List>,
    key: TypeTag,
    value: V,
    ty: TypeTag,
)
    requires
        ty != value.spec_ty(),
    ensures
        !env.spec_set(key, value).spec_has(key, ty),
        env.spec_set(key, value).spec_get(key, ty) == Err::<Value, Fault>(
            Fault::TypeMismatch { expected: ty, found: value.spec_ty() },
        ),
{
}

/// Binding or removing one key leaves the lookups of every other key as
/// they were.
pub proof fn lemma_other_keys_untouched<List: VariableList, V: ConstValue>(
    env: Environment<List>,
    key: TypeTag,
    value: V,
    other: TypeTag,
    ty: TypeTag,
)
    requires
        other != key,
    ensures
        env.spec_set(key, value).spec_get(other, ty) == env.spec_get(other, ty),
        env.spec_set(key, value).spec_has(other, ty) == env.spec_has(other, ty),
        env.spec_unset(key).spec_get(other, ty) == env.spec_get(other, ty),
        env.spec_unset(key).spec_has(other, ty) == env.spec_has(other, ty),
{
    assert(env.spec_set(key, value).0.chain().drop_first() =~= env.0.chain());
    assert(env.spec_unset(key).0.chain().drop_first() =~= env.0.chain());
}

} // verus!
