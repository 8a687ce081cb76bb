use const_env::bytes::Bytes;
use const_env::env::{
    find_variable, has_variable, type_eq, ConstVariable, Environment, VariableList,
    VariableListEnd, VariableListHas, VariableListKind, VariableListRemoved,
};
use const_env::fault::{error_not_found, error_unexpected_type, str_concat, Fault};
use const_env::types::{TypeTag, Value};
use const_env::value::{
    const_value, force, ConstLiteral, ConstValue, ConstValueInstance, FnTransform, Transform,
};

fn u(n: Value) -> Value {
    n
}

fn assertion(n: Value) -> Value {
    assert!(n == Value::U64(1));
    Value::Unit
}

fn expression() -> u64 {
    let a = const_value(Value::U64(1));
    let b = const_value(Value::U64(2));
    let a = a.map(FnTransform(u), TypeTag::U64);
    a.inspect(FnTransform(assertion)).unwrap();
    match (a + b).deref() {
        Ok(Value::U64(n)) => n,
        other => panic!("unexpected outcome: {:?}", other),
    }
}

fn lookup() -> u64 {
    let var = (TypeTag::Unit, TypeTag::U64);
    let env = Environment::new();
    let env = env.set(var, const_value(Value::U64(1)));
    let found = env.get(var).deref();
    match found {
        Ok(Value::U64(n)) => n,
        other => panic!("unexpected outcome: {:?}", other),
    }
}

fn presence() -> (bool, bool) {
    let var1 = (TypeTag::U64, TypeTag::U64);
    let var2 = (TypeTag::U32, TypeTag::U32);
    let env = Environment::new();
    let env = env.set(var1, const_value(Value::U64(1)));
    let first = env.has(var1).deref();
    let second = env.has(var2).deref();
    (first == Ok(Value::Bool(true)), second == Ok(Value::Bool(true)))
}

#[test]
fn test_const() {
    assert!(expression() == 3);
    assert!(lookup() == 1);
    let both = presence();
    assert!(both.0 == true && both.1 == false);
}

#[test]
fn scenario_set_get_unset() {
    let var = (TypeTag::Marker(7), TypeTag::U64);
    let e0 = Environment::new();
    let e1 = e0.set(var, const_value(Value::U64(1)));
    assert_eq!(e1.get(var).into_inner(), Ok(Value::U64(1)));
    assert_eq!(e1.has(var).into_inner(), Ok(Value::Bool(true)));
    let e2 = e1.unset(var);
    assert_eq!(e2.has(var).into_inner(), Ok(Value::Bool(false)));
    assert_eq!(
        e2.get(var).into_inner(),
        Err(Fault::KeyNotFound { key: TypeTag::Marker(7) })
    );
}

#[test]
fn empty_environment_binds_nothing() {
    let env = Environment::new();
    for key in [TypeTag::Unit, TypeTag::U64, TypeTag::Marker(0), TypeTag::Array8] {
        let var = (key, TypeTag::U8);
        assert_eq!(env.get(var).into_inner(), Err(Fault::KeyNotFound { key }));
        assert_eq!(env.has(var).into_inner(), Ok(Value::Bool(false)));
    }
    assert_eq!(env.get(()).into_inner(), Err(Fault::KeyNotFound { key: TypeTag::Unit }));
}

#[test]
fn later_binding_shadows_earlier() {
    let var = (TypeTag::Marker(1), TypeTag::I32);
    let env = Environment::new()
        .set(var, const_value(Value::I32(10)))
        .set(var, const_value(Value::I32(-20)));
    assert_eq!(env.get(var).into_inner(), Ok(Value::I32(-20)));
    let retyped = env.set(var, const_value(Value::Bool(true)));
    assert_eq!(
        retyped.get(var).into_inner(),
        Err(Fault::TypeMismatch { expected: TypeTag::I32, found: TypeTag::Bool })
    );
    assert_eq!(
        retyped.get((TypeTag::Marker(1), TypeTag::Bool)).into_inner(),
        Ok(Value::Bool(true))
    );
}

#[test]
fn tombstone_hides_older_binding() {
    let var = (TypeTag::Marker(1), TypeTag::U8);
    let other = (TypeTag::Marker(2), TypeTag::U8);
    let env = Environment::new()
        .set(var, const_value(Value::U8(5)))
        .set(other, const_value(Value::U8(6)))
        .unset(var);
    assert_eq!(
        env.get(var).into_inner(),
        Err(Fault::KeyNotFound { key: TypeTag::Marker(1) })
    );
    assert_eq!(env.has(var).into_inner(), Ok(Value::Bool(false)));
    assert_eq!(env.get(other).into_inner(), Ok(Value::U8(6)));
    let again = env.set(var, const_value(Value::U8(9)));
    assert_eq!(again.get(var).into_inner(), Ok(Value::U8(9)));
}

#[test]
fn same_key_other_type_is_not_bound() {
    let env = Environment::new().set(
        (TypeTag::Marker(3), TypeTag::U64),
        const_value(Value::U64(1)),
    );
    assert_eq!(
        env.has((TypeTag::Marker(3), TypeTag::U32)).into_inner(),
        Ok(Value::Bool(false))
    );
    assert_eq!(
        env.get((TypeTag::Marker(3), TypeTag::U32)).into_inner(),
        Err(Fault::TypeMismatch { expected: TypeTag::U32, found: TypeTag::U64 })
    );
}

#[test]
fn set_binds_at_the_type_of_the_value() {
    let env = Environment::new().set(
        (TypeTag::Marker(3), TypeTag::U32),
        const_value(Value::U64(1)),
    );
    assert_eq!(
        env.has((TypeTag::Marker(3), TypeTag::U64)).into_inner(),
        Ok(Value::Bool(true))
    );
    assert_eq!(
        env.has((TypeTag::Marker(3), TypeTag::U32)).into_inner(),
        Ok(Value::Bool(false))
    );
}

#[test]
fn old_environment_stays_valid() {
    let var = (TypeTag::Marker(1), TypeTag::U8);
    let base = Environment::new().set(var, const_value(Value::U8(1)));
    let left = base.clone().set(var, const_value(Value::U8(2)));
    let right = base.clone().unset(var);
    assert_eq!(base.get(var).into_inner(), Ok(Value::U8(1)));
    assert_eq!(left.get(var).into_inner(), Ok(Value::U8(2)));
    assert_eq!(
        right.get(var).into_inner(),
        Err(Fault::KeyNotFound { key: TypeTag::Marker(1) })
    );
}

#[test]
fn auto_continues_with_the_given_chain() {
    let var = (TypeTag::Marker(1), TypeTag::U8);
    let env = Environment::new().set(var, const_value(Value::U8(1)));
    let swapped = env.auto(VariableListEnd);
    assert_eq!(swapped.has(var).into_inner(), Ok(Value::Bool(false)));
}

#[test]
fn a_bound_fault_surfaces_on_lookup_only() {
    let var = (TypeTag::Marker(1), TypeTag::U8);
    let overflow = const_value(Value::U8(200)) + const_value(Value::U8(100));
    let env = Environment::new().set(var, overflow);
    assert_eq!(env.has(var).into_inner(), Ok(Value::Bool(true)));
    assert_eq!(env.get(var).into_inner(), Err(Fault::Arithmetic));
}

#[test]
fn chain_links_report_their_kind() {
    let end = VariableListEnd;
    assert_eq!(end.kind(), VariableListKind::End);
    assert_eq!(end.key(), TypeTag::Unit);
    let has = VariableListHas { key: TypeTag::U8, value: ConstLiteral::new(Value::U8(1)), next: end };
    assert_eq!(has.kind(), VariableListKind::Has);
    assert_eq!(has.key(), TypeTag::U8);
    assert_eq!(force(has.value()), Ok(Value::U8(1)));
    let removed = VariableListRemoved { key: TypeTag::U16, next: has };
    assert_eq!(removed.kind(), VariableListKind::Removed);
    assert_eq!(removed.key(), TypeTag::U16);
    assert!(has_variable(&removed, TypeTag::U8, TypeTag::U8));
    assert!(!has_variable(&removed, TypeTag::U16, TypeTag::U8));
    let found = find_variable(&removed, TypeTag::U8, TypeTag::U8).unwrap();
    assert_eq!(found.as_type(TypeTag::U8), Value::U8(1));
    assert_eq!(
        find_variable(&removed, TypeTag::U16, TypeTag::U8),
        Err(Fault::KeyNotFound { key: TypeTag::U16 })
    );
}

#[test]
fn variables_name_key_and_type() {
    assert_eq!(().key(), TypeTag::Unit);
    assert_eq!(().value_type(), TypeTag::Unit);
    let var = (TypeTag::Marker(4), TypeTag::I64);
    assert_eq!(var.key(), TypeTag::Marker(4));
    assert_eq!(var.value_type(), TypeTag::I64);
}

#[test]
fn types_are_equal_only_to_themselves() {
    let all = [
        TypeTag::Unit,
        TypeTag::Bool,
        TypeTag::U8,
        TypeTag::U16,
        TypeTag::U32,
        TypeTag::U64,
        TypeTag::U128,
        TypeTag::Usize,
        TypeTag::I8,
        TypeTag::I16,
        TypeTag::I32,
        TypeTag::I64,
        TypeTag::I128,
        TypeTag::Isize,
        TypeTag::Array8,
        TypeTag::Marker(0),
        TypeTag::Marker(11),
        TypeTag::Marker(u32::MAX),
    ];
    for (i, a) in all.iter().enumerate() {
        for (j, b) in all.iter().enumerate() {
            assert_eq!(type_eq(*a, *b), i == j);
            assert_eq!(a.id() == b.id(), i == j);
        }
    }
    assert_eq!(TypeTag::Marker(5).id(), 0x1_0000_0005);
}

#[test]
fn messages_name_the_types() {
    assert_eq!(str_concat("ab", "cd"), "abcd");
    assert_eq!(str_concat("", "x"), "x");
    assert_eq!(
        error_not_found(TypeTag::Unit),
        "The key `()` is not found in current context."
    );
    assert_eq!(
        error_not_found(TypeTag::Marker(1203)),
        "The key `Marker<1203>` is not found in current context."
    );
    assert_eq!(
        error_unexpected_type(TypeTag::U32, TypeTag::U64),
        "Mismatched types: expected `u32`, found `u64`."
    );
    assert_eq!(
        Fault::KeyNotFound { key: TypeTag::Array8 }.message(),
        "The key `[u8; 8]` is not found in current context."
    );
    assert_eq!(
        Fault::TypeMismatch { expected: TypeTag::Bool, found: TypeTag::Usize }.message(),
        "Mismatched types: expected `bool`, found `usize`."
    );
    assert_eq!(
        Fault::Arithmetic.message(),
        "Arithmetic fault: overflow, division by zero or shift out of range."
    );
    assert_eq!(Fault::Index.message(), "Index out of bounds.");
    assert_eq!(Fault::Misuse.message(), "A transform must not capture any state.");
    assert_eq!(TypeTag::Marker(0).name(), "Marker<0>");
    assert_eq!(TypeTag::Marker(u32::MAX).name(), "Marker<4294967295>");
    assert_eq!(TypeTag::I16.name(), "i16");
    assert_eq!(TypeTag::U128.name(), "u128");
    assert_eq!(TypeTag::Isize.name(), "isize");
    assert_eq!(TypeTag::Unit.name(), "()");
}

struct Doubling;

impl Transform for Doubling {
    fn spec_accepts(&self, _: Value) -> bool {
        true
    }

    fn spec_apply(&self, v: Value) -> Value {
        self.apply(v)
    }

    fn apply(&self, v: Value) -> Value {
        match v {
            Value::U8(x) => Value::U16(2 * x as u16),
            other => other,
        }
    }
}

struct Adding(u8);

impl Transform for Adding {
    fn spec_accepts(&self, _: Value) -> bool {
        true
    }

    fn spec_apply(&self, v: Value) -> Value {
        self.apply(v)
    }

    fn apply(&self, v: Value) -> Value {
        match v {
            Value::U8(x) => Value::U8(x.wrapping_add(self.0)),
            other => other,
        }
    }
}

#[test]
fn transform_applies_to_the_forced_value() {
    let doubled = const_value(Value::U8(200)).map(Doubling, TypeTag::U16);
    assert_eq!(doubled.0.ty(), TypeTag::U16);
    assert_eq!(doubled.into_inner(), Ok(Value::U16(400)));
    let closure = const_value(Value::Bool(true)).map(
        FnTransform(|v: Value| match v {
            Value::Bool(b) => Value::Bool(!b),
            other => other,
        }),
        TypeTag::Bool,
    );
    assert_eq!(closure.into_inner(), Ok(Value::Bool(false)));
}

#[test]
fn transform_with_state_is_misuse() {
    let stateful = const_value(Value::U8(1)).map(Adding(1), TypeTag::U8);
    assert_eq!(stateful.into_inner(), Err(Fault::Misuse));
    let offset = 3u8;
    let capturing = const_value(Value::U8(1)).map(
        FnTransform(move |v: Value| match v {
            Value::U8(x) => Value::U8(x + offset),
            other => other,
        }),
        TypeTag::U8,
    );
    assert_eq!(capturing.into_inner(), Err(Fault::Misuse));
    assert_eq!(const_value(Value::U8(1)).inspect(Adding(1)), Err(Fault::Misuse));
}

#[test]
fn transform_result_of_undeclared_type_is_a_mismatch() {
    let wrong = const_value(Value::U8(2)).map(Doubling, TypeTag::U8);
    assert_eq!(
        wrong.into_inner(),
        Err(Fault::TypeMismatch { expected: TypeTag::U8, found: TypeTag::U16 })
    );
}

#[test]
fn transform_is_skipped_when_the_inner_expression_faults() {
    let zero = const_value(Value::U8(1)) / const_value(Value::U8(0));
    assert_eq!(zero.map(Doubling, TypeTag::U16).into_inner(), Err(Fault::Arithmetic));
    let zero = const_value(Value::U8(1)) / const_value(Value::U8(0));
    assert_eq!(zero.inspect(Doubling), Err(Fault::Arithmetic));
}

#[test]
fn inspect_leaves_the_expression_usable() {
    let a = const_value(Value::U64(1));
    assert_eq!(a.inspect(FnTransform(assertion)), Ok(()));
    assert_eq!(a.inspect(Doubling), Ok(()));
    assert_eq!(a.clone().into_inner(), Ok(Value::U64(1)));
    assert_eq!(a.deref(), Ok(Value::U64(1)));
}

#[test]
fn unit_expression_yields_unit() {
    let unit = ConstValueInstance::new(());
    assert_eq!(unit.0.ty(), TypeTag::Unit);
    assert_eq!(unit.into_inner(), Ok(Value::Unit));
    assert_eq!(().value().map(|b| b.len()), Ok(0));
}

#[test]
fn literal_from_bytes_checks_the_length() {
    let good = ConstLiteral::from_bytes(TypeTag::U32, Bytes::from_vec(vec![1, 0, 0, 0]));
    assert_eq!(good.map(|l| force(&l)), Some(Ok(Value::U32(1))));
    assert!(ConstLiteral::from_bytes(TypeTag::U32, Bytes::from_vec(vec![1, 0, 0])).is_none());
    assert!(ConstLiteral::from_bytes(TypeTag::Unit, Bytes::from_vec(vec![1])).is_none());
}

#[test]
fn literal_reads_its_bytes_at_its_type() {
    let raw = ConstLiteral { ty: TypeTag::U16, bytes: Bytes::from_vec(vec![0x34, 0x12]) };
    assert_eq!(raw.ty(), TypeTag::U16);
    assert_eq!(force(&raw), Ok(Value::U16(0x1234)));
    let made = ConstLiteral::new(Value::I16(-2));
    assert_eq!(made.ty, TypeTag::I16);
    assert_eq!(made.bytes.clone().into_vec(), vec![0xfe, 0xff]);
    assert_eq!(made.value().map(|b| b.into_vec()), Ok(vec![0xfe, 0xff]));
}
