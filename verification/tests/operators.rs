use const_env::fault::Fault;
use const_env::ops::{BinaryOp, UnaryOp};
use const_env::types::{TypeTag, Value};
use const_env::value::{const_value, ConstValue};

#[test]
fn arithmetic_within_range() {
    assert_eq!((const_value(Value::U64(1)) + const_value(Value::U64(2))).into_inner(), Ok(Value::U64(3)));
    assert_eq!((const_value(Value::I8(-100)) + const_value(Value::I8(-28))).into_inner(), Ok(Value::I8(-128)));
    assert_eq!((const_value(Value::U16(5)) - const_value(Value::U16(5))).into_inner(), Ok(Value::U16(0)));
    assert_eq!((const_value(Value::I32(5)) - const_value(Value::I32(7))).into_inner(), Ok(Value::I32(-2)));
    assert_eq!((const_value(Value::U32(65536)) * const_value(Value::U32(65535))).into_inner(), Ok(Value::U32(4294901760)));
    assert_eq!((const_value(Value::I64(-3)) * const_value(Value::I64(4))).into_inner(), Ok(Value::I64(-12)));
    assert_eq!((const_value(Value::Usize(7)) / const_value(Value::Usize(2))).into_inner(), Ok(Value::Usize(3)));
    assert_eq!((const_value(Value::Usize(7)) % const_value(Value::Usize(2))).into_inner(), Ok(Value::Usize(1)));
    assert_eq!((const_value(Value::U128(u128::MAX - 1)) + const_value(Value::U128(1))).into_inner(), Ok(Value::U128(u128::MAX)));
    assert_eq!((const_value(Value::I128(-7)) / const_value(Value::I128(2))).into_inner(), Ok(Value::I128(-3)));
    assert_eq!((const_value(Value::Isize(-7)) % const_value(Value::Isize(2))).into_inner(), Ok(Value::Isize(-1)));
}

#[test]
fn division_rounds_toward_zero() {
    let cases = [(7, 2), (-7, 2), (7, -2), (-7, -2), (0, 5), (0, -5), (6, 3), (-6, 3), (1, -1), (i32::MAX, -1), (i32::MIN, 1), (i32::MIN, 2)];
    for (x, d) in cases {
        assert_eq!(
            (const_value(Value::I32(x)) / const_value(Value::I32(d))).into_inner(),
            Ok(Value::I32(x / d)),
            "{} / {}", x, d
        );
        assert_eq!(
            (const_value(Value::I32(x)) % const_value(Value::I32(d))).into_inner(),
            Ok(Value::I32(x % d)),
            "{} % {}", x, d
        );
    }
    assert_eq!((const_value(Value::I32(-7)) / const_value(Value::I32(2))).into_inner(), Ok(Value::I32(-3)));
    assert_eq!((const_value(Value::I32(-7)) % const_value(Value::I32(2))).into_inner(), Ok(Value::I32(-1)));
    assert_eq!((const_value(Value::I32(7)) % const_value(Value::I32(-2))).into_inner(), Ok(Value::I32(1)));
}

#[test]
fn overflow_is_an_arithmetic_fault() {
    assert_eq!((const_value(Value::U8(200)) + const_value(Value::U8(56))).into_inner(), Err(Fault::Arithmetic));
    assert_eq!((const_value(Value::U8(200)) + const_value(Value::U8(55))).into_inner(), Ok(Value::U8(255)));
    assert_eq!((const_value(Value::I8(127)) + const_value(Value::I8(1))).into_inner(), Err(Fault::Arithmetic));
    assert_eq!((const_value(Value::U64(0)) - const_value(Value::U64(1))).into_inner(), Err(Fault::Arithmetic));
    assert_eq!((const_value(Value::I16(i16::MIN)) - const_value(Value::I16(1))).into_inner(), Err(Fault::Arithmetic));
    assert_eq!((const_value(Value::U32(65536)) * const_value(Value::U32(65536))).into_inner(), Err(Fault::Arithmetic));
    assert_eq!((const_value(Value::I64(i64::MIN)) * const_value(Value::I64(-1))).into_inner(), Err(Fault::Arithmetic));
    assert_eq!((const_value(Value::I64(i64::MIN)) / const_value(Value::I64(-1))).into_inner(), Err(Fault::Arithmetic));
    assert_eq!((const_value(Value::I64(i64::MIN)) % const_value(Value::I64(-1))).into_inner(), Err(Fault::Arithmetic));
    assert_eq!((-const_value(Value::I8(i8::MIN))).into_inner(), Err(Fault::Arithmetic));
    assert_eq!((const_value(Value::Usize(usize::MAX)) + const_value(Value::Usize(1))).into_inner(), Err(Fault::Arithmetic));
    assert_eq!((const_value(Value::U128(u128::MAX)) + const_value(Value::U128(1))).into_inner(), Err(Fault::Arithmetic));
    assert_eq!((const_value(Value::I128(i128::MIN)) / const_value(Value::I128(-1))).into_inner(), Err(Fault::Arithmetic));
    assert_eq!((const_value(Value::I128(i128::MAX)) * const_value(Value::I128(2))).into_inner(), Err(Fault::Arithmetic));
    assert_eq!((-const_value(Value::Isize(isize::MIN))).into_inner(), Err(Fault::Arithmetic));
}

#[test]
fn division_by_zero_is_an_arithmetic_fault() {
    assert_eq!((const_value(Value::U8(1)) / const_value(Value::U8(0))).into_inner(), Err(Fault::Arithmetic));
    assert_eq!((const_value(Value::U8(1)) % const_value(Value::U8(0))).into_inner(), Err(Fault::Arithmetic));
    assert_eq!((const_value(Value::I64(0)) / const_value(Value::I64(0))).into_inner(), Err(Fault::Arithmetic));
    assert_eq!((const_value(Value::I64(-5)) % const_value(Value::I64(0))).into_inner(), Err(Fault::Arithmetic));
}

#[test]
fn negation_and_complement() {
    assert_eq!((-const_value(Value::I32(5))).into_inner(), Ok(Value::I32(-5)));
    assert_eq!((-const_value(Value::I64(i64::MAX))).into_inner(), Ok(Value::I64(i64::MIN + 1)));
    assert_eq!((!const_value(Value::U8(0x0f))).into_inner(), Ok(Value::U8(0xf0)));
    assert_eq!((!const_value(Value::I16(0))).into_inner(), Ok(Value::I16(-1)));
    assert_eq!((!const_value(Value::Bool(true))).into_inner(), Ok(Value::Bool(false)));
    assert_eq!((!const_value(Value::Usize(0))).into_inner(), Ok(Value::Usize(usize::MAX)));
}

#[test]
fn bitwise_operators() {
    assert_eq!((const_value(Value::U8(0b1100)) & const_value(Value::U8(0b1010))).into_inner(), Ok(Value::U8(0b1000)));
    assert_eq!((const_value(Value::U8(0b1100)) | const_value(Value::U8(0b1010))).into_inner(), Ok(Value::U8(0b1110)));
    assert_eq!((const_value(Value::U8(0b1100)) ^ const_value(Value::U8(0b1010))).into_inner(), Ok(Value::U8(0b0110)));
    assert_eq!((const_value(Value::I32(-1)) & const_value(Value::I32(0x7f))).into_inner(), Ok(Value::I32(0x7f)));
    assert_eq!((const_value(Value::I32(-8)) | const_value(Value::I32(3))).into_inner(), Ok(Value::I32(-5)));
    assert_eq!((const_value(Value::I64(-1)) ^ const_value(Value::I64(1))).into_inner(), Ok(Value::I64(-2)));
    assert_eq!((const_value(Value::Bool(true)) & const_value(Value::Bool(false))).into_inner(), Ok(Value::Bool(false)));
    assert_eq!((const_value(Value::Bool(true)) | const_value(Value::Bool(false))).into_inner(), Ok(Value::Bool(true)));
    assert_eq!((const_value(Value::Bool(true)) ^ const_value(Value::Bool(true))).into_inner(), Ok(Value::Bool(false)));
}

#[test]
fn shifts() {
    assert_eq!((const_value(Value::U8(0b1000_0001)) << const_value(Value::U32(1))).into_inner(), Ok(Value::U8(0b0000_0010)));
    assert_eq!((const_value(Value::U8(0b1000_0001)) >> const_value(Value::U8(1))).into_inner(), Ok(Value::U8(0b0100_0000)));
    assert_eq!((const_value(Value::I8(-128)) >> const_value(Value::I64(7))).into_inner(), Ok(Value::I8(-1)));
    assert_eq!((const_value(Value::I32(1)) << const_value(Value::Usize(31))).into_inner(), Ok(Value::I32(i32::MIN)));
    assert_eq!((const_value(Value::U64(1)) << const_value(Value::I8(63))).into_inner(), Ok(Value::U64(1 << 63)));
    assert_eq!((const_value(Value::U16(0xffff)) << const_value(Value::U16(15))).into_inner(), Ok(Value::U16(0x8000)));
    assert_eq!((const_value(Value::U16(7)) << const_value(Value::U16(0))).into_inner(), Ok(Value::U16(7)));
    assert_eq!((const_value(Value::U128(1)) << const_value(Value::U128(127))).into_inner(), Ok(Value::U128(1 << 127)));
    assert_eq!((const_value(Value::I128(-4)) >> const_value(Value::Isize(1))).into_inner(), Ok(Value::I128(-2)));
}

#[test]
fn shift_out_of_range_is_an_arithmetic_fault() {
    assert_eq!((const_value(Value::U8(1)) << const_value(Value::U32(8))).into_inner(), Err(Fault::Arithmetic));
    assert_eq!((const_value(Value::U8(1)) >> const_value(Value::U32(8))).into_inner(), Err(Fault::Arithmetic));
    assert_eq!((const_value(Value::U8(1)) << const_value(Value::U32(7))).into_inner(), Ok(Value::U8(128)));
    assert_eq!((const_value(Value::I64(1)) << const_value(Value::U64(64))).into_inner(), Err(Fault::Arithmetic));
    assert_eq!((const_value(Value::I64(1)) << const_value(Value::U64(u64::MAX))).into_inner(), Err(Fault::Arithmetic));
    assert_eq!((const_value(Value::U32(1)) << const_value(Value::I32(-1))).into_inner(), Err(Fault::Arithmetic));
    assert_eq!((const_value(Value::U32(1)) >> const_value(Value::I64(-1))).into_inner(), Err(Fault::Arithmetic));
    assert_eq!((const_value(Value::U32(1)) >> const_value(Value::I64(1 << 40))).into_inner(), Err(Fault::Arithmetic));
    assert_eq!((const_value(Value::U128(1)) << const_value(Value::U8(128))).into_inner(), Err(Fault::Arithmetic));
    assert_eq!((const_value(Value::U8(1)) << const_value(Value::I128(-1))).into_inner(), Err(Fault::Arithmetic));
    assert_eq!((const_value(Value::U8(1)) << const_value(Value::Isize(-1))).into_inner(), Err(Fault::Arithmetic));
    assert_eq!((const_value(Value::U8(1)) << const_value(Value::U128(u128::MAX))).into_inner(), Err(Fault::Arithmetic));
}

#[test]
fn indexing() {
    let array = Value::Array8([10, 11, 12, 13, 14, 15, 16, 17]);
    for i in 0..8usize {
        assert_eq!(
            const_value(array).index(const_value(Value::Usize(i))).into_inner(),
            Ok(Value::U8(10 + i as u8))
        );
    }
    assert_eq!(const_value(array).index(const_value(Value::Usize(8))).into_inner(), Err(Fault::Index));
    assert_eq!(const_value(array).index(const_value(Value::Usize(usize::MAX))).into_inner(), Err(Fault::Index));
}

#[test]
fn left_fault_hides_the_right_one() {
    let left = const_value(Value::U8(1)) / const_value(Value::U8(0));
    let right = const_value(Value::Array8([0; 8])).index(const_value(Value::Usize(9)));
    assert_eq!((left + right).into_inner(), Err(Fault::Arithmetic));
    let left = const_value(Value::Array8([0; 8])).index(const_value(Value::Usize(9)));
    let right = const_value(Value::U8(1)) / const_value(Value::U8(0));
    assert_eq!((left + right).into_inner(), Err(Fault::Index));
}

#[test]
fn operators_know_their_operand_types() {
    assert!(UnaryOp::Neg.accepts(TypeTag::I8));
    assert!(!UnaryOp::Neg.accepts(TypeTag::U8));
    assert!(!UnaryOp::Neg.accepts(TypeTag::Bool));
    assert!(UnaryOp::Not.accepts(TypeTag::Bool));
    assert!(UnaryOp::Not.accepts(TypeTag::Usize));
    assert!(!UnaryOp::Not.accepts(TypeTag::Array8));
    assert!(BinaryOp::Add.accepts(TypeTag::U8, TypeTag::U8));
    assert!(!BinaryOp::Add.accepts(TypeTag::U8, TypeTag::U16));
    assert!(!BinaryOp::Add.accepts(TypeTag::Bool, TypeTag::Bool));
    assert!(BinaryOp::BitXor.accepts(TypeTag::Bool, TypeTag::Bool));
    assert!(BinaryOp::Shl.accepts(TypeTag::U8, TypeTag::I64));
    assert!(!BinaryOp::Shl.accepts(TypeTag::U8, TypeTag::Bool));
    assert!(BinaryOp::Index.accepts(TypeTag::Array8, TypeTag::Usize));
    assert!(!BinaryOp::Index.accepts(TypeTag::Array8, TypeTag::U64));
    assert_eq!(BinaryOp::Index.result_type(TypeTag::Array8, TypeTag::Usize), TypeTag::U8);
    assert_eq!(BinaryOp::Shr.result_type(TypeTag::I16, TypeTag::U64), TypeTag::I16);
    assert_eq!(UnaryOp::Not.result_type(TypeTag::Bool), TypeTag::Bool);
    assert_eq!(BinaryOp::Mul.apply(Value::U8(16), Value::U8(16)), Err(Fault::Arithmetic));
    assert_eq!(UnaryOp::Neg.apply(Value::I16(3)), Ok(Value::I16(-3)));
}

#[test]
fn composite_expression_has_the_type_of_its_operator() {
    let sum = const_value(Value::I16(1)) + const_value(Value::I16(2));
    assert_eq!(sum.0.ty(), TypeTag::I16);
    let shifted = const_value(Value::U8(1)) << const_value(Value::I64(2));
    assert_eq!(shifted.0.ty(), TypeTag::U8);
    let element = const_value(Value::Array8([0; 8])).index(const_value(Value::Usize(0)));
    assert_eq!(element.0.ty(), TypeTag::U8);
    let nested = (const_value(Value::U8(2)) * const_value(Value::U8(3))) + element;
    assert_eq!(nested.into_inner(), Ok(Value::U8(6)));
}
