use const_env::bytes::Bytes;
use const_env::types::{decimal, TypeTag, Value};

fn samples() -> Vec<Value> {
    vec![
        Value::Unit,
        Value::Bool(false),
        Value::Bool(true),
        Value::U8(0),
        Value::U8(255),
        Value::U16(0x1234),
        Value::U16(u16::MAX),
        Value::U32(0xdead_beef),
        Value::U32(0),
        Value::U64(0x0102_0304_0506_0708),
        Value::U64(u64::MAX),
        Value::Usize(0),
        Value::Usize(usize::MAX),
        Value::Usize(77),
        Value::I8(-1),
        Value::I8(i8::MIN),
        Value::I8(i8::MAX),
        Value::I16(-300),
        Value::I16(i16::MIN),
        Value::I32(-1),
        Value::I32(i32::MIN),
        Value::I32(i32::MAX),
        Value::I64(-2),
        Value::I64(i64::MIN),
        Value::I64(i64::MAX),
        Value::U128(0),
        Value::U128(u128::MAX),
        Value::U128(0x0102_0304_0506_0708_090a_0b0c_0d0e_0f10),
        Value::I128(-1),
        Value::I128(i128::MIN),
        Value::I128(i128::MAX),
        Value::I128(0),
        Value::Isize(-1),
        Value::Isize(isize::MIN),
        Value::Isize(isize::MAX),
        Value::Array8([1, 2, 3, 4, 5, 6, 7, 8]),
        Value::Array8([0; 8]),
        Value::Array8([255; 8]),
        Value::Marker(0),
        Value::Marker(99),
    ]
}

#[test]
fn decoding_an_image_gives_the_value_back() {
    for v in samples() {
        let bytes = Bytes::new(&v);
        assert_eq!(bytes.len(), v.ty().size(), "{:?}", v);
        assert_eq!(bytes.as_type(v.ty()), v);
        let seen = bytes.as_ref(v.ty());
        assert_eq!(seen.ty(), v.ty());
        assert_eq!(seen.get(), v);
        assert_eq!(bytes.duplicate(), bytes);
    }
}

#[test]
fn images_are_little_endian() {
    assert_eq!(Bytes::new(&Value::Unit).into_vec(), Vec::<u8>::new());
    assert_eq!(Bytes::new(&Value::Marker(5)).into_vec(), Vec::<u8>::new());
    assert_eq!(Bytes::new(&Value::Bool(true)).into_vec(), vec![1]);
    assert_eq!(Bytes::new(&Value::Bool(false)).into_vec(), vec![0]);
    assert_eq!(Bytes::new(&Value::U8(0xab)).into_vec(), vec![0xab]);
    assert_eq!(Bytes::new(&Value::U16(0x1234)).into_vec(), 0x1234u16.to_le_bytes().to_vec());
    assert_eq!(
        Bytes::new(&Value::U32(0xdead_beef)).into_vec(),
        vec![0xef, 0xbe, 0xad, 0xde]
    );
    assert_eq!(
        Bytes::new(&Value::U64(0x0102_0304_0506_0708)).into_vec(),
        vec![8, 7, 6, 5, 4, 3, 2, 1]
    );
    assert_eq!(
        Bytes::new(&Value::Usize(0x0102)).into_vec(),
        vec![2, 1, 0, 0, 0, 0, 0, 0]
    );
    assert_eq!(Bytes::new(&Value::I8(-1)).into_vec(), vec![0xff]);
    assert_eq!(Bytes::new(&Value::I16(-300)).into_vec(), (-300i16).to_le_bytes().to_vec());
    assert_eq!(Bytes::new(&Value::I32(i32::MIN)).into_vec(), i32::MIN.to_le_bytes().to_vec());
    assert_eq!(Bytes::new(&Value::I64(-2)).into_vec(), (-2i64).to_le_bytes().to_vec());
    assert_eq!(
        Bytes::new(&Value::U128(0x0102_0304_0506_0708_090a_0b0c_0d0e_0f10)).into_vec(),
        vec![16, 15, 14, 13, 12, 11, 10, 9, 8, 7, 6, 5, 4, 3, 2, 1]
    );
    assert_eq!(Bytes::new(&Value::I128(i128::MIN)).into_vec(), i128::MIN.to_le_bytes().to_vec());
    assert_eq!(Bytes::new(&Value::I128(-3)).into_vec(), (-3i128).to_le_bytes().to_vec());
    assert_eq!(Bytes::new(&Value::Isize(-3)).into_vec(), (-3i64).to_le_bytes().to_vec());
    assert_eq!(
        Bytes::new(&Value::Array8([9, 8, 7, 6, 5, 4, 3, 2])).into_vec(),
        vec![9, 8, 7, 6, 5, 4, 3, 2]
    );
}

#[test]
fn same_size_types_decode_without_complaint() {
    let bytes = Bytes::new(&Value::I8(-1));
    assert_eq!(bytes.as_type(TypeTag::U8), Value::U8(255));
    assert_eq!(bytes.as_type(TypeTag::Bool), Value::Bool(true));
    let wide = Bytes::new(&Value::U64(0x0807_0605_0403_0201));
    assert_eq!(wide.as_type(TypeTag::Array8), Value::Array8([1, 2, 3, 4, 5, 6, 7, 8]));
    assert_eq!(wide.as_type(TypeTag::I64), Value::I64(0x0807_0605_0403_0201));
    let high = Bytes::from_vec(vec![0, 0, 0, 0x80]);
    assert_eq!(high.as_type(TypeTag::I32), Value::I32(i32::MIN));
    assert_eq!(high.as_type(TypeTag::U32), Value::U32(0x8000_0000));
    let all_ones = Bytes::from_vec(vec![0xff; 16]);
    assert_eq!(all_ones.as_type(TypeTag::U128), Value::U128(u128::MAX));
    assert_eq!(all_ones.as_type(TypeTag::I128), Value::I128(-1));
    let empty = Bytes::from_vec(Vec::new());
    assert_eq!(empty.as_type(TypeTag::Unit), Value::Unit);
    assert_eq!(empty.as_type(TypeTag::Marker(3)), Value::Marker(3));
}

#[test]
fn sizes_follow_the_types() {
    assert_eq!(TypeTag::Unit.size(), 0);
    assert_eq!(TypeTag::Bool.size(), 1);
    assert_eq!(TypeTag::U8.size(), 1);
    assert_eq!(TypeTag::U16.size(), 2);
    assert_eq!(TypeTag::U32.size(), 4);
    assert_eq!(TypeTag::U64.size(), 8);
    assert_eq!(TypeTag::Usize.size(), 8);
    assert_eq!(TypeTag::I8.size(), 1);
    assert_eq!(TypeTag::I16.size(), 2);
    assert_eq!(TypeTag::I32.size(), 4);
    assert_eq!(TypeTag::I64.size(), 8);
    assert_eq!(TypeTag::U128.size(), 16);
    assert_eq!(TypeTag::I128.size(), 16);
    assert_eq!(TypeTag::Isize.size(), 8);
    assert_eq!(TypeTag::Array8.size(), 8);
    assert_eq!(TypeTag::Marker(1).size(), 0);
}

#[test]
fn decimal_notation() {
    assert_eq!(decimal(0), "0");
    assert_eq!(decimal(9), "9");
    assert_eq!(decimal(10), "10");
    assert_eq!(decimal(1203), "1203");
    assert_eq!(decimal(u32::MAX), "4294967295");
}

#[test]
fn checked_decoding_rejects_other_lengths() {
    let two = Bytes::from_vec(vec![1, 2]);
    assert_eq!(two.checked_as_type(TypeTag::U16), Some(Value::U16(0x0201)));
    assert_eq!(two.checked_as_type(TypeTag::I16), Some(Value::I16(0x0201)));
    assert_eq!(two.checked_as_type(TypeTag::U8), None);
    assert_eq!(two.checked_as_type(TypeTag::U32), None);
    assert_eq!(two.checked_as_type(TypeTag::Unit), None);
    assert_eq!(Bytes::from_vec(vec![]).checked_as_type(TypeTag::Unit), Some(Value::Unit));
    assert_eq!(Bytes::from_vec(vec![7]).checked_as_type(TypeTag::Bool), Some(Value::Bool(true)));
    assert_eq!(Bytes::from_vec(vec![0; 7]).checked_as_type(TypeTag::Array8), None);
}
