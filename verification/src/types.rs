//! Logical types and the values that inhabit them.
//!
//! Every value that the library handles belongs to exactly one logical type,
//! named by a [`TypeTag`]. Tags double as key identities of environment
//! variables, so two tags are the same key exactly when they are equal.

use vstd::prelude::*;
use vstd::string::*;

verus! {

/// The identity of a logical type.
///
/// `Marker(n)` stands for a family of unit-like types that carry no data and
/// exist only to be told apart, which makes them convenient variable keys.
#[derive(Clone, Copy, Debug, PartialEq, Eq, Structural)]
pub enum TypeTag {
    Unit,
    Bool,
    U8,
    U16,
    U32,
    U64,
    U128,
    Usize,
    I8,
    I16,
    I32,
    I64,
    I128,
    Isize,
    /// An array of eight bytes, `[u8; 8]`.
    Array8,
    Marker(u32),
}

/// A concrete value of one of the logical types.
#[derive(Clone, Copy, Debug, PartialEq, Eq)]
pub enum Value {
    Unit,
    Bool(bool),
    U8(u8),
    U16(u16),
    U32(u32),
    U64(u64),
    U128(u128),
    Usize(usize),
    I8(i8),
    I16(i16),
    I32(i32),
    I64(i64),
    I128(i128),
    Isize(isize),
    Array8([u8; 8]),
    Marker(u32),
}

/// The decimal digit `d` as text; the empty text when `d` is no digit.
pub open spec fn spec_digit(d: nat) -> Seq<char> {
    if d == 0 {
        "0"@
    } else if d == 1 {
        "1"@
    } else if d == 2 {
        "2"@
    } else if d == 3 {
        "3"@
    } else if d == 4 {
        "4"@
    } else if d == 5 {
        "5"@
    } else if d == 6 {
        "6"@
    } else if d == 7 {
        "7"@
    } else if d == 8 {
        "8"@
    } else if d == 9 {
        "9"@
    } else {
        Seq::empty()
    }
}

/// The decimal notation of `n`, without leading zeros.
pub open spec fn spec_decimal(n: nat) -> Seq<char>
    decreases n,
{
    if n < 10 {
        spec_digit(n)
    } else {
        spec_decimal(n / 10) + spec_digit(n % 10)
    }
}

/// The decimal digit `d` as text.
fn digit(d: u32) -> (r: &'static str)
    requires
        d < 10,
    ensures
        r@ == spec_digit(d as nat),
{
    match d {
        0 => "0",
        1 => "1",
        2 => "2",
        3 => "3",
        4 => "4",
        5 => "5",
        6 => "6",
        7 => "7",
        8 => "8",
        _ => "9",
    }
}

/// Writes `n` in decimal notation.
pub fn decimal(n: u32) -> (r: String)
    ensures
        r@ == spec_decimal(n as nat),
    decreases n,
{
    if n < 10 {
        String::from_str(digit(n))
    } else {
        decimal(n / 10).concat(digit(n % 10))
    }
}

impl TypeTag {
    /// The number of bytes that an image of a value of this type occupies.
    /// A `usize` or `isize` always takes eight bytes.
    pub open spec fn spec_size(self) -> nat {
        match self {
            TypeTag::Unit => 0,
            TypeTag::Bool => 1,
            TypeTag::U8 => 1,
            TypeTag::U16 => 2,
            TypeTag::U32 => 4,
            TypeTag::U64 => 8,
            TypeTag::U128 => 16,
            TypeTag::Usize => 8,
            TypeTag::I8 => 1,
            TypeTag::I16 => 2,
            TypeTag::I32 => 4,
            TypeTag::I64 => 8,
            TypeTag::I128 => 16,
            TypeTag::Isize => 8,
            TypeTag::Array8 => 8,
            TypeTag::Marker(_) => 0,
        }
    }

    /// Whether the type is one of the integer types.
    pub open spec fn is_int(self) -> bool {
        match self {
            TypeTag::U8 | TypeTag::U16 | TypeTag::U32 | TypeTag::U64 | TypeTag::U128 => true,
            TypeTag::I8 | TypeTag::I16 | TypeTag::I32 | TypeTag::I64 | TypeTag::I128 => true,
            TypeTag::Usize | TypeTag::Isize => true,
            _ => false,
        }
    }

    /// Whether the type is one of the signed integer types.
    pub open spec fn is_signed(self) -> bool {
        match self {
            TypeTag::I8 | TypeTag::I16 | TypeTag::I32 | TypeTag::I64 | TypeTag::I128 => true,
            TypeTag::Isize => true,
            _ => false,
        }
    }

    /// The width in bits of an integer type; zero for every other type.
    pub open spec fn bits(self) -> int {
        match self {
            TypeTag::U8 | TypeTag::I8 => 8,
            TypeTag::U16 | TypeTag::I16 => 16,
            TypeTag::U32 | TypeTag::I32 => 32,
            TypeTag::U64 | TypeTag::I64 => 64,
            TypeTag::U128 | TypeTag::I128 => 128,
            TypeTag::Usize | TypeTag::Isize => usize::BITS as int,
            _ => 0,
        }
    }

    /// The least value of an integer type; zero for every other type.
    pub open spec fn min(self) -> int {
        match self {
            TypeTag::I8 => i8::MIN as int,
            TypeTag::I16 => i16::MIN as int,
            TypeTag::I32 => i32::MIN as int,
            TypeTag::I64 => i64::MIN as int,
            TypeTag::I128 => i128::MIN as int,
            TypeTag::Isize => isize::MIN as int,
            _ => 0,
        }
    }

    /// The greatest value of an integer type; zero for every other type.
    pub open spec fn max(self) -> int {
        match self {
            TypeTag::U8 => u8::MAX as int,
            TypeTag::U16 => u16::MAX as int,
            TypeTag::U32 => u32::MAX as int,
            TypeTag::U64 => u64::MAX as int,
            TypeTag::U128 => u128::MAX as int,
            TypeTag::Usize => usize::MAX as int,
            TypeTag::I8 => i8::MAX as int,
            TypeTag::I16 => i16::MAX as int,
            TypeTag::I32 => i32::MAX as int,
            TypeTag::I64 => i64::MAX as int,
            TypeTag::I128 => i128::MAX as int,
            TypeTag::Isize => isize::MAX as int,
            _ => 0,
        }
    }

    /// The fingerprint of the type: a number that no other type shares.
    pub open spec fn spec_id(self) -> u64 {
        match self {
            TypeTag::Unit => 0,
            TypeTag::Bool => 1,
            TypeTag::U8 => 2,
            TypeTag::U16 => 3,
            TypeTag::U32 => 4,
            TypeTag::U64 => 5,
            TypeTag::U128 => 6,
            TypeTag::Usize => 7,
            TypeTag::I8 => 8,
            TypeTag::I16 => 9,
            TypeTag::I32 => 10,
            TypeTag::I64 => 11,
            TypeTag::I128 => 12,
            TypeTag::Isize => 13,
            TypeTag::Array8 => 14,
            TypeTag::Marker(n) => (0x1_0000_0000 + n) as u64,
        }
    }

    /// The name of the type as it appears in messages.
    pub open spec fn spec_name(self) -> Seq<char> {
        match self {
            TypeTag::Unit => "()"@,
            TypeTag::Bool => "bool"@,
            TypeTag::U8 => "u8"@,
            TypeTag::U16 => "u16"@,
            TypeTag::U32 => "u32"@,
            TypeTag::U64 => "u64"@,
            TypeTag::U128 => "u128"@,
            TypeTag::Usize => "usize"@,
            TypeTag::I8 => "i8"@,
            TypeTag::I16 => "i16"@,
            TypeTag::I32 => "i32"@,
            TypeTag::I64 => "i64"@,
            TypeTag::I128 => "i128"@,
            TypeTag::Isize => "isize"@,
            TypeTag::Array8 => "[u8; 8]"@,
            TypeTag::Marker(n) => "Marker<"@ + spec_decimal(n as nat) + ">"@,
        }
    }

    /// The number of bytes that an image of a value of this type occupies.
    pub fn size(&self) -> (n: usize)
        ensures
            n == self.spec_size(),
    {
        match self {
            TypeTag::Unit => 0,
            TypeTag::Bool => 1,
            TypeTag::U8 => 1,
            TypeTag::U16 => 2,
            TypeTag::U32 => 4,
            TypeTag::U64 => 8,
            TypeTag::U128 => 16,
            TypeTag::Usize => 8,
            TypeTag::I8 => 1,
            TypeTag::I16 => 2,
            TypeTag::I32 => 4,
            TypeTag::I64 => 8,
            TypeTag::I128 => 16,
            TypeTag::Isize => 8,
            TypeTag::Array8 => 8,
            TypeTag::Marker(_) => 0,
        }
    }

    /// The fingerprint of the type.
    pub fn id(&self) -> (n: u64)
        ensures
            n == self.spec_id(),
    {
        match self {
            TypeTag::Unit => 0,
            TypeTag::Bool => 1,
            TypeTag::U8 => 2,
            TypeTag::U16 => 3,
            TypeTag::U32 => 4,
            TypeTag::U64 => 5,
            TypeTag::U128 => 6,
            TypeTag::Usize => 7,
            TypeTag::I8 => 8,
            TypeTag::I16 => 9,
            TypeTag::I32 => 10,
            TypeTag::I64 => 11,
            TypeTag::I128 => 12,
            TypeTag::Isize => 13,
            TypeTag::Array8 => 14,
            TypeTag::Marker(n) => {
                let wide: u64 = *n as u64;
                0x1_0000_0000u64 + wide
            },
        }
    }

    /// The name of the type as it appears in messages.
    pub fn name(&self) -> (r: String)
        ensures
            r@ == self.spec_name(),
    {
        match self {
            TypeTag::Unit => String::from_str("()"),
            TypeTag::Bool => String::from_str("bool"),
            TypeTag::U8 => String::from_str("u8"),
            TypeTag::U16 => String::from_str("u16"),
            TypeTag::U32 => String::from_str("u32"),
            TypeTag::U64 => String::from_str("u64"),
            TypeTag::U128 => String::from_str("u128"),
            TypeTag::Usize => String::from_str("usize"),
            TypeTag::I8 => String::from_str("i8"),
            TypeTag::I16 => String::from_str("i16"),
            TypeTag::I32 => String::from_str("i32"),
            TypeTag::I64 => String::from_str("i64"),
            TypeTag::I128 => String::from_str("i128"),
            TypeTag::Isize => String::from_str("isize"),
            TypeTag::Array8 => String::from_str("[u8; 8]"),
            TypeTag::Marker(n) => {
                let digits = decimal(*n);
                String::from_str("Marker<").concat(digits.as_str()).concat(">")
            },
        }
    }

    /// Fingerprints are collision-free: two types with the same fingerprint
    /// are the same type.
    pub proof fn lemma_id_injective(a: TypeTag, b: TypeTag)
        ensures
            a.spec_id() == b.spec_id() <==> a == b,
    {
    }
}

impl Value {
    /// The logical type that the value belongs to.
    pub open spec fn spec_ty(self) -> TypeTag {
        match self {
            Value::Unit => TypeTag::Unit,
            Value::Bool(_) => TypeTag::Bool,
            Value::U8(_) => TypeTag::U8,
            Value::U16(_) => TypeTag::U16,
            Value::U32(_) => TypeTag::U32,
            Value::U64(_) => TypeTag::U64,
            Value::U128(_) => TypeTag::U128,
            Value::Usize(_) => TypeTag::Usize,
            Value::I8(_) => TypeTag::I8,
            Value::I16(_) => TypeTag::I16,
            Value::I32(_) => TypeTag::I32,
            Value::I64(_) => TypeTag::I64,
            Value::I128(_) => TypeTag::I128,
            Value::Isize(_) => TypeTag::Isize,
            Value::Array8(_) => TypeTag::Array8,
            Value::Marker(n) => TypeTag::Marker(n),
        }
    }

    /// The number that an integer value holds; zero for every other value.
    pub open spec fn as_int(self) -> int {
        match self {
            Value::U8(x) => x as int,
            Value::U16(x) => x as int,
            Value::U32(x) => x as int,
            Value::U64(x) => x as int,
            Value::U128(x) => x as int,
            Value::Usize(x) => x as int,
            Value::I8(x) => x as int,
            Value::I16(x) => x as int,
            Value::I32(x) => x as int,
            Value::I64(x) => x as int,
            Value::I128(x) => x as int,
            Value::Isize(x) => x as int,
            _ => 0,
        }
    }

    /// The value of integer type `ty` that holds `i`, for `i` within the
    /// range of `ty`.
    pub open spec fn from_int(ty: TypeTag, i: int) -> Value {
        match ty {
            TypeTag::U8 => Value::U8(i as u8),
            TypeTag::U16 => Value::U16(i as u16),
            TypeTag::U32 => Value::U32(i as u32),
            TypeTag::U64 => Value::U64(i as u64),
            TypeTag::U128 => Value::U128(i as u128),
            TypeTag::Usize => Value::Usize(i as usize),
            TypeTag::I8 => Value::I8(i as i8),
            TypeTag::I16 => Value::I16(i as i16),
            TypeTag::I32 => Value::I32(i as i32),
            TypeTag::I64 => Value::I64(i as i64),
            TypeTag::I128 => Value::I128(i as i128),
            TypeTag::Isize => Value::Isize(i as isize),
            _ => Value::Unit,
        }
    }

    /// The logical type that the value belongs to.
    pub fn ty(&self) -> (t: TypeTag)
        ensures
            t == self.spec_ty(),
    {
        match self {
            Value::Unit => TypeTag::Unit,
            Value::Bool(_) => TypeTag::Bool,
            Value::U8(_) => TypeTag::U8,
            Value::U16(_) => TypeTag::U16,
            Value::U32(_) => TypeTag::U32,
            Value::U64(_) => TypeTag::U64,
            Value::U128(_) => TypeTag::U128,
            Value::Usize(_) => TypeTag::Usize,
            Value::I8(_) => TypeTag::I8,
            Value::I16(_) => TypeTag::I16,
            Value::I32(_) => TypeTag::I32,
            Value::I64(_) => TypeTag::I64,
            Value::I128(_) => TypeTag::I128,
            Value::Isize(_) => TypeTag::Isize,
            Value::Array8(_) => TypeTag::Array8,
            Value::Marker(n) => TypeTag::Marker(*n),
        }
    }
}

} // verus!
