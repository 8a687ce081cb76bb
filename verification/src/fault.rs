//! The ways in which forcing an expression can fail.
//!
//! None of them can be recovered from: whoever forces an expression and gets
//! a fault is expected to stop with the fault's message.

use crate::types::TypeTag;
use vstd::prelude::*;
use vstd::string::*;

verus! {

/// Why forcing an expression failed.
#[derive(Clone, Copy, Debug, PartialEq, Eq, Structural)]
pub enum Fault {
    /// The lookup reached the end of the chain, or a tombstone for the key.
    KeyNotFound { key: TypeTag },
    /// The key is bound, but to an expression of another type than was asked
    /// for; or a transform gave a value of another type than was declared.
    TypeMismatch { expected: TypeTag, found: TypeTag },
    /// Overflow, division or remainder by zero, or a shift out of range.
    Arithmetic,
    /// An index past the end of its container.
    Index,
    /// A transform that carries captured state.
    Misuse,
}

/// The two texts one after the other.
pub fn str_concat(s1: &str, s2: &str) -> (r: String)
    ensures
        r@ == s1@ + s2@,
{
    String::from_str(s1).concat(s2)
}

/// The message for a key that has no visible binding.
pub open spec fn spec_error_not_found(key: TypeTag) -> Seq<char> {
    "The key `"@ + key.spec_name() + "` is not found in current context."@
}

/// The message for a binding whose type is not the one asked for.
pub open spec fn spec_error_unexpected_type(expected: TypeTag, found: TypeTag) -> Seq<char> {
    ("Mismatched types: expected `"@ + expected.spec_name()) + ("`, found `"@ + (found.spec_name()
        + "`."@))
}

/// The message for a key that has no visible binding.
pub fn error_not_found(key: TypeTag) -> (r: String)
    ensures
        r@ == spec_error_not_found(key),
{
    let key_name = key.name();
    let head = str_concat("The key `", key_name.as_str());
    str_concat(head.as_str(), "` is not found in current context.")
}

/// The message for a binding whose type is not the one asked for.
pub fn error_unexpected_type(expected: TypeTag, found: TypeTag) -> (r: String)
    ensures
        r@ == spec_error_unexpected_type(expected, found),
{
    let expected_name = expected.name();
    let found_name = found.name();
    let head = str_concat("Mismatched types: expected `", expected_name.as_str());
    let close = str_concat(found_name.as_str(), "`.");
    let tail = str_concat("`, found `", close.as_str());
    str_concat(head.as_str(), tail.as_str())
}

impl Fault {
    /// The text to stop with.
    pub open spec fn spec_message(self) -> Seq<char> {
        match self {
            Fault::KeyNotFound { key } => spec_error_not_found(key),
            Fault::TypeMismatch { expected, found } => spec_error_unexpected_type(expected, found),
            Fault::Arithmetic => "Arithmetic fault: overflow, division by zero or shift out of range."@,
            Fault::Index => "Index out of bounds."@,
            Fault::Misuse => "A transform must not capture any state."@,
        }
    }

    /// The text to stop with.
    pub fn message(&self) -> (r: String)
        ensures
            r@ == self.spec_message(),
    {
        match self {
            Fault::KeyNotFound { key } => error_not_found(*key),
            Fault::TypeMismatch { expected, found } => error_unexpected_type(*expected, *found),
            Fault::Arithmetic => String::from_str(
                "Arithmetic fault: overflow, division by zero or shift out of range.",
            ),
            Fault::Index => String::from_str("Index out of bounds."),
            Fault::Misuse => String::from_str("A transform must not capture any state."),
        }
    }
}

} // verus!
