//! A typed, key-indexed environment and a deferred expression algebra.
//!
//! Expressions are built from literal leaves and operators without computing
//! anything; a value is produced only when an expression is forced. An
//! environment binds keys to such expressions and resolves lookups with
//! shadowing and tombstones.
//!
//! - [`types`]: the logical types and their values.
//! - [`bytes`]: the byte image of a value, and reading it back.
//! - [`fault`]: the ways in which forcing can fail, and their messages.
//! - [`ops`]: what the operators compute on values.
//! - [`value`]: the expressions.
//! - [`env`]: the environment.

pub mod bytes;
pub mod env;
pub mod fault;
pub mod ops;
pub mod types;
pub mod value;
