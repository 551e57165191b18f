//! What the table derive reads from a struct: the column types of its fields,
//! the `#[geekorm(..)]` attributes on them, and the columns they describe.
//!
//! Fields, types and attributes are handled here as plain values; turning Rust
//! syntax into them, and the generated code back into syntax, is left to the
//! macro front end.
use vstd::prelude::*;

pub mod attr;
pub mod backend;
pub mod column;
pub mod columntypes;
pub mod data;
pub mod multitable;
pub mod table;

verus! {

/// An error of the derive: its message.
#[derive(Debug, Clone, PartialEq, Eq)]
pub struct DeriveError {
    /// The message shown to the user
    pub message: String,
}

/// The optional features the derive was built with.
#[derive(Debug, Clone, Copy, PartialEq, Eq, Structural)]
pub struct DeriveFeatures {
    /// Generated `new` constructors
    pub new: bool,
    /// Random values
    pub rand: bool,
    /// Hashed values
    pub hash: bool,
    /// UUID columns
    pub uuid: bool,
    /// Date-time columns
    pub chrono: bool,
}

} // verus!
