//! The binding's error taxonomy.

use vstd::prelude::*;

verus! {

/// A structured error reported by the foreign YAML engine itself: the engine
/// answered, but with its error envelope rather than with data.
#[derive(Debug)]
pub struct LibYSError {
    /// The error message.
    pub cause: String,
    /// The internal type of the error.
    pub type_: String,
    /// Optional error message.
    pub message: Option<String>,
}

/// An error with the binding.
#[derive(Debug)]
pub enum Error {
    /// The shared library was not found in any search location.
    NotFound,
    /// The dynamic loader failed to open a library file that does exist, or
    /// to resolve a symbol in it; carries the loader's diagnostic.
    Load(String),
    /// Isolate creation returned a non-zero code.
    GraalVM(i32),
    /// A contract violation at the foreign-call boundary: an input with an
    /// embedded nul byte, or a foreign call that returned null.
    Ffi(String),
    /// The foreign engine reported a structured error (for instance on
    /// malformed YAML).
    YAMLStar(LibYSError),
    /// The success payload's shape did not match what was asked for.
    Serde(String),
    /// Bytes returned from the foreign engine were not valid UTF-8.
    Utf8(String),
}

} // verus!
