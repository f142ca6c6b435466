//! Binding-side logic for a dynamically loaded YAML engine.
//!
//! The foreign shared library does the YAML parsing itself; this crate holds
//! the binding's own decisions: where to look for the library file, how to
//! prepare input for the foreign calls, and how to interpret what the calls
//! return.

pub mod bridge;
pub mod decode;
pub mod error;
pub mod isolate;
pub mod loader;
pub mod locator;

pub use error::Error;
pub use error::LibYSError;
