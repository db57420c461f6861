//! The library's error kinds.

use vstd::prelude::*;

verus! {

/// Why a call failed. Each variant carries a human-readable description.
#[derive(Debug, Clone, PartialEq, Eq)]
pub enum CwError {
    /// The exchange with the service did not complete (connection, TLS, I/O).
    Transport(String),
    /// A body or header was not valid JSON, or not of the expected shape.
    Parse(String),
    /// The service answered, but the answer reports a failure (`errors` or `message`).
    Application(String),
    /// A custom field with the requested caption does not exist.
    NotFound(String),
}

} // verus!
