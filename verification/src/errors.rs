//! Error values surfaced by the builder and the client.

use vstd::prelude::*;

verus! {

/// Everything that can go wrong locally, before any network traffic:
/// reading a parameter that was never set, or handing the client a header
/// mapping that cannot be put on the wire.
#[derive(Clone, Copy, Debug, PartialEq, Eq, Structural)]
pub enum ApiError {
    /// A typed getter was invoked for a parameter whose setter was never
    /// called.
    MissingParameter,
    /// A header name or value contains characters that are not permitted on
    /// the wire.
    InvalidHeaders,
}

impl ApiError {
    /// A human-readable description of the error.
    pub fn message(&self) -> (r: &'static str)
        ensures
            *self is MissingParameter ==> r@ == "missing parameter"@,
            *self is InvalidHeaders ==> r@ == "invalid headers"@,
    {
        match self {
            ApiError::MissingParameter => "missing parameter",
            ApiError::InvalidHeaders => "invalid headers",
        }
    }
}

} // verus!
