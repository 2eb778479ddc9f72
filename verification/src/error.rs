//! Closed error taxonomy of the bridge.
//!
//! Every engine failure and marshalling failure is reported through one of
//! these kinds, each carrying a human-readable message.

use vstd::prelude::*;

verus! {

/// Error kinds that the bridge reports to the host.
///
/// - `ConnectionFailed`: the engine could not open the requested target.
/// - `QuerySyntaxError`: reserved for SQL-level rejections; kept available for
///   callers that want to branch on it, though engine rejections currently
///   surface as `DatabaseError`.
/// - `DatabaseError`: catch-all for engine execution failures, lock
///   poisoning, and value-decoding failures during result marshalling.
#[derive(Clone, Debug, PartialEq)]
pub enum DuckyError {
    ConnectionFailed(String),
    QuerySyntaxError(String),
    DatabaseError(String),
}

impl DuckyError {
    /// The human-readable message carried by this error.
    pub open spec fn spec_message(&self) -> Seq<char> {
        match self {
            DuckyError::ConnectionFailed(m) => m@,
            DuckyError::QuerySyntaxError(m) => m@,
            DuckyError::DatabaseError(m) => m@,
        }
    }

    /// Returns the carried message.
    pub fn message(&self) -> (r: &String)
        ensures
            r@ == self.spec_message(),
    {
        match self {
            DuckyError::ConnectionFailed(m) => m,
            DuckyError::QuerySyntaxError(m) => m,
            DuckyError::DatabaseError(m) => m,
        }
    }
}

/// Encoder-local error: a bind term could not be matched to any supported
/// parameter type.
#[derive(Clone, Debug, PartialEq)]
pub struct UnsupportedParameterError {
    pub message: String,
}

} // verus!
