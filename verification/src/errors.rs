//! Error types used to signal problems with requests.

use vstd::prelude::*;

verus! {

/// What can go wrong while talking to the API.
#[derive(Debug, Clone, Copy, PartialEq, Eq, Structural)]
pub enum APIError {
    /// The server answered with a status outside the 2xx range.
    HTTPError(u16),
    /// A listing or comment tree was asked for more than it holds.
    ExhaustedListing,
    /// The body of a response did not have the expected shape.
    JSONError,
    /// The request never reached the server, or the answer never came back.
    TransportError,
}

impl APIError {
    /// `true` for the errors that a caller may meet again by simply repeating
    /// the call: a lost connection, and any HTTP status.
    pub fn is_retryable(&self) -> (r: bool)
        ensures
            r == (*self is TransportError || *self is HTTPError),
    {
        match self {
            APIError::TransportError => true,
            APIError::HTTPError(_) => true,
            _ => false,
        }
    }

    /// `true` for the one status family that points at a stale token: 401 and
    /// 403.
    pub fn needs_reauthentication(&self) -> (r: bool)
        ensures
            r == (*self == APIError::HTTPError(401) || *self == APIError::HTTPError(403)),
    {
        match self {
            APIError::HTTPError(code) => *code == 401 || *code == 403,
            _ => false,
        }
    }
}

} // verus!
