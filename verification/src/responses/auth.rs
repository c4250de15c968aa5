//! The answer of the token endpoint.

use vstd::prelude::*;

verus! {

/// A freshly issued access token.
#[derive(Debug, Clone, Default)]
pub struct TokenResponseData {
    /// The token to present with every request.
    pub access_token: String,
    /// Seconds until the token stops being accepted.
    pub expires_in: u64,
    /// The scopes the token covers.
    pub scope: String,
    /// The kind of token, as the server names it.
    pub token_type: String,
}

} // verus!
