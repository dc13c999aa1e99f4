//! OAuth2 client-credentials tokens: the wire shapes and the shared cache.

use vstd::prelude::*;

pub mod token_cache;

verus! {

/// An access token and the clock reading, in milliseconds, from which it is
/// no longer handed out.
#[derive(Debug, Clone)]
pub struct Token {
    pub access_token: String,
    pub expires_at: i64,
}

/// What the token endpoint answers: the bearer value and its lifetime in
/// seconds.
#[derive(Debug, Clone)]
pub struct TokenResponse {
    pub access_token: String,
    pub expires_in: u64,
}

} // verus!
