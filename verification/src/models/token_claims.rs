//! The claims that a session token carries.

use vstd::prelude::*;

verus! {

/// The claims of a session token.
#[derive(Debug)]
pub struct TokenClaims {
    /// The subject: the user's e-mail address.
    pub sub: String,
    /// The key of the user's role.
    pub role_id: i32,
    /// When the token was issued, in seconds since the Unix epoch.
    pub iat: usize,
    /// When the token expires, in seconds since the Unix epoch.
    pub exp: usize,
}

} // verus!
