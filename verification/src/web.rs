pub mod error;
pub mod mw_auth;
pub mod routes_login;
pub mod rpc;

use vstd::prelude::*;

use crate::crypt::token::Token;

pub use error::Error;

verus! {

/// The name of the cookie that carries the serialized token.
pub const AUTH_TOKEN: &'static str = "auth-token";

/// How long a freshly issued token lives, in seconds.  Every successful
/// resolution re-issues the cookie with this window (sliding expiration).
pub const TOKEN_DURATION_SEC: u64 = 1800;

/// What the routing layer must do to the auth cookie after a request:
/// leave it alone, set it to a freshly signed token, or clear it because
/// the one presented was poisoned.
#[derive(Debug)]
pub enum CookieAction {
    Keep,
    Issue(Token),
    Clear,
}

} // verus!
