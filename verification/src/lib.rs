//! Credential lifecycle for a multi-user service: validation of registration
//! and login payloads, password hashing and verification, issuance and
//! verification of signed session tokens, and the request-time guard that
//! turns an `Authorization` header into an authenticated principal.
use vstd::prelude::*;

pub mod errors;
pub mod flows;
pub mod guard;
pub mod password;
pub mod runtime;
pub mod text;
pub mod token;
pub mod user;
pub mod validate;

verus! {

/// Health-check endpoint body.
pub fn ping() -> (r: &'static str)
    ensures
        r@ == "pong"@,
{
    "pong"
}

} // verus!
