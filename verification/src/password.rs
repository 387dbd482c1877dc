//! Memory-hard one-way password hashing and verification, built on the
//! Argon2id implementation of the `argon2` crate. The hash is a
//! self-describing PHC-format string; verification reparses it and
//! recomputes the digest, so its outcome is a pure function of the hash
//! string and the candidate password.
use vstd::prelude::*;

use crate::errors::PasswordError;

verus! {

/// Whether a stored hash string reparses as a PHC-format hash: the outcome
/// of `argon2::PasswordHash::new` on it.
pub uninterp spec fn phc_parses(hash: Seq<char>) -> bool;

/// Whether a candidate password verifies against a stored hash string: the
/// outcome of `argon2::Argon2::verify_password` with the parameters and salt
/// embedded in the hash.
pub uninterp spec fn phc_verifies(hash: Seq<char>, password: Seq<char>) -> bool;

/// Relies on `argon2::Argon2::hash_password` (Argon2id, the crate's default
/// parameters) with a fresh random salt from
/// `argon2::password_hash::SaltString::generate(OsRng)`, and on
/// `PasswordHashString::to_string` rendering the PHC format. The salt is
/// random, so nothing relates the outputs of two calls; every successful
/// output reparses and verifies against exactly the password it was derived
/// from, which is what the PHC password-hash contract documents.
#[verifier::external_body]
fn argon2_hash(password: &str) -> (r: Result<String, ()>)
    ensures
        r matches Ok(h) ==> phc_parses(h@),
        r matches Ok(h) ==> phc_verifies(h@, password@),
        r matches Ok(h) ==> forall|other: Seq<char>|
            other != password@ ==> !phc_verifies(h@, other),
{
    let salt = argon2::password_hash::SaltString::generate(
        &mut argon2::password_hash::rand_core::OsRng,
    );
    match argon2::PasswordHasher::hash_password(
        &argon2::Argon2::default(),
        password.as_bytes(),
        &salt,
    ) {
        Ok(h) => Ok(h.to_string()),
        Err(_) => Err(()),
    }
}

/// Relies on `argon2::PasswordHash::new` to reparse the PHC string and on
/// `argon2::Argon2::verify_password` to recompute the digest with the
/// embedded parameters and salt and compare in constant time: both outcomes
/// are pure functions of the hash string and the password.
#[verifier::external_body]
fn argon2_check(password: &str, hash: &str) -> (r: Result<bool, ()>)
    ensures
        r is Ok <==> phc_parses(hash@),
        r matches Ok(b) ==> b == phc_verifies(hash@, password@),
{
    let parsed = match argon2::PasswordHash::new(hash) {
        Ok(p) => p,
        Err(_) => return Err(()),
    };
    Ok(
        argon2::PasswordVerifier::verify_password(
            &argon2::Argon2::default(),
            password.as_bytes(),
            &parsed,
        ).is_ok(),
    )
}

/// Derives a fresh salted hash of `password`. Fails only on an internal
/// entropy or allocation fault, never on the content of the password; the
/// result verifies against `password` and against nothing else.
pub fn hash(password: &str) -> (r: Result<String, PasswordError>)
    ensures
        r matches Ok(h) ==> phc_parses(h@),
        r matches Ok(h) ==> phc_verifies(h@, password@),
        r matches Ok(h) ==> forall|other: Seq<char>|
            other != password@ ==> !phc_verifies(h@, other),
        r is Err ==> r == Err::<String, PasswordError>(PasswordError::HashingFailure),
{
    match argon2_hash(password) {
        Ok(h) => Ok(h),
        Err(_) => Err(PasswordError::HashingFailure),
    }
}

/// Verifies `password` against a stored hash string. A hash string that does
/// not reparse is reported as a distinct internal fault rather than as a
/// wrong password, so corruption is never masked as user error.
pub fn verify(password: &str, hash_string: &str) -> (r: Result<bool, PasswordError>)
    ensures
        phc_parses(hash_string@) ==> r == Ok::<bool, PasswordError>(
            phc_verifies(hash_string@, password@),
        ),
        !phc_parses(hash_string@) ==> r == Err::<bool, PasswordError>(
            PasswordError::MalformedHash,
        ),
{
    match argon2_check(password, hash_string) {
        Ok(b) => Ok(b),
        Err(_) => Err(PasswordError::MalformedHash),
    }
}

} // verus!
