//! Error taxonomy of the credential core: validation failures are specific
//! and safe to disclose, authentication failures are a single uniform
//! outcome, and internal faults carry no detail out.
use vstd::prelude::*;

verus! {

/// A malformed or insufficient request payload, reported with a specific
/// client-visible cause.
#[derive(Clone, Copy, Debug, PartialEq, Eq, Structural)]
pub enum ValidationError {
    /// The email does not contain `@`.
    InvalidEmail,
    /// The username is empty once trimmed, or the password is shorter than
    /// the minimum length.
    WeakPassword,
    /// The password and its confirmation differ.
    PasswordMismatch,
}

/// Why a token failed verification. All variants map to the same external
/// outcome, so the reason never leaks to a client.
#[derive(Clone, Copy, Debug, PartialEq, Eq, Structural)]
pub enum TokenError {
    /// The token is structurally not a valid signed token.
    Malformed,
    /// The signature does not match the payload.
    BadSignature,
    /// The signature matches but the expiry time has passed.
    Expired,
}

/// A failure inside the password hasher.
#[derive(Clone, Copy, Debug, PartialEq, Eq, Structural)]
pub enum PasswordError {
    /// The hasher itself failed (entropy or allocation fault); never caused
    /// by the content of the password.
    HashingFailure,
    /// The stored hash string failed to reparse. Distinguished internally so
    /// corruption is not masked as a wrong password, while the
    /// client-visible outcome stays identical.
    MalformedHash,
}

/// The single uniform unauthorized outcome. It is a unit type on purpose:
/// a missing header, a malformed token, a bad signature and an expired
/// token are indistinguishable to the caller.
#[derive(Clone, Copy, Debug, PartialEq, Eq, Structural)]
pub struct Unauthorized;

/// Outcome of a failed registration.
#[derive(Clone, Copy, Debug, PartialEq, Eq, Structural)]
pub enum RegisterError {
    /// The payload failed validation; carries the specific cause.
    Validation(ValidationError),
    /// The username or email is already registered.
    Conflict,
    /// The password hasher failed; no internal detail is disclosed.
    Internal,
}

/// Outcome of a failed login.
#[derive(Clone, Copy, Debug, PartialEq, Eq, Structural)]
pub enum LoginError {
    /// The payload failed validation; carries the specific cause.
    Validation(ValidationError),
    /// Unknown account or wrong password: one uniform outcome for both, so
    /// responses cannot be used to enumerate accounts.
    Unauthorized,
    /// The stored hash failed to reparse; no internal detail is disclosed.
    Internal,
}

} // verus!
