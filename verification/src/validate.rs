//! Syntactic validation of registration and login payloads. Checks run in a
//! fixed order and the first failing rule decides the error.
use vstd::prelude::*;

use crate::errors::ValidationError;
use crate::text::{contains_char, spec_trim, trim_str};
use crate::user::{UserLogin, UserRegister};

verus! {

/// Minimum password length, in bytes of its UTF-8 form.
pub const MIN_PASSWORD_BYTES: usize = 8;

/// An email is acceptable when it contains `@`.
pub open spec fn valid_email(email: Seq<char>) -> bool {
    email.contains('@')
}

/// A username is acceptable when it is non-empty once trimmed.
pub open spec fn valid_username(username: Seq<char>) -> bool {
    spec_trim(username).len() > 0
}

/// A password is acceptable when its UTF-8 form has at least the minimum
/// number of bytes.
pub open spec fn valid_password(password: Seq<char>) -> bool {
    vstd::utf8::encode_utf8(password).len() >= MIN_PASSWORD_BYTES
}

/// The first rule a registration payload breaks, if any: email, then
/// username and password length, then password confirmation.
pub open spec fn registration_verdict(req: UserRegister) -> Option<ValidationError> {
    if !valid_email(req.email@) {
        Some(ValidationError::InvalidEmail)
    } else if !valid_username(req.username@) || !valid_password(req.password@) {
        Some(ValidationError::WeakPassword)
    } else if req.password@ != req.confirm_password@ {
        Some(ValidationError::PasswordMismatch)
    } else {
        None
    }
}

/// A registration payload that passes every rule.
pub open spec fn valid_registration(req: UserRegister) -> bool {
    registration_verdict(req) is None
}

/// The first rule a login payload breaks, if any: email, then password
/// length. Deliberately lighter than registration: it guards against
/// malformed requests only, not against wrong credentials.
pub open spec fn login_verdict(req: UserLogin) -> Option<ValidationError> {
    if !valid_email(req.email@) {
        Some(ValidationError::InvalidEmail)
    } else if !valid_password(req.password@) {
        Some(ValidationError::WeakPassword)
    } else {
        None
    }
}

/// A login payload that passes every rule.
pub open spec fn valid_login(req: UserLogin) -> bool {
    login_verdict(req) is None
}

/// A registration payload that validation has accepted.
#[derive(Clone, Debug)]
pub struct ValidatedRegistration(pub UserRegister);

/// A login payload that validation has accepted.
#[derive(Clone, Debug)]
pub struct ValidatedLogin(pub UserLogin);

/// Checks a registration payload against every rule, returning the payload
/// as accepted or the first rule it breaks.
pub fn validate_registration(req: UserRegister) -> (r: Result<
    ValidatedRegistration,
    ValidationError,
>)
    ensures
        r matches Ok(v) ==> v.0 == req && valid_registration(req),
        r matches Err(e) ==> registration_verdict(req) == Some(e),
        r is Ok <==> valid_registration(req),
{
    if !contains_char(req.email.as_str(), '@') {
        return Err(ValidationError::InvalidEmail);
    }
    let trimmed_username = trim_str(req.username.as_str());
    if trimmed_username.is_empty() || req.password.as_str().as_bytes().len() < MIN_PASSWORD_BYTES {
        return Err(ValidationError::WeakPassword);
    }
    if !(req.password == req.confirm_password) {
        return Err(ValidationError::PasswordMismatch);
    }
    Ok(ValidatedRegistration(req))
}

/// Checks a login payload against the email and password-length rules,
/// returning the payload as accepted or the first rule it breaks.
pub fn validate_login(req: UserLogin) -> (r: Result<ValidatedLogin, ValidationError>)
    ensures
        r matches Ok(v) ==> v.0 == req && valid_login(req),
        r matches Err(e) ==> login_verdict(req) == Some(e),
        r is Ok <==> valid_login(req),
{
    if !contains_char(req.email.as_str(), '@') {
        return Err(ValidationError::InvalidEmail);
    }
    if req.password.as_str().as_bytes().len() < MIN_PASSWORD_BYTES {
        return Err(ValidationError::WeakPassword);
    }
    Ok(ValidatedLogin(req))
}

/// Law: with an acceptable email and username, a password under the minimum
/// length is rejected as weak whatever its confirmation says, and one of at
/// least the minimum length with a matching confirmation passes validation.
pub proof fn lemma_password_policy(req: UserRegister)
    requires
        valid_email(req.email@),
        valid_username(req.username@),
    ensures
        !valid_password(req.password@) ==> registration_verdict(req) == Some(
            ValidationError::WeakPassword,
        ),
        valid_password(req.password@) && req.password@ == req.confirm_password@
            ==> registration_verdict(req) is None,
{
}

/// Law: a mismatched confirmation is reported as a mismatch for every
/// password that reaches the rule, that is, whenever the earlier email,
/// username and length rules pass; a password under the minimum length is
/// reported as weak first, since the rules run in a fixed order.
pub proof fn lemma_mismatch_reported(req: UserRegister)
    requires
        valid_email(req.email@),
        valid_username(req.username@),
        valid_password(req.password@),
        req.password@ != req.confirm_password@,
    ensures
        registration_verdict(req) == Some(ValidationError::PasswordMismatch),
{
}

} // verus!
