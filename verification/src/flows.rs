//! Registration and login orchestration as pure decision functions. The
//! caller performs the store I/O — the uniqueness lookups and the insert —
//! and hands the results in as plain values; every decision in between is
//! verified. Hash-then-persist ordering is by construction: the account
//! value only exists with its hash already inside.
use vstd::prelude::*;

use crate::errors::{LoginError, RegisterError};
use crate::password;
use crate::password::{phc_parses, phc_verifies};
use crate::token::{decoded_of, issue, token_of, TOKEN_TTL_SECONDS};
use crate::user::{User, UserLogin, UserRegister};
use crate::validate::{
    login_verdict, registration_verdict, valid_login, valid_registration, validate_login,
    validate_registration,
};

verus! {

/// A successful registration: the account to persist (the only place the
/// password hash travels) and the freshly issued token.
#[derive(Clone, Debug)]
pub struct Registered {
    pub account: User,
    pub token: String,
}

/// A successful login: the account that matched and the freshly issued
/// token.
#[derive(Clone, Debug)]
pub struct LoggedIn {
    pub account: User,
    pub token: String,
}

/// The registration flow: validate, refuse a taken username or email, hash
/// the password, build the account, issue its first token. Every failing
/// stage short-circuits the rest, so no partial account is ever handed back
/// for persisting. `username_taken` and `email_taken` are the store's
/// answers to the uniqueness pre-checks; `user_id` is the fresh identifier
/// the account will carry; `now` is the caller's clock reading.
pub fn register_flow(
    req: UserRegister,
    username_taken: bool,
    email_taken: bool,
    user_id: String,
    now: u64,
    secret: &[u8],
) -> (r: Result<Registered, RegisterError>)
    requires
        now + TOKEN_TTL_SECONDS <= u64::MAX,
    ensures
        registration_verdict(req) matches Some(e) ==> r == Err::<Registered, RegisterError>(
            RegisterError::Validation(e),
        ),
        valid_registration(req) && (username_taken || email_taken) ==> r == Err::<
            Registered,
            RegisterError,
        >(RegisterError::Conflict),
        r is Ok ==> valid_registration(req) && !username_taken && !email_taken,
        r matches Ok(reg) ==> reg.account.user_id == user_id && reg.account.username
            == req.username && reg.account.email == req.email && reg.account.first_name
            == req.first_name && reg.account.last_name == req.last_name && reg.account.role
            == req.role && reg.account.is_active == true && reg.account.created_at == now
            && reg.account.updated_at == now,
        r matches Ok(reg) ==> phc_parses(reg.account.password_hash@) && phc_verifies(
            reg.account.password_hash@,
            req.password@,
        ) && (forall|other: Seq<char>|
            other != req.password@ ==> !phc_verifies(reg.account.password_hash@, other)),
        r matches Ok(reg) ==> reg.token@ == token_of(
            user_id@,
            req.role@,
            (now + TOKEN_TTL_SECONDS) as u64,
            secret@,
        ) && decoded_of(reg.token@, secret@) == Some(
            (user_id@, req.role@, (now + TOKEN_TTL_SECONDS) as u64),
        ),
        valid_registration(req) && !username_taken && !email_taken && r is Err ==> r == Err::<
            Registered,
            RegisterError,
        >(RegisterError::Internal),
{
    let validated = match validate_registration(req) {
        Ok(v) => v,
        Err(e) => {
            return Err(RegisterError::Validation(e));
        },
    };
    if username_taken || email_taken {
        return Err(RegisterError::Conflict);
    }
    let v = validated.0;
    let password_hash = match password::hash(v.password.as_str()) {
        Ok(h) => h,
        Err(_) => {
            return Err(RegisterError::Internal);
        },
    };
    let account = User {
        user_id,
        username: v.username,
        email: v.email,
        password_hash,
        first_name: v.first_name,
        last_name: v.last_name,
        is_active: true,
        role: v.role,
        created_at: now,
        updated_at: now,
    };
    let token = issue(&account.user_id, &account.role, now, secret);
    Ok(Registered { account, token })
}

/// The login flow: validate, then treat an unknown account and a wrong
/// password identically, then issue a token. `account` is the store's answer
/// to the lookup by email; `now` is the caller's clock reading. An account
/// whose stored hash does not reparse is an internal fault, never a wrong
/// password.
pub fn login_flow(req: UserLogin, account: Option<User>, now: u64, secret: &[u8]) -> (r: Result<
    LoggedIn,
    LoginError,
>)
    requires
        now + TOKEN_TTL_SECONDS <= u64::MAX,
    ensures
        login_verdict(req) matches Some(e) ==> r == Err::<LoggedIn, LoginError>(
            LoginError::Validation(e),
        ),
        valid_login(req) && account is None ==> r == Err::<LoggedIn, LoginError>(
            LoginError::Unauthorized,
        ),
        valid_login(req) && (account matches Some(u) && !phc_parses(u.password_hash@)) ==> r
            == Err::<LoggedIn, LoginError>(LoginError::Internal),
        valid_login(req) && (account matches Some(u) && phc_parses(u.password_hash@)
            && !phc_verifies(u.password_hash@, req.password@)) ==> r == Err::<
            LoggedIn,
            LoginError,
        >(LoginError::Unauthorized),
        valid_login(req) && (account matches Some(u) && phc_parses(u.password_hash@)
            && phc_verifies(u.password_hash@, req.password@)) ==> r is Ok,
        r matches Ok(l) ==> (valid_login(req) && (account matches Some(u) && l.account == u
            && phc_verifies(u.password_hash@, req.password@) && l.token@ == token_of(
            u.user_id@,
            u.role@,
            (now + TOKEN_TTL_SECONDS) as u64,
            secret@,
        ) && decoded_of(l.token@, secret@) == Some(
            (u.user_id@, u.role@, (now + TOKEN_TTL_SECONDS) as u64),
        ))),
{
    let validated = match validate_login(req) {
        Ok(v) => v,
        Err(e) => {
            return Err(LoginError::Validation(e));
        },
    };
    let v = validated.0;
    let u = match account {
        Some(u) => u,
        None => {
            return Err(LoginError::Unauthorized);
        },
    };
    let matches_password = match password::verify(v.password.as_str(), u.password_hash.as_str()) {
        Ok(b) => b,
        Err(_) => {
            return Err(LoginError::Internal);
        },
    };
    if !matches_password {
        return Err(LoginError::Unauthorized);
    }
    let token = issue(&u.user_id, &u.role, now, secret);
    Ok(LoggedIn { account: u, token })
}

} // verus!
