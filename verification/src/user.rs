//! The account data model and the transient request payloads.
use vstd::prelude::*;

verus! {

/// A persisted account. `password_hash` is always the output of the password
/// hasher, never the plaintext; it appears in no response type.
#[derive(Clone, Debug)]
pub struct User {
    pub user_id: String,
    pub username: String,
    pub email: String,
    pub password_hash: String,
    pub first_name: String,
    pub last_name: String,
    pub is_active: bool,
    pub role: String,
    pub created_at: u64,
    pub updated_at: u64,
}

/// A login request payload. Transient, never persisted.
#[derive(Clone, Debug)]
pub struct UserLogin {
    pub email: String,
    pub password: String,
}

/// A registration request payload. Transient, never persisted.
#[derive(Clone, Debug)]
pub struct UserRegister {
    pub username: String,
    pub email: String,
    pub password: String,
    pub confirm_password: String,
    pub first_name: String,
    pub last_name: String,
    pub role: String,
}

/// The client-visible slice of an account: every field of `User` except the
/// password hash, which by construction cannot appear in a response built
/// from this type.
#[derive(Clone, Debug)]
pub struct UserSummary {
    pub user_id: String,
    pub username: String,
    pub email: String,
    pub first_name: String,
    pub last_name: String,
    pub role: String,
    pub created_at: u64,
    pub updated_at: u64,
}

/// The role an account carries, for handler-level authorization decisions.
pub fn check_role(user: User) -> (r: String)
    ensures
        r == user.role,
{
    user.role
}

/// Whether the account is active.
pub fn is_active_user(user: User) -> (r: bool)
    ensures
        r == user.is_active,
{
    user.is_active == true
}

/// The client-visible summary of an account.
pub fn summarize(user: &User) -> (r: UserSummary)
    ensures
        r.user_id == user.user_id,
        r.username == user.username,
        r.email == user.email,
        r.first_name == user.first_name,
        r.last_name == user.last_name,
        r.role == user.role,
        r.created_at == user.created_at,
        r.updated_at == user.updated_at,
{
    UserSummary {
        user_id: user.user_id.clone(),
        username: user.username.clone(),
        email: user.email.clone(),
        first_name: user.first_name.clone(),
        last_name: user.last_name.clone(),
        role: user.role.clone(),
        created_at: user.created_at,
        updated_at: user.updated_at,
    }
}

} // verus!
