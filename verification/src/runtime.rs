//! The two runtime-supplied values the flows consume — the clock reading and
//! a fresh account identifier — behind trusted wrappers, so the flows
//! themselves stay pure functions of their arguments.
use vstd::prelude::*;

verus! {

/// Relies on `chrono::Utc::now` and `chrono::DateTime::timestamp`: seconds
/// since the epoch, read from the system clock. Nothing is promised of the
/// value; callers take it as an argument and are verified for every reading.
#[verifier::external_body]
pub fn current_timestamp() -> u64 {
    chrono::Utc::now().timestamp() as u64
}

/// Relies on `uuid::Uuid::new_v4` and its `Display` form: a random
/// version-4 UUID rendered hyphenated, which is always 36 characters. Two
/// calls are unrelated; nothing more is promised of the value.
#[verifier::external_body]
pub fn fresh_user_id() -> (r: String)
    ensures
        r@.len() == 36,
{
    uuid::Uuid::new_v4().to_string()
}

} // verus!
