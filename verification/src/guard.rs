//! The request-time guard: pure computation from an `Authorization` header
//! to an authenticated principal. Every failure — missing header, missing
//! `Bearer ` prefix, empty token, bad signature, malformed token, expired
//! token — produces the one uniform unauthorized outcome.
use vstd::prelude::*;

use crate::errors::Unauthorized;
use crate::text::{
    bearer_rest, lemma_trim_spaceless, no_space, spec_trim, strip_bearer, trim_str,
};
use crate::token::{accepted, decoded_of, verify, Claims};

verus! {

/// The principal a verified token yields, for the duration of one request.
#[derive(Clone, Debug)]
pub struct AuthenticatedUser(pub Claims);

/// The token a well-formed `Authorization` header carries: what follows a
/// case-sensitive `Bearer ` prefix, trimmed, if that is non-empty.
pub open spec fn header_token(header: Option<&str>) -> Option<Seq<char>> {
    match header {
        None => None,
        Some(h) => match bearer_rest(h@) {
            None => None,
            Some(rest) => if spec_trim(rest).len() > 0 {
                Some(spec_trim(rest))
            } else {
                None
            },
        },
    }
}

/// A request that the guard accepts at time `now`: its header carries a
/// token that signature-checks and has not expired.
pub open spec fn guard_accepts(header: Option<&str>, now: u64, secret: Seq<u8>) -> bool {
    match header_token(header) {
        Some(t) => accepted(t, now, secret),
        None => false,
    }
}

/// Law: an `Authorization` header that is exactly `Bearer ` followed by a
/// non-empty, whitespace-free token — the shape of every issued token —
/// carries exactly that token, so the guard accepts the header precisely
/// when token verification accepts the token; in particular a freshly
/// issued token authenticates until its expiry and not after.
pub proof fn lemma_bearer_of_issued(h: &str, t: &str, now: u64, secret: Seq<u8>)
    requires
        h@ == "Bearer "@ + t@,
        t@.len() > 0,
        no_space(t@),
    ensures
        header_token(Some(h)) == Some(t@),
        guard_accepts(Some(h), now, secret) == accepted(t@, now, secret),
{
    reveal_strlit("Bearer ");
    assert(h@.subrange(0, 7) =~= "Bearer "@);
    assert(h@.subrange(7, h@.len() as int) =~= t@);
    lemma_trim_spaceless(t@);
}

/// Extracts and verifies the token of an `Authorization` header, producing
/// the authenticated principal. Success is owed exactly when the header
/// carries a well-formed bearer token that signature-checks and has not
/// expired; everything else is the one uniform unauthorized outcome, with no
/// externally visible distinction between the causes.
pub fn authenticate(header: Option<&str>, now: u64, secret: &[u8]) -> (r: Result<
    AuthenticatedUser,
    Unauthorized,
>)
    ensures
        r is Ok <==> guard_accepts(header, now, secret@),
        r matches Ok(u) ==> (header_token(header) matches Some(t) && decoded_of(t, secret@)
            == Some((u.0.user_id@, u.0.role@, u.0.exp)) && u.0.exp > now),
        r is Err ==> r == Err::<AuthenticatedUser, Unauthorized>(Unauthorized),
{
    let h = match header {
        Some(h) => h,
        None => {
            return Err(Unauthorized);
        },
    };
    let rest = match strip_bearer(h) {
        Some(rest) => rest,
        None => {
            return Err(Unauthorized);
        },
    };
    let tok = trim_str(rest);
    if tok.is_empty() {
        return Err(Unauthorized);
    }
    match verify(tok, now, secret) {
        Ok(claims) => Ok(AuthenticatedUser(claims)),
        Err(_) => Err(Unauthorized),
    }
}

/// Pure, case-sensitive role equality for handler-level authorization; no
/// normalization is applied, which callers must account for when assigning
/// roles.
pub fn has_role(user: &AuthenticatedUser, expected: &String) -> (r: bool)
    ensures
        r == (user.0.role@ == expected@),
{
    user.0.role == *expected
}

} // verus!
