//! Compact signed session tokens: issuance from a claim set and
//! verification back into one, built on the HMAC-SHA256 signing of the
//! `jsonwebtoken` crate. The signature check is delegated to the crate; the
//! expiry check against the caller's clock reading is verified here.
use vstd::prelude::*;

use jsonwebtoken::errors::ErrorKind;
use jsonwebtoken::{decode, encode, Algorithm, DecodingKey, EncodingKey, Header, Validation};
use serde_json::Value;

use crate::errors::TokenError;
use crate::text::no_space;

verus! {

/// How long an issued token stays valid, in seconds: 24 hours.
pub const TOKEN_TTL_SECONDS: u64 = 86400;

/// The claim set a token carries. Immutable once issued.
#[derive(Clone, Debug)]
pub struct Claims {
    /// The subject: the account's `user_id`.
    pub user_id: String,
    /// The subject's role, as it was at issuance.
    pub role: String,
    /// Absolute expiry timestamp, in seconds since the epoch.
    pub exp: u64,
}

/// The compact signed token that encoding a claim set with a given secret
/// produces: the outcome of `jsonwebtoken::encode`, a pure function of the
/// claims and the key.
pub uninterp spec fn token_of(
    user_id: Seq<char>,
    role: Seq<char>,
    exp: u64,
    secret: Seq<u8>,
) -> Seq<char>;

/// The claim set that signature-checking a compact token with a given
/// secret recovers, or nothing if the token is malformed or the signature
/// does not match: the outcome of `jsonwebtoken::decode`, a pure function of
/// the token and the key.
pub uninterp spec fn decoded_of(token: Seq<char>, secret: Seq<u8>) -> Option<
    (Seq<char>, Seq<char>, u64),
>;

/// A token that verification accepts at time `now`: it signature-checks and
/// its expiry lies strictly in the future.
pub open spec fn accepted(token: Seq<char>, now: u64, secret: Seq<u8>) -> bool {
    match decoded_of(token, secret) {
        Some(c) => c.2 > now,
        None => false,
    }
}

/// Relies on `jsonwebtoken::encode` with `Header::default()` (HS256) and
/// `jsonwebtoken::EncodingKey::from_secret`: the token is a deterministic
/// function of the claims and the key, and `jsonwebtoken::decode` with the
/// same key recovers exactly the claims that were encoded. Encoding cannot
/// fail here — its only error paths are a key-family mismatch, ruled out by
/// `from_secret`, and serialization of the header and of this claims object,
/// which is infallible — so the unwrap never fires. The output is two
/// base64url-alphabet parts and a signature joined by dots: never empty and
/// never containing whitespace.
#[verifier::external_body]
fn jwt_encode(user_id: &String, role: &String, exp: u64, secret: &[u8]) -> (t: String)
    ensures
        t@ == token_of(user_id@, role@, exp, secret@),
        decoded_of(t@, secret@) == Some((user_id@, role@, exp)),
        t@.len() > 0,
        no_space(t@),
{
    let mut claims = serde_json::Map::new();
    claims.insert("id".to_string(), Value::String(user_id.clone()));
    claims.insert("role".to_string(), Value::String(role.clone()));
    claims.insert("exp".to_string(), Value::from(exp));
    encode(&Header::default(), &Value::Object(claims), &EncodingKey::from_secret(secret)).unwrap()
}

/// Relies on `jsonwebtoken::decode` with `DecodingKey::from_secret` and
/// HS256 validation, with the crate's own wall-clock expiry check switched
/// off so that the outcome is a pure function of token and key; the expiry
/// rule is enforced by the verified caller. An error kind other than
/// `InvalidSignature` is reported as a malformed token.
#[verifier::external_body]
fn jwt_decode(token: &str, secret: &[u8]) -> (r: Result<(String, String, u64), TokenError>)
    ensures
        r matches Ok(c) ==> decoded_of(token@, secret@) == Some((c.0@, c.1@, c.2)),
        r is Err ==> decoded_of(token@, secret@) is None,
        r matches Err(e) ==> e == TokenError::Malformed || e == TokenError::BadSignature,
{
    let mut validation = Validation::new(Algorithm::HS256);
    validation.validate_exp = false;
    let data = match decode::<Value>(token, &DecodingKey::from_secret(secret), &validation) {
        Ok(d) => d.claims,
        Err(e) => {
            let bad_sig = matches!(e.kind(), ErrorKind::InvalidSignature);
            return Err(if bad_sig { TokenError::BadSignature } else { TokenError::Malformed });
        },
    };
    match (data.get("id").and_then(Value::as_str), data.get("role").and_then(Value::as_str), data.get("exp").and_then(Value::as_u64)) {
        (Some(id), Some(role), Some(exp)) => Ok((id.to_string(), role.to_string(), exp)),
        _ => Err(TokenError::Malformed),
    }
}

/// Issues a signed token for `user_id` with `role`, expiring a fixed TTL
/// after `now`. Issuance never fails and never depends on the content of
/// the subject or the role; the one precondition is the machine bound on
/// the expiry sum.
pub fn issue(user_id: &String, role: &String, now: u64, secret: &[u8]) -> (t: String)
    requires
        now + TOKEN_TTL_SECONDS <= u64::MAX,
    ensures
        t@ == token_of(user_id@, role@, (now + TOKEN_TTL_SECONDS) as u64, secret@),
        decoded_of(t@, secret@) == Some(
            (user_id@, role@, (now + TOKEN_TTL_SECONDS) as u64),
        ),
        t@.len() > 0,
        no_space(t@),
{
    let exp = now + TOKEN_TTL_SECONDS;
    jwt_encode(user_id, role, exp, secret)
}

/// Law: a token whose embedded expiry is `exp` — as every token issued at
/// `t0` has `exp == t0` plus the TTL — is accepted at every instant strictly
/// before `exp` and refused from `exp` on, whatever else it carries.
pub proof fn lemma_acceptance_window(
    token: Seq<char>,
    user_id: Seq<char>,
    role: Seq<char>,
    exp: u64,
    now: u64,
    secret: Seq<u8>,
)
    requires
        decoded_of(token, secret) == Some((user_id, role, exp)),
    ensures
        accepted(token, now, secret) <==> now < exp,
{
}

/// Verifies a compact token at time `now`: the signature is checked first,
/// then the expiry. Success is owed exactly when the token signature-checks
/// and has not expired, and the returned claims are exactly the decoded
/// ones; an expired token is reported as expired, any other failure as
/// malformed or badly signed, and all three collapse to one external
/// outcome at the guard.
pub fn verify(token: &str, now: u64, secret: &[u8]) -> (r: Result<Claims, TokenError>)
    ensures
        r is Ok <==> accepted(token@, now, secret@),
        r matches Ok(c) ==> decoded_of(token@, secret@) == Some((c.user_id@, c.role@, c.exp))
            && c.exp > now,
        r == Err::<Claims, TokenError>(TokenError::Expired) <==> (decoded_of(token@, secret@)
            matches Some(c) && c.2 <= now),
        decoded_of(token@, secret@) is None ==> r == Err::<Claims, TokenError>(
            TokenError::Malformed,
        ) || r == Err::<Claims, TokenError>(TokenError::BadSignature),
{
    match jwt_decode(token, secret) {
        Ok((user_id, role, exp)) => {
            if exp > now {
                Ok(Claims { user_id, role, exp })
            } else {
                Err(TokenError::Expired)
            }
        },
        Err(e) => Err(e),
    }
}

} // verus!
