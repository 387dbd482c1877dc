use authcore::errors::Unauthorized;
use authcore::guard::{authenticate, has_role};
use authcore::token::issue;

const SECRET: &[u8] = b"test-signing-secret";
const T0: u64 = 1_700_000_000;

fn bearer_header(token: &str) -> String {
    format!("Bearer {}", token)
}

#[test]
fn valid_bearer_token_yields_the_principal() {
    let token = issue(&"user-7".to_string(), &"user".to_string(), T0, SECRET);
    let header = bearer_header(&token);
    let principal = authenticate(Some(&header), T0 + 10, SECRET).expect("guard should accept");
    assert_eq!(principal.0.user_id, "user-7");
    assert_eq!(principal.0.role, "user");
}

#[test]
fn surrounding_whitespace_around_the_token_is_trimmed() {
    let token = issue(&"user-7".to_string(), &"user".to_string(), T0, SECRET);
    let header = format!("Bearer   {}  ", token);
    let principal = authenticate(Some(&header), T0 + 10, SECRET).expect("guard should accept");
    assert_eq!(principal.0.user_id, "user-7");
}

#[test]
fn expired_token_and_missing_header_are_indistinguishable() {
    let token = issue(&"user-7".to_string(), &"user".to_string(), T0, SECRET);
    let header = bearer_header(&token);
    let after_expiry = T0 + authcore::token::TOKEN_TTL_SECONDS + 1;
    let with_expired = authenticate(Some(&header), after_expiry, SECRET);
    let with_nothing = authenticate(None, after_expiry, SECRET);
    assert_eq!(with_expired.unwrap_err(), Unauthorized);
    assert_eq!(with_nothing.unwrap_err(), Unauthorized);
}

#[test]
fn malformed_headers_are_rejected_uniformly() {
    let token = issue(&"user-7".to_string(), &"user".to_string(), T0, SECRET);
    let cases = vec![
        String::new(),
        "   ".to_string(),
        token.clone(),                      // no scheme at all
        format!("bearer {}", token),        // wrong case: the prefix is case-sensitive
        format!("Bearer{}", token),         // missing space
        format!("Basic {}", token),         // wrong scheme
        "Bearer ".to_string(),              // empty token
        "Bearer     ".to_string(),          // whitespace-only token
        "Bearer not-a-token".to_string(),   // garbage token
    ];
    for header in &cases {
        let r = authenticate(Some(header), T0 + 10, SECRET);
        assert_eq!(r.unwrap_err(), Unauthorized, "header {:?} was not rejected", header);
    }
}

#[test]
fn tampered_token_is_rejected() {
    let token = issue(&"user-7".to_string(), &"user".to_string(), T0, SECRET);
    let mut tampered = token.clone();
    let last = tampered.pop().unwrap();
    tampered.push(if last == 'A' { 'B' } else { 'A' });
    let header = bearer_header(&tampered);
    assert_eq!(authenticate(Some(&header), T0 + 10, SECRET).unwrap_err(), Unauthorized);
}

#[test]
fn role_check_is_exact_and_case_sensitive() {
    let token = issue(&"user-7".to_string(), &"Admin".to_string(), T0, SECRET);
    let header = bearer_header(&token);
    let principal = authenticate(Some(&header), T0 + 10, SECRET).unwrap();
    assert!(has_role(&principal, &"Admin".to_string()));
    assert!(!has_role(&principal, &"admin".to_string()));
    assert!(!has_role(&principal, &"Admin ".to_string()));
}
