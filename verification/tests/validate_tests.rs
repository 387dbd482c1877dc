use authcore::errors::ValidationError;
use authcore::user::{UserLogin, UserRegister};
use authcore::validate::{validate_login, validate_registration};

fn registration(username: &str, email: &str, password: &str, confirm: &str) -> UserRegister {
    UserRegister {
        username: username.to_string(),
        email: email.to_string(),
        password: password.to_string(),
        confirm_password: confirm.to_string(),
        first_name: "Alice".to_string(),
        last_name: "A".to_string(),
        role: "user".to_string(),
    }
}

#[test]
fn email_without_at_sign_is_rejected_first() {
    let req = registration("alice", "alice.example.com", "short", "other");
    assert_eq!(validate_registration(req).unwrap_err(), ValidationError::InvalidEmail);
}

#[test]
fn seven_character_password_is_weak() {
    let req = registration("alice", "alice@example.com", "1234567", "1234567");
    assert_eq!(validate_registration(req).unwrap_err(), ValidationError::WeakPassword);
}

#[test]
fn eight_character_password_with_matching_confirmation_passes() {
    let req = registration("alice", "alice@example.com", "12345678", "12345678");
    assert!(validate_registration(req).is_ok());
}

#[test]
fn blank_username_is_rejected_as_weak() {
    let req = registration("   ", "alice@example.com", "12345678", "12345678");
    assert_eq!(validate_registration(req).unwrap_err(), ValidationError::WeakPassword);
    let req = registration("", "alice@example.com", "12345678", "12345678");
    assert_eq!(validate_registration(req).unwrap_err(), ValidationError::WeakPassword);
}

#[test]
fn username_of_unicode_whitespace_alone_is_rejected() {
    let req = registration("\u{a0}\u{2003}", "alice@example.com", "12345678", "12345678");
    assert_eq!(validate_registration(req).unwrap_err(), ValidationError::WeakPassword);
}

#[test]
fn password_length_is_measured_in_bytes() {
    // seven characters, but eight bytes once UTF-8 encoded: long enough
    let req = registration("alice", "alice@example.com", "\u{f1}zzzzzz", "\u{f1}zzzzzz");
    assert!(validate_registration(req).is_ok());
    // five characters, six bytes: too short
    let req = registration("alice", "alice@example.com", "p\u{e4}ss1", "p\u{e4}ss1");
    assert_eq!(validate_registration(req).unwrap_err(), ValidationError::WeakPassword);
}

#[test]
fn username_with_inner_content_passes_whatever_surrounds_it() {
    let req = registration("  alice  ", "alice@example.com", "12345678", "12345678");
    assert!(validate_registration(req).is_ok());
}

#[test]
fn mismatched_confirmation_is_a_mismatch_whatever_the_strength() {
    let req = registration("alice", "alice@example.com", "12345678", "12345679");
    assert_eq!(validate_registration(req).unwrap_err(), ValidationError::PasswordMismatch);
    let req = registration("alice", "alice@example.com", "a very long password indeed", "another");
    assert_eq!(validate_registration(req).unwrap_err(), ValidationError::PasswordMismatch);
}

#[test]
fn weak_password_is_reported_before_a_mismatch() {
    // the rules run in a fixed order: length before confirmation
    let req = registration("alice", "alice@example.com", "1234567", "7654321");
    assert_eq!(validate_registration(req).unwrap_err(), ValidationError::WeakPassword);
}

#[test]
fn accepted_registration_carries_the_payload_through() {
    let req = registration("alice", "alice@example.com", "12345678", "12345678");
    let v = validate_registration(req).unwrap();
    assert_eq!(v.0.username, "alice");
    assert_eq!(v.0.email, "alice@example.com");
}

#[test]
fn login_validation_checks_email_then_length() {
    let bad_email = UserLogin { email: "nope".to_string(), password: "12345678".to_string() };
    assert_eq!(validate_login(bad_email).unwrap_err(), ValidationError::InvalidEmail);
    let short = UserLogin { email: "a@b.c".to_string(), password: "1234567".to_string() };
    assert_eq!(validate_login(short).unwrap_err(), ValidationError::WeakPassword);
    let fine = UserLogin { email: "a@b.c".to_string(), password: "12345678".to_string() };
    assert!(validate_login(fine).is_ok());
}
