use authcore::errors::PasswordError;
use authcore::password;

#[test]
fn hash_verifies_against_its_password() {
    let h = password::hash("longpass1").expect("hashing should succeed");
    assert_eq!(password::verify("longpass1", &h), Ok(true));
}

#[test]
fn hash_rejects_a_different_password() {
    let h = password::hash("longpass1").expect("hashing should succeed");
    assert_eq!(password::verify("longpass2", &h), Ok(false));
    assert_eq!(password::verify("", &h), Ok(false));
    assert_eq!(password::verify("longpass1 ", &h), Ok(false));
}

#[test]
fn two_hashes_of_one_password_differ_and_both_verify() {
    let h1 = password::hash("correct horse battery").expect("hashing should succeed");
    let h2 = password::hash("correct horse battery").expect("hashing should succeed");
    assert_ne!(h1, h2);
    assert_eq!(password::verify("correct horse battery", &h1), Ok(true));
    assert_eq!(password::verify("correct horse battery", &h2), Ok(true));
}

#[test]
fn hash_is_a_phc_string_not_the_plaintext() {
    let h = password::hash("longpass1").expect("hashing should succeed");
    assert!(h.starts_with("$argon2"));
    assert!(!h.contains("longpass1"));
}

#[test]
fn malformed_stored_hash_is_an_internal_fault() {
    assert_eq!(
        password::verify("longpass1", "not a phc string"),
        Err(PasswordError::MalformedHash)
    );
    assert_eq!(password::verify("longpass1", ""), Err(PasswordError::MalformedHash));
}
