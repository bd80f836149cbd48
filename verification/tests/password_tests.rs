use user_auth::password::{hash_password, verify_password};

#[test]
fn hash_then_verify_accepts_the_password() {
    let hash = hash_password("correct horse battery").unwrap();
    assert_eq!(hash.len(), 60);
    assert!(hash.starts_with("$2"));
    assert!(verify_password("correct horse battery", &hash).unwrap());
}

#[test]
fn verify_rejects_a_different_password() {
    let hash = hash_password("password-one").unwrap();
    assert!(!verify_password("password-two", &hash).unwrap());
    assert!(!verify_password("", &hash).unwrap());
}

#[test]
fn hashing_twice_salts_differently_yet_both_verify() {
    let first = hash_password("longenough1").unwrap();
    let second = hash_password("longenough1").unwrap();
    assert_ne!(first, second);
    assert!(verify_password("longenough1", &first).unwrap());
    assert!(verify_password("longenough1", &second).unwrap());
}

#[test]
fn verify_fails_on_a_malformed_hash() {
    let err = verify_password("whatever", "not a bcrypt hash").unwrap_err();
    assert_eq!(err.error_code(), "INTERNAL_SERVER_ERROR");
}
