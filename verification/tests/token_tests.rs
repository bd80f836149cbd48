use user_auth::errors::AppError;
use user_auth::token::{
    Claims, TokenType, extract_bearer_token, extract_user_id, generate_token, validate_token,
};

const SECRET: &str = "unit-test-signing-secret";
const OTHER_SECRET: &str = "a-different-signing-secret";
const USER_ID: &str = "f47ac10b-58cc-4372-a567-0e02b2c3d479";

fn issue(now: u64) -> String {
    // one hour of validity: expiry = now + 3600
    generate_token(USER_ID, TokenType::Access, SECRET, 1, now).unwrap()
}

#[test]
fn a_token_round_trips_its_claims() {
    let now = 1_700_000_000;
    let token = issue(now);
    assert!(!token.is_empty());
    // the token is an encoding, not the raw claims
    assert!(!token.contains(USER_ID));
    let claims: Claims = validate_token(&token, SECRET, now).unwrap();
    assert_eq!(claims.sub, USER_ID);
    assert_eq!(claims.iat, now);
    assert_eq!(claims.exp, now + 3600);
    assert_eq!(claims.token_type, "access");
}

#[test]
fn one_second_before_expiry_validation_succeeds() {
    let now = 1_700_000_000;
    let token = issue(now);
    let just_before = now + 3600 - 1;
    assert!(validate_token(&token, SECRET, just_before).is_ok());
}

#[test]
fn at_the_expiry_instant_itself_validation_still_succeeds() {
    let now = 1_700_000_000;
    let token = issue(now);
    assert!(validate_token(&token, SECRET, now + 3600).is_ok());
}

#[test]
fn after_the_expiry_instant_validation_fails_with_token_expired() {
    let now = 1_700_000_000;
    let token = issue(now);
    let after = now + 3600 + 1;
    let err = validate_token(&token, SECRET, after).unwrap_err();
    assert!(matches!(err, AppError::TokenExpired));
    assert_eq!(err.error_code(), "TOKEN_EXPIRED");
}

#[test]
fn a_mis_signed_token_is_invalid() {
    let now = 1_700_000_000;
    let token = issue(now);
    let err = validate_token(&token, OTHER_SECRET, now).unwrap_err();
    assert!(matches!(err, AppError::InvalidToken(_)));
}

#[test]
fn a_malformed_token_is_invalid() {
    let err = validate_token("definitely.not.a-token", SECRET, 0).unwrap_err();
    assert!(matches!(err, AppError::InvalidToken(_)));
}

#[test]
fn extract_user_id_returns_the_canonical_subject() {
    let now = 1_700_000_000;
    let token = issue(now);
    let uid = extract_user_id(&token, SECRET, now).unwrap();
    assert_eq!(uid, USER_ID);
}

#[test]
fn extract_user_id_normalizes_the_subject() {
    let now = 1_700_000_000;
    let upper = "F47AC10B-58CC-4372-A567-0E02B2C3D479";
    let token = generate_token(upper, TokenType::Access, SECRET, 1, now).unwrap();
    let uid = extract_user_id(&token, SECRET, now).unwrap();
    assert_eq!(uid, "f47ac10b-58cc-4372-a567-0e02b2c3d479");
}

#[test]
fn extract_user_id_rejects_a_non_uuid_subject() {
    let now = 1_700_000_000;
    let token = generate_token("not-a-uuid", TokenType::Access, SECRET, 1, now).unwrap();
    let err = extract_user_id(&token, SECRET, now).unwrap_err();
    assert!(matches!(err, AppError::InvalidToken(_)));
}

#[test]
fn token_kinds_render_their_names() {
    assert_eq!(TokenType::Access.as_string(), "access");
    assert_eq!(TokenType::Refresh.as_string(), "refresh");
}

#[test]
fn bearer_prefix_is_stripped() {
    assert_eq!(extract_bearer_token("Bearer abc.def.ghi").unwrap(), "abc.def.ghi");
    let err = extract_bearer_token("Basic dXNlcjpwYXNz").unwrap_err();
    assert!(matches!(err, AppError::Unauthorized(_)));
    assert!(extract_bearer_token("Bear").is_err());
}
