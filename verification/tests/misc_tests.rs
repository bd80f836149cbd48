use user_auth::digits::u64_to_string;
use user_auth::email::{activate_email_template, forgot_password_email_template};
use user_auth::errors::AppError;
use user_auth::keys::{StoreKey, composite_key, redis_key_map};
use user_auth::otp::generate_otp;
use user_auth::requests::{CreateUserRequest, LoginRequest};
use user_auth::saturating_add_u64;
use user_auth::saturating_mul_u64;

#[test]
fn numbers_render_in_decimal() {
    assert_eq!(u64_to_string(0), "0");
    assert_eq!(u64_to_string(7), "7");
    assert_eq!(u64_to_string(10), "10");
    assert_eq!(u64_to_string(1234567890), "1234567890");
    assert_eq!(u64_to_string(u64::MAX), "18446744073709551615");
}

#[test]
fn saturating_arithmetic_caps_at_the_maximum() {
    assert_eq!(saturating_add_u64(1, 2), 3);
    assert_eq!(saturating_add_u64(u64::MAX, 1), u64::MAX);
    assert_eq!(saturating_mul_u64(6, 7), 42);
    assert_eq!(saturating_mul_u64(u64::MAX / 2, 3), u64::MAX);
    assert_eq!(saturating_mul_u64(u64::MAX, 0), 0);
}

#[test]
fn generated_codes_are_all_digits_of_the_asked_length() {
    let code = generate_otp(8);
    assert_eq!(code.len(), 8);
    assert!(code.chars().all(|c| c.is_ascii_digit()));
    assert_eq!(generate_otp(0), "");
    // two draws almost surely differ; equal 20-digit draws would mean a
    // broken generator handing its input back
    assert_ne!(generate_otp(20), generate_otp(20));
}

#[test]
fn store_keys_compose_prefix_and_identifier() {
    assert_eq!(redis_key_map(StoreKey::EmailActivation), "email_otp");
    assert_eq!(redis_key_map(StoreKey::ForgotPassword), "password_reset_token");
    assert_eq!(redis_key_map(StoreKey::RefreshToken), "user_refresh_token");
    assert_eq!(composite_key(StoreKey::EmailActivation, "a@x.com"), "email_otp:a@x.com");
    assert_eq!(
        composite_key(StoreKey::RefreshToken, "f47ac10b-58cc-4372-a567-0e02b2c3d479"),
        "user_refresh_token:f47ac10b-58cc-4372-a567-0e02b2c3d479"
    );
}

#[test]
fn activation_email_embeds_name_code_link_and_minutes() {
    let body = activate_email_template("alice", "12345678", 10, "https://app/activate?x=1");
    assert!(body.starts_with("<!doctype html>"));
    assert!(body.contains("Hi <strong>alice</strong>,"));
    assert!(body.contains("<span class=\"otp\">12345678</span>"));
    assert!(body.contains("<a href=\"https://app/activate?x=1\" class=\"btn\">Activate Account</a>"));
    assert!(body.contains("This code expires in 10 minutes."));
}

#[test]
fn reset_email_embeds_name_link_and_minutes() {
    let body = forgot_password_email_template("alice", "https://app/reset-password?token=t", 20);
    assert!(body.contains("Hi <strong>alice</strong>,"));
    assert!(body.contains("<a href=\"https://app/reset-password?token=t\" class=\"btn\">Reset Password</a>"));
    assert!(body.contains("This link expires in 20 minutes"));
}

#[test]
fn error_codes_messages_and_status_are_stable() {
    let e = AppError::Unauthorized("Invalid email or password".to_string());
    assert_eq!(e.error_code(), "UNAUTHORIZED");
    assert_eq!(e.message(), "Invalid email or password");
    assert_eq!(e.status_code(), 401);

    assert_eq!(AppError::TokenExpired.error_code(), "TOKEN_EXPIRED");
    assert_eq!(AppError::TokenExpired.message(), "Token has expired");
    assert_eq!(AppError::TokenExpired.status_code(), 401);

    let exists = AppError::AlreadyExists("Email already registered".to_string());
    assert_eq!(exists.error_code(), "ALREADY_EXISTS");
    assert_eq!(exists.status_code(), 409);

    let infra = AppError::InternalServerError("connection reset".to_string());
    assert_eq!(infra.error_code(), "INTERNAL_SERVER_ERROR");
    // internal detail is never exposed
    assert_eq!(infra.message(), "Internal server error");
    assert_eq!(infra.status_code(), 500);

    assert_eq!(
        AppError::NotFound("User not found".to_string()).describe(),
        "NOT_FOUND: User not found"
    );
    assert_eq!(AppError::NotFound("User not found".to_string()).status_code(), 404);
    assert_eq!(AppError::ServiceUnavailable("redis".to_string()).status_code(), 503);
    assert_eq!(AppError::ValidationError("bad".to_string()).status_code(), 400);
}

#[test]
fn request_validation_enforces_the_length_rules() {
    let good = CreateUserRequest {
        display_name: "alice".to_string(),
        email: "a@x.com".to_string(),
        first_name: None,
        last_name: None,
        password: "longenough1".to_string(),
    };
    assert!(good.validate().is_ok());

    let short_password = CreateUserRequest { password: "short".to_string(), ..good.clone() };
    assert_eq!(short_password.validate().unwrap_err().error_code(), "VALIDATION_ERROR");

    let short_name = CreateUserRequest { display_name: "al".to_string(), ..good.clone() };
    assert!(short_name.validate().is_err());

    let login = LoginRequest { email: "a@x.com".to_string(), password: "1234567".to_string() };
    assert!(login.validate().is_err());
    let login_ok = LoginRequest { email: "a@x.com".to_string(), password: "12345678".to_string() };
    assert!(login_ok.validate().is_ok());
}
