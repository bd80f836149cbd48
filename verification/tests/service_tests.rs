use user_auth::config::Config;
use user_auth::keys::{StoreKey, composite_key};
use user_auth::requests::{
    CreateUserRequest, ForgotPasswordRequest, LoginRequest, ResetPasswordRequest,
    VerifyEmailRequest,
};
use user_auth::service::{AuthService, RefreshTokenDto};

fn test_config() -> Config {
    Config {
        database_url: "postgres://localhost/unused".to_string(),
        access_secret: "access-secret-for-tests".to_string(),
        refresh_secret: "refresh-secret-for-tests".to_string(),
        access_token_duration: 1,
        refresh_token_duration: 24,
        smtp_username: "mailer".to_string(),
        smtp_password: "mailer-password".to_string(),
        otp_expiry_minutes: 10,
        from_email: "no-reply@example.com".to_string(),
        support_email: None,
        frontend_activation_url: None,
        frontend_url: "https://app.example.com".to_string(),
    }
}

fn register_request() -> CreateUserRequest {
    CreateUserRequest {
        display_name: "alice".to_string(),
        email: "a@x.com".to_string(),
        first_name: None,
        last_name: None,
        password: "longenough1".to_string(),
    }
}

fn stored_code(service: &AuthService, purpose: StoreKey, email: &str, now: u64) -> String {
    let key = composite_key(purpose, email);
    service.kv.get(&key, now).expect("expected a stored code")
}

fn register_and_verify(service: &mut AuthService, now: u64) {
    service.create_user(register_request(), now).unwrap();
    let otp = stored_code(service, StoreKey::EmailActivation, "a@x.com", now);
    service
        .verify_email(VerifyEmailRequest { email: "a@x.com".to_string(), otp }, now)
        .unwrap();
}

#[test]
fn register_succeeds_once_and_then_already_exists() {
    let mut service = AuthService::new(test_config());
    let out = service.create_user(register_request(), 1_000).unwrap();
    assert_eq!(
        out.message,
        "User created successfully. Please check your email to verify your account."
    );
    assert_eq!(out.email.to, "a@x.com");
    assert_eq!(out.email.subject, "Activate Your Account");
    let otp = stored_code(&service, StoreKey::EmailActivation, "a@x.com", 1_000);
    assert_eq!(otp.len(), 8);
    // the emailed code is the stored code
    assert!(out.email.body.contains(&otp));

    let again = service.create_user(register_request(), 1_010).unwrap_err();
    assert_eq!(again.error_code(), "ALREADY_EXISTS");
    assert_eq!(again.message(), "Email already registered");

    let mut other = register_request();
    other.email = "b@x.com".to_string();
    let name_clash = service.create_user(other, 1_020).unwrap_err();
    assert_eq!(name_clash.message(), "Display name already taken");
}

#[test]
fn login_is_refused_until_the_email_is_verified() {
    let mut service = AuthService::new(test_config());
    service.create_user(register_request(), 1_000).unwrap();

    let login = LoginRequest { email: "a@x.com".to_string(), password: "longenough1".to_string() };
    let before = service.login(login.clone(), 1_100).unwrap_err();
    assert_eq!(before.error_code(), "UNAUTHORIZED");
    assert_eq!(before.message(), "Please verify your email before logging in");

    let otp = stored_code(&service, StoreKey::EmailActivation, "a@x.com", 1_100);
    let verified = service
        .verify_email(VerifyEmailRequest { email: "a@x.com".to_string(), otp }, 1_200)
        .unwrap();
    assert_eq!(verified.email_verified_at, Some(1_200));

    let result = service.login(login, 1_300).unwrap();
    assert!(!result.access_token.is_empty());
    assert!(!result.refresh_token.is_empty());
    assert_eq!(result.user.email, "a@x.com");
}

#[test]
fn login_does_not_reveal_which_check_failed() {
    let mut service = AuthService::new(test_config());
    register_and_verify(&mut service, 1_000);

    let no_such_user = service
        .login(
            LoginRequest { email: "b@x.com".to_string(), password: "longenough1".to_string() },
            1_100,
        )
        .unwrap_err();
    let wrong_password = service
        .login(
            LoginRequest { email: "a@x.com".to_string(), password: "wrongpassword".to_string() },
            1_100,
        )
        .unwrap_err();
    assert_eq!(no_such_user.message(), "Invalid email or password");
    assert_eq!(wrong_password.message(), "Invalid email or password");
}

#[test]
fn verify_email_consumes_the_code_and_is_idempotent_after() {
    let mut service = AuthService::new(test_config());
    service.create_user(register_request(), 1_000).unwrap();
    let otp = stored_code(&service, StoreKey::EmailActivation, "a@x.com", 1_000);

    let wrong = service
        .verify_email(
            VerifyEmailRequest { email: "a@x.com".to_string(), otp: "00000000x".to_string() },
            1_050,
        )
        .unwrap_err();
    assert_eq!(wrong.error_code(), "INVALID_INPUT");
    assert_eq!(wrong.message(), "Invalid OTP");

    // the mismatching attempt consumed the code: a replay of the real one fails
    let replay = service
        .verify_email(VerifyEmailRequest { email: "a@x.com".to_string(), otp }, 1_060)
        .unwrap_err();
    assert_eq!(replay.error_code(), "NOT_FOUND");
    assert_eq!(replay.message(), "OTP expired or not found");

    // resend a fresh code and verify with it
    let resent = service.resend_verification_otp("a@x.com", 1_100).unwrap();
    assert_eq!(resent.message, "Verification email resent successfully");
    let otp2 = stored_code(&service, StoreKey::EmailActivation, "a@x.com", 1_100);
    service
        .verify_email(VerifyEmailRequest { email: "a@x.com".to_string(), otp: otp2.clone() }, 1_150)
        .unwrap();

    // already verified: returned unchanged, even with a stale code
    let again = service
        .verify_email(VerifyEmailRequest { email: "a@x.com".to_string(), otp: otp2 }, 1_200)
        .unwrap();
    assert_eq!(again.email_verified_at, Some(1_150));

    let resend_after = service.resend_verification_otp("a@x.com", 1_300).unwrap_err();
    assert_eq!(resend_after.error_code(), "ALREADY_EXISTS");
    assert_eq!(resend_after.message(), "Email already verified");
}

#[test]
fn an_expired_verification_code_reads_as_not_found() {
    let mut service = AuthService::new(test_config());
    service.create_user(register_request(), 1_000).unwrap();
    let otp = stored_code(&service, StoreKey::EmailActivation, "a@x.com", 1_000);
    // the code lives otp_expiry_minutes * 60 = 600 seconds
    let late = service
        .verify_email(VerifyEmailRequest { email: "a@x.com".to_string(), otp }, 1_000 + 600)
        .unwrap_err();
    assert_eq!(late.error_code(), "NOT_FOUND");
}

#[test]
fn refresh_rotates_and_rejects_the_old_token() {
    let mut service = AuthService::new(test_config());
    register_and_verify(&mut service, 1_000);
    let login = service
        .login(
            LoginRequest { email: "a@x.com".to_string(), password: "longenough1".to_string() },
            2_000,
        )
        .unwrap();

    let rotated = service
        .refresh_token(RefreshTokenDto { refresh_token: login.refresh_token.clone() }, 2_010)
        .unwrap();
    assert!(!rotated.access_token.is_empty());
    assert_ne!(rotated.refresh_token, login.refresh_token);

    // replaying the pre-rotation token fails closed
    let replay = service
        .refresh_token(RefreshTokenDto { refresh_token: login.refresh_token }, 2_020)
        .unwrap_err();
    assert_eq!(replay.error_code(), "UNAUTHORIZED");
    assert_eq!(replay.message(), "Invalid refresh token");

    // the rotated token keeps working
    service
        .refresh_token(RefreshTokenDto { refresh_token: rotated.refresh_token }, 2_030)
        .unwrap();
}

#[test]
fn refresh_is_refused_without_a_session_or_with_garbage() {
    let mut service = AuthService::new(test_config());
    register_and_verify(&mut service, 1_000);
    let garbage = service
        .refresh_token(RefreshTokenDto { refresh_token: "nonsense".to_string() }, 1_100)
        .unwrap_err();
    assert_eq!(garbage.error_code(), "INVALID_TOKEN");

    let login = service
        .login(
            LoginRequest { email: "a@x.com".to_string(), password: "longenough1".to_string() },
            2_000,
        )
        .unwrap();
    service.logout_by_token(&login.refresh_token, 2_010);
    let after_logout = service
        .refresh_token(RefreshTokenDto { refresh_token: login.refresh_token }, 2_020)
        .unwrap_err();
    assert_eq!(after_logout.error_code(), "UNAUTHORIZED");
    assert_eq!(after_logout.message(), "Refresh token not found");
}

#[test]
fn logout_with_an_invalid_token_is_a_tolerated_no_op() {
    let mut service = AuthService::new(test_config());
    register_and_verify(&mut service, 1_000);
    let login = service
        .login(
            LoginRequest { email: "a@x.com".to_string(), password: "longenough1".to_string() },
            2_000,
        )
        .unwrap();
    // garbage token: success reply, session untouched
    let msg = service.logout_by_token("not-a-token", 2_005);
    assert_eq!(msg, "Logged out successfully");
    service
        .refresh_token(RefreshTokenDto { refresh_token: login.refresh_token }, 2_010)
        .unwrap();
}

#[test]
fn reset_password_needs_an_issued_token_and_logs_the_user_out() {
    let mut service = AuthService::new(test_config());
    register_and_verify(&mut service, 1_000);
    let login = service
        .login(
            LoginRequest { email: "a@x.com".to_string(), password: "longenough1".to_string() },
            2_000,
        )
        .unwrap();

    // never issued: NotFound
    let never_issued = service
        .reset_password(
            ResetPasswordRequest {
                email: "a@x.com".to_string(),
                new_password: "evenlonger22".to_string(),
                token: "made-up".to_string(),
            },
            2_100,
        )
        .unwrap_err();
    assert_eq!(never_issued.error_code(), "NOT_FOUND");
    assert_eq!(never_issued.message(), "Invalid or expired reset token");

    let forgot = service
        .forgot_password(ForgotPasswordRequest { email: "a@x.com".to_string() }, 2_200)
        .unwrap();
    assert_eq!(forgot.message, "Password reset email sent successfully");
    let reset_token = stored_code(&service, StoreKey::ForgotPassword, "a@x.com", 2_200);
    assert_eq!(reset_token.len(), 36);
    assert!(forgot.email.body.contains(&reset_token));

    let msg = service
        .reset_password(
            ResetPasswordRequest {
                email: "a@x.com".to_string(),
                new_password: "evenlonger22".to_string(),
                token: reset_token,
            },
            2_300,
        )
        .unwrap();
    assert_eq!(msg, "Password reset successfully. Please login with your new password.");

    // the pre-reset session is gone: refresh fails closed
    let stale = service
        .refresh_token(RefreshTokenDto { refresh_token: login.refresh_token }, 2_310)
        .unwrap_err();
    assert_eq!(stale.error_code(), "UNAUTHORIZED");

    // the old password no longer logs in; the new one does
    let old_pw = service
        .login(
            LoginRequest { email: "a@x.com".to_string(), password: "longenough1".to_string() },
            2_400,
        )
        .unwrap_err();
    assert_eq!(old_pw.error_code(), "UNAUTHORIZED");
    service
        .login(
            LoginRequest { email: "a@x.com".to_string(), password: "evenlonger22".to_string() },
            2_500,
        )
        .unwrap();
}

#[test]
fn reset_with_a_mismatching_token_is_rejected_and_consumes_the_entry() {
    let mut service = AuthService::new(test_config());
    register_and_verify(&mut service, 1_000);
    service
        .forgot_password(ForgotPasswordRequest { email: "a@x.com".to_string() }, 2_000)
        .unwrap();
    let real_token = stored_code(&service, StoreKey::ForgotPassword, "a@x.com", 2_000);

    // a wrong token is refused: only the matching token may reset
    let mismatch = service
        .reset_password(
            ResetPasswordRequest {
                email: "a@x.com".to_string(),
                new_password: "evenlonger22".to_string(),
                token: "00000000-0000-0000-0000-000000000000".to_string(),
            },
            2_100,
        )
        .unwrap_err();
    assert_eq!(mismatch.error_code(), "INVALID_INPUT");
    assert_eq!(mismatch.message(), "Invalid reset token");

    // the mismatching attempt consumed the entry: the real token now fails too
    let replay = service
        .reset_password(
            ResetPasswordRequest {
                email: "a@x.com".to_string(),
                new_password: "evenlonger22".to_string(),
                token: real_token,
            },
            2_200,
        )
        .unwrap_err();
    assert_eq!(replay.error_code(), "NOT_FOUND");

    // the password never changed
    service
        .login(
            LoginRequest { email: "a@x.com".to_string(), password: "longenough1".to_string() },
            2_300,
        )
        .unwrap();
}

#[test]
fn refresh_rejects_a_token_of_the_wrong_kind() {
    let mut service = AuthService::new(test_config());
    register_and_verify(&mut service, 1_000);
    // well signed with the refresh secret, but carrying the access kind
    let wrong_kind = user_auth::token::generate_token(
        "f47ac10b-58cc-4372-a567-0e02b2c3d479",
        user_auth::token::TokenType::Access,
        "refresh-secret-for-tests",
        24,
        2_000,
    )
    .unwrap();
    let refused = service
        .refresh_token(RefreshTokenDto { refresh_token: wrong_kind }, 2_010)
        .unwrap_err();
    assert_eq!(refused.error_code(), "UNAUTHORIZED");
    assert_eq!(refused.message(), "Invalid token type");
}

#[test]
fn forgot_password_for_an_unknown_email_is_not_found() {
    let mut service = AuthService::new(test_config());
    let missing = service
        .forgot_password(ForgotPasswordRequest { email: "nobody@x.com".to_string() }, 1_000)
        .unwrap_err();
    assert_eq!(missing.error_code(), "NOT_FOUND");
    assert_eq!(missing.message(), "User not found");
}

#[test]
fn an_expired_token_is_refused_as_token_expired() {
    let mut service = AuthService::new(test_config());
    register_and_verify(&mut service, 1_000);
    let login = service
        .login(
            LoginRequest { email: "a@x.com".to_string(), password: "longenough1".to_string() },
            2_000,
        )
        .unwrap();
    // the refresh token lives 24 hours = 86_400 seconds
    let expired = service
        .refresh_token(
            RefreshTokenDto { refresh_token: login.refresh_token },
            2_000 + 86_400 + 1,
        )
        .unwrap_err();
    assert_eq!(expired.error_code(), "TOKEN_EXPIRED");
}
