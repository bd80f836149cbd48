use vstd::prelude::*;
use vstd::string::*;
use crate::errors::AppError;

verus! {

/// Payload of the register flow. Email format checking belongs to the
/// transport layer and is out of scope here; the length rules below are the
/// ones enforced.
#[derive(Debug, Clone)]
pub struct CreateUserRequest {
    pub display_name: String,
    pub email: String,
    pub first_name: Option<String>,
    pub last_name: Option<String>,
    pub password: String,
}

/// The mathematical value of a register payload.
pub ghost struct CreateUserRequestModel {
    pub display_name: Seq<char>,
    pub email: Seq<char>,
    pub first_name: Option<Seq<char>>,
    pub last_name: Option<Seq<char>>,
    pub password: Seq<char>,
}

impl View for CreateUserRequest {
    type V = CreateUserRequestModel;

    open spec fn view(&self) -> CreateUserRequestModel {
        CreateUserRequestModel {
            display_name: self.display_name@,
            email: self.email@,
            first_name: crate::users::opt_view(self.first_name),
            last_name: crate::users::opt_view(self.last_name),
            password: self.password@,
        }
    }
}

impl CreateUserRequest {
    /// The length rules of the register payload: a display name of 3 to 50
    /// characters, names of at most 50, a password of at least 8.
    pub open spec fn valid_spec(self) -> bool {
        &&& 3 <= self.display_name@.len() <= 50
        &&& opt_len_at_most(crate::users::opt_view(self.first_name), 50)
        &&& opt_len_at_most(crate::users::opt_view(self.last_name), 50)
        &&& self.password@.len() >= 8
    }

    /// Checks the payload's length rules; a violation is a `ValidationError`.
    pub fn validate(&self) -> (r: Result<(), AppError>)
        ensures
            r is Ok <==> self.valid_spec(),
            r matches Err(e) ==> e matches AppError::ValidationError(_),
    {
        let dn = self.display_name.as_str().unicode_len();
        if dn < 3 || dn > 50 {
            return Err(
                AppError::ValidationError(
                    "username must be between 3 and 50 characters".to_owned(),
                ),
            );
        }
        if !opt_len_at_most_exec(&self.first_name, 50) {
            return Err(
                AppError::ValidationError(
                    "firstname can not be more than 50 characters".to_owned(),
                ),
            );
        }
        if !opt_len_at_most_exec(&self.last_name, 50) {
            return Err(
                AppError::ValidationError(
                    "firstname can not be more than 50 characters".to_owned(),
                ),
            );
        }
        if self.password.as_str().unicode_len() < 8 {
            return Err(
                AppError::ValidationError("Password must be at least 8 characters".to_owned()),
            );
        }
        Ok(())
    }
}

/// Whether an optional string is absent or at most `n` characters long.
pub open spec fn opt_len_at_most(o: Option<Seq<char>>, n: nat) -> bool {
    match o {
        Some(s) => s.len() <= n,
        None => true,
    }
}

/// Checks that an optional string is absent or at most `n` characters long.
fn opt_len_at_most_exec(o: &Option<String>, n: usize) -> (r: bool)
    ensures
        r == opt_len_at_most(crate::users::opt_view(*o), n as nat),
{
    match o {
        Some(s) => s.as_str().unicode_len() <= n,
        None => true,
    }
}

/// Payload of the profile-update flow.
#[derive(Debug, Clone)]
pub struct UpdateUserRequest {
    pub display_name: Option<String>,
    pub bio: Option<String>,
    pub first_name: Option<String>,
    pub last_name: Option<String>,
}

impl UpdateUserRequest {
    /// The length rules of the update payload.
    pub open spec fn valid_spec(self) -> bool {
        &&& match crate::users::opt_view(self.display_name) {
            Some(d) => 3 <= d.len() <= 50,
            None => true,
        }
        &&& opt_len_at_most(crate::users::opt_view(self.bio), 500)
        &&& opt_len_at_most(crate::users::opt_view(self.first_name), 50)
        &&& opt_len_at_most(crate::users::opt_view(self.last_name), 50)
    }

    /// Checks the payload's length rules; a violation is a `ValidationError`.
    pub fn validate(&self) -> (r: Result<(), AppError>)
        ensures
            r is Ok <==> self.valid_spec(),
            r matches Err(e) ==> e matches AppError::ValidationError(_),
    {
        let dn_ok = match &self.display_name {
            Some(d) => {
                let n = d.as_str().unicode_len();
                3 <= n && n <= 50
            },
            None => true,
        };
        if !dn_ok {
            return Err(
                AppError::ValidationError(
                    "username must be between 3 and 50 characters".to_owned(),
                ),
            );
        }
        if !opt_len_at_most_exec(&self.bio, 500) {
            return Err(AppError::ValidationError("Bio can not exceed 500 characters".to_owned()));
        }
        if !opt_len_at_most_exec(&self.first_name, 50) {
            return Err(
                AppError::ValidationError(
                    "firstname can not be more than 50 characters".to_owned(),
                ),
            );
        }
        if !opt_len_at_most_exec(&self.last_name, 50) {
            return Err(
                AppError::ValidationError(
                    "firstname can not be more than 50 characters".to_owned(),
                ),
            );
        }
        Ok(())
    }
}

/// Payload of the email-verification flow.
#[derive(Debug, Clone)]
pub struct VerifyEmailRequest {
    pub email: String,
    pub otp: String,
}

impl VerifyEmailRequest {
    /// The length rule of the verification payload: a code of at least 8
    /// characters.
    pub open spec fn valid_spec(self) -> bool {
        self.otp@.len() >= 8
    }

    /// Checks the payload's length rule; a violation is a `ValidationError`.
    pub fn validate(&self) -> (r: Result<(), AppError>)
        ensures
            r is Ok <==> self.valid_spec(),
            r matches Err(e) ==> e matches AppError::ValidationError(_),
    {
        if self.otp.as_str().unicode_len() < 8 {
            return Err(
                AppError::ValidationError("Password must be at least 8 characters".to_owned()),
            );
        }
        Ok(())
    }
}

/// Payload of the forgot-password and resend-verification flows.
#[derive(Debug, Clone)]
pub struct ForgotPasswordRequest {
    pub email: String,
}

/// Payload of the reset-password flow. The token is compared against the
/// stored one; the lookup key is derived from the email.
#[derive(Debug, Clone)]
pub struct ResetPasswordRequest {
    pub email: String,
    pub new_password: String,
    pub token: String,
}

impl ResetPasswordRequest {
    /// The length rule of the reset payload: a new password of at least 8
    /// characters.
    pub open spec fn valid_spec(self) -> bool {
        self.new_password@.len() >= 8
    }

    /// Checks the payload's length rule; a violation is a `ValidationError`.
    pub fn validate(&self) -> (r: Result<(), AppError>)
        ensures
            r is Ok <==> self.valid_spec(),
            r matches Err(e) ==> e matches AppError::ValidationError(_),
    {
        if self.new_password.as_str().unicode_len() < 8 {
            return Err(
                AppError::ValidationError("Password must be at least 8 characters".to_owned()),
            );
        }
        Ok(())
    }
}

/// Payload of the login flow.
#[derive(Debug, Clone)]
pub struct LoginRequest {
    pub email: String,
    pub password: String,
}

impl LoginRequest {
    /// The length rule of the login payload: a password of at least 8
    /// characters.
    pub open spec fn valid_spec(self) -> bool {
        self.password@.len() >= 8
    }

    /// Checks the payload's length rule; a violation is a `ValidationError`.
    pub fn validate(&self) -> (r: Result<(), AppError>)
        ensures
            r is Ok <==> self.valid_spec(),
            r matches Err(e) ==> e matches AppError::ValidationError(_),
    {
        if self.password.as_str().unicode_len() < 8 {
            return Err(
                AppError::ValidationError("password must be atleast 8 characters".to_owned()),
            );
        }
        Ok(())
    }
}

/// A client-held refresh token, as carried back on refresh and logout calls.
#[derive(Debug, Clone)]
pub struct RefreshToken {
    pub refresh_token: String,
}

} // verus!
