use vstd::prelude::*;

verus! {

/// Immutable service configuration, loaded once at process start and passed
/// into the orchestrator's constructor.
///
/// Token lifetimes are given in hours; the one-time-code lifetime in minutes.
/// The access and refresh secrets are distinct so that a leaked access-token
/// secret cannot forge refresh tokens.
#[derive(Debug, Clone)]
pub struct Config {
    pub database_url: String,
    pub access_secret: String,
    pub refresh_secret: String,
    pub access_token_duration: u64,
    pub refresh_token_duration: u64,
    pub smtp_username: String,
    pub smtp_password: String,
    pub otp_expiry_minutes: u64,
    pub from_email: String,
    pub support_email: Option<String>,
    pub frontend_activation_url: Option<String>,
    pub frontend_url: String,
}

/// The mathematical value of a `Config`: the fields the auth flows depend on.
pub ghost struct ConfigModel {
    pub access_secret: Seq<char>,
    pub refresh_secret: Seq<char>,
    pub access_token_duration: u64,
    pub refresh_token_duration: u64,
    pub otp_expiry_minutes: u64,
    pub from_email: Seq<char>,
    pub frontend_url: Seq<char>,
}

impl View for Config {
    type V = ConfigModel;

    open spec fn view(&self) -> ConfigModel {
        ConfigModel {
            access_secret: self.access_secret@,
            refresh_secret: self.refresh_secret@,
            access_token_duration: self.access_token_duration,
            refresh_token_duration: self.refresh_token_duration,
            otp_expiry_minutes: self.otp_expiry_minutes,
            from_email: self.from_email@,
            frontend_url: self.frontend_url@,
        }
    }
}

} // verus!
