use vstd::prelude::*;
use vstd::string::*;
use crate::digits::{dec_str_of, u64_to_string};

verus! {

/// An outgoing email, handed back to the caller as plain data; the transport
/// that actually sends it lives outside this library.
#[derive(Debug, Clone)]
pub struct EmailMessage {
    pub to: String,
    pub subject: String,
    pub body: String,
}

/// The mathematical value of an outgoing email.
pub ghost struct EmailModel {
    pub to: Seq<char>,
    pub subject: Seq<char>,
    pub body: Seq<char>,
}

impl View for EmailMessage {
    type V = EmailModel;

    open spec fn view(&self) -> EmailModel {
        EmailModel { to: self.to@, subject: self.subject@, body: self.body@ }
    }
}

/// The account-activation email body for a user, a one-time code, its
/// lifetime in minutes, and the activation link.
pub open spec fn activate_email_template_spec(
    name: Seq<char>,
    otp: Seq<char>,
    expiry_minutes: u64,
    activation_link: Seq<char>,
) -> Seq<char> {
    ACT1@ + name + ACT2@ + otp + ACT3@ + activation_link + ACT4@ + dec_str_of(
        expiry_minutes as nat,
    ) + ACT5@
}

/// Renders the account-activation email body.
pub fn activate_email_template(
    name: &str,
    otp: &str,
    expiry_minutes: u64,
    activation_link: &str,
) -> (body: String)
    ensures
        body@ == activate_email_template_spec(name@, otp@, expiry_minutes, activation_link@),
{
    let mut body = ACT1.to_owned();
    body.append(name);
    body.append(ACT2);
    body.append(otp);
    body.append(ACT3);
    body.append(activation_link);
    body.append(ACT4);
    let minutes = u64_to_string(expiry_minutes);
    body.append(minutes.as_str());
    body.append(ACT5);
    body
}

/// The password-reset email body for a user, the reset link, and the link's
/// lifetime in minutes.
pub open spec fn forgot_password_email_template_spec(
    name: Seq<char>,
    reset_link: Seq<char>,
    expiry_minutes: u64,
) -> Seq<char> {
    FG1@ + name + FG2@ + reset_link + FG3@ + dec_str_of(expiry_minutes as nat) + FG4@
}

/// Renders the password-reset email body.
pub fn forgot_password_email_template(
    name: &str,
    reset_link: &str,
    expiry_minutes: u64,
) -> (body: String)
    ensures
        body@ == forgot_password_email_template_spec(name@, reset_link@, expiry_minutes),
{
    let mut body = FG1.to_owned();
    body.append(name);
    body.append(FG2);
    body.append(reset_link);
    body.append(FG3);
    let minutes = u64_to_string(expiry_minutes);
    body.append(minutes.as_str());
    body.append(FG4);
    body
}

pub const ACT1: &'static str = r#"<!doctype html>
<html lang="en">
  <head>
    <meta charset="utf-8" />
    <meta name="viewport" content="width=device-width, initial-scale=1.0" />
    <title>Activate your account</title>
    <style>
      body { margin:0; padding:0; font-family: Arial, sans-serif; background:#f4f6f8; color:#333; }
      .container { max-width:600px; margin:24px auto; background:#fff; border-radius:8px; padding:24px; }
      h1 { font-size:24px; margin:0 0 16px; }
      p { margin:0 0 16px; line-height:1.5; }
      .otp { font-size:32px; letter-spacing:8px; color:#2563eb; font-weight:700; }
      .btn { display:inline-block; padding:12px 24px; background:#2563eb; color:#fff; text-decoration:none; border-radius:6px; }
      .footer { margin-top:32px; padding-top:16px; border-top:1px solid #e5e7eb; font-size:13px; color:#666; }
    </style>
  </head>
  <body>
    <div class="container">
      <h1>Activate your account</h1>
      <p>Hi <strong>"#;

pub const ACT2: &'static str = r#"</strong>,</p>
      <p>Your activation code is:</p>
      <p style="text-align:center; margin:24px 0;">
        <span class="otp">"#;

pub const ACT3: &'static str = r#"</span>
      </p>
      <p style="text-align:center;">
        <a href=""#;

pub const ACT4: &'static str = r#"" class="btn">Activate Account</a>
      </p>
      <div class="footer">
        <p>This code expires in "#;

pub const ACT5: &'static str = r#" minutes.</p>
        <p>If you didn't request this, ignore this email.</p>
      </div>
    </div>
  </body>
</html>"#;

pub const FG1: &'static str = r#"<!doctype html>
<html lang="en">
  <head>
    <meta charset="utf-8" />
    <meta name="viewport" content="width=device-width, initial-scale=1.0" />
    <title>Reset your password</title>
    <style>
      body { margin:0; padding:0; font-family: Arial, sans-serif; background:#f4f6f8; color:#333; }
      .container { max-width:600px; margin:24px auto; background:#fff; border-radius:8px; padding:24px; }
      h1 { font-size:24px; margin:0 0 16px; }
      p { margin:0 0 16px; line-height:1.5; }
      .btn { display:inline-block; padding:12px 24px; background:#dc2626; color:#fff; text-decoration:none; border-radius:6px; }
      .warning { background:#fef3c7; padding:12px; border-radius:6px; margin:16px 0; }
      .footer { margin-top:32px; padding-top:16px; border-top:1px solid #e5e7eb; font-size:13px; color:#666; }
    </style>
  </head>
  <body>
    <div class="container">
      <h1>Reset Your Password</h1>
      <p>Hi <strong>"#;

pub const FG2: &'static str = r#"</strong>,</p>
      <p>Click the button below to reset your password:</p>
      <p style="text-align:center; margin:24px 0;">
        <a href=""#;

pub const FG3: &'static str = r#"" class="btn">Reset Password</a>
      </p>
      <div class="warning">
        <p style="margin:0; font-size:14px;"><strong>⏰ This link expires in "#;

pub const FG4: &'static str = r#" minutes</strong></p>
      </div>
      <div class="footer">
        <p>If you didn't request this, you can safely ignore this email.</p>
      </div>
    </div>
  </body>
</html>"#;

} // verus!
