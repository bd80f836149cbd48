use vstd::prelude::*;
use vstd::string::*;
use crate::config::{Config, ConfigModel};
use crate::email::{
    EmailMessage, activate_email_template, activate_email_template_spec,
    forgot_password_email_template, forgot_password_email_template_spec,
};
use crate::errors::{AppError, ErrorKind};
use crate::ids::{is_canonical_uuid, new_uuid_string, uuid_canon};
use crate::keys::{StoreKey, composite_key, composite_key_spec};
use crate::kv::{TtlStore, EntryModel, entry_written, kv_live};
use crate::otp::{all_digits, generate_otp};
use crate::password::{bcrypt_matches, bcrypt_valid_hash, hash_password, verify_password};
use crate::requests::{
    CreateUserRequest, ForgotPasswordRequest, LoginRequest, ResetPasswordRequest,
    VerifyEmailRequest,
};
use crate::responses::{UserResponse, user_response_of};
use crate::token::{
    TokenType, extract_user_id, extract_user_id_result, issued_claims, jwt_payload, jwt_token,
    generate_token, validate_token, validate_result,
};
use crate::users::{
    UserModel, UserStore, coalesce_user, find_user_by_display_name, find_user_by_email,
    find_user_by_id, first_index_where, lemma_first_index_where, lemma_found_by_email_found_by_id,
    users_wf,
};
use crate::{SECONDS_PER_MINUTE, saturating_mul_u64};

verus! {

/// A successful login: the user and a fresh access/refresh token pair.
#[derive(Debug, Clone)]
pub struct LoginResultDto {
    pub user: UserResponse,
    pub access_token: String,
    pub refresh_token: String,
}

/// A successful refresh: the rotated access/refresh token pair.
#[derive(Debug, Clone)]
pub struct RefreshResultDto {
    pub access_token: String,
    pub refresh_token: String,
}

/// The refresh token a client submitted.
#[derive(Debug, Clone)]
pub struct RefreshTokenDto {
    pub refresh_token: String,
}

/// A success message together with the email the caller still has to send;
/// the mail transport lives outside this library, and handing the message
/// back before any reply is produced keeps sends and state changes ordered.
#[derive(Debug, Clone)]
pub struct OutgoingMessage {
    pub message: String,
    pub email: EmailMessage,
}

/// The store key under which a user's email-verification code lives.
pub open spec fn activation_key(email: Seq<char>) -> Seq<char> {
    composite_key_spec(StoreKey::EmailActivation, email)
}

/// The store key under which a user's password-reset token lives.
pub open spec fn reset_key(email: Seq<char>) -> Seq<char> {
    composite_key_spec(StoreKey::ForgotPassword, email)
}

/// The store key under which a user's single valid refresh token lives.
pub open spec fn session_key(user_id: Seq<char>) -> Seq<char> {
    composite_key_spec(StoreKey::RefreshToken, user_id)
}

/// Lifetime of an email-verification code, in seconds.
pub open spec fn otp_ttl_seconds(cfg: ConfigModel) -> u64 {
    sat_u64(cfg.otp_expiry_minutes * 60)
}

/// Lifetime of a password-reset token: twice the verification-code lifetime.
pub open spec fn reset_ttl_seconds(cfg: ConfigModel) -> u64 {
    sat_u64(cfg.otp_expiry_minutes * 60 * 2)
}

/// Lifetime of a session entry: equal to the refresh-token lifetime.
pub open spec fn session_ttl_seconds(cfg: ConfigModel) -> u64 {
    sat_u64(cfg.refresh_token_duration * 3600)
}

/// Caps an unbounded count of seconds at the largest representable value.
pub open spec fn sat_u64(n: int) -> u64 {
    if n <= u64::MAX {
        n as u64
    } else {
        u64::MAX
    }
}

/// The account-activation link: `frontend/activate?email=...&otp=...`.
pub open spec fn activation_link_spec(frontend: Seq<char>, email: Seq<char>, otp: Seq<char>) -> Seq<
    char,
> {
    frontend + "/activate?email="@ + email + "&otp="@ + otp
}

/// The password-reset link: `frontend/reset-password?token=...`.
pub open spec fn reset_link_spec(frontend: Seq<char>, token: Seq<char>) -> Seq<char> {
    frontend + "/reset-password?token="@ + token
}

/// The service-level state machine of the credential/session subsystem. It
/// composes the credential hasher, the token issuer, the session registry and
/// one-time-code store (`kv`), and the user-record collection, under one
/// immutable configuration. Time is always an explicit `now` argument, in
/// seconds since the epoch.
pub struct AuthService {
    pub config: Config,
    pub users: UserStore,
    pub kv: TtlStore,
}

impl AuthService {
    /// Creates the service around a configuration, with no users and no
    /// store entries.
    pub fn new(config: Config) -> (s: AuthService)
        ensures
            s.config == config,
            s.users@ == Seq::<UserModel>::empty(),
            s.kv@ == Map::<Seq<char>, EntryModel>::empty(),
    {
        AuthService { config, users: UserStore::new(), kv: TtlStore::new() }
    }

    /// Registers a new account: rejects an already-registered email or a
    /// taken display name with `AlreadyExists`; otherwise hashes the
    /// password, creates the (unverified) user record, stores a fresh
    /// 8-digit verification code under the email with the configured
    /// lifetime, and hands back the verification email to send. A second
    /// register attempt with the same email therefore fails. Infrastructure
    /// failures — the hashing backend's random source, or a fresh-id clash —
    /// surface as errors with the state unchanged.
    pub fn create_user(&mut self, dto: CreateUserRequest, now: u64) -> (r: Result<
        OutgoingMessage,
        AppError,
    >)
        ensures
            final(self).config == old(self).config,
            ({
                let users0 = old(self).users@;
                let kv0 = old(self).kv@;
                let cfg = old(self).config@;
                let email_taken = find_user_by_email(users0, dto.email@) is Some;
                let name_taken = find_user_by_display_name(users0, dto.display_name@) is Some;
                match r {
                    Err(e) => {
                        &&& final(self).users@ == users0
                        &&& final(self).kv@ == kv0
                        &&& if email_taken {
                            e matches AppError::AlreadyExists(m) && m@
                                == "Email already registered"@
                        } else if name_taken {
                            e matches AppError::AlreadyExists(m) && m@
                                == "Display name already taken"@
                        } else {
                            e.kind() == ErrorKind::InternalServerError || e.kind()
                                == ErrorKind::DuplicateEntry
                        }
                    },
                    Ok(out) => {
                        let u = final(self).users@.last();
                        let code = final(self).kv@[activation_key(dto.email@)].value;
                        &&& !email_taken
                        &&& !name_taken
                        &&& final(self).users@ == users0.push(u)
                        &&& u.email == dto.email@
                        &&& u.display_name == dto.display_name@
                        &&& u.first_name == dto@.first_name
                        &&& u.last_name == dto@.last_name
                        &&& u.bio is None
                        &&& u.avatar_url is None
                        &&& u.email_verified_at is None
                        &&& u.created_at == now
                        &&& u.updated_at == now
                        &&& u.password_hash matches Some(h) && bcrypt_matches(dto.password@, h)
                            && bcrypt_valid_hash(h)
                        &&& u.id.len() == 36
                        &&& is_canonical_uuid(u.id)
                        &&& users_wf(users0) ==> users_wf(final(self).users@)
                        &&& code.len() == 8
                        &&& all_digits(code)
                        &&& final(self).kv@ == kv0.insert(
                            activation_key(dto.email@),
                            entry_written(code, now, otp_ttl_seconds(cfg)),
                        )
                        &&& out.email@.to == dto.email@
                        &&& out.email@.subject == "Activate Your Account"@
                        &&& out.email@.body == activate_email_template_spec(
                            dto.display_name@,
                            code,
                            cfg.otp_expiry_minutes,
                            activation_link_spec(cfg.frontend_url, dto.email@, code),
                        )
                        &&& out.message@
                            == "User created successfully. Please check your email to verify your account."@
                    },
                }
            }),
    {
        if self.users.get_user_by_email(dto.email.as_str()).is_some() {
            return Err(AppError::AlreadyExists("Email already registered".to_owned()));
        }
        if self.users.get_user_by_display_name(dto.display_name.as_str()).is_some() {
            return Err(AppError::AlreadyExists("Display name already taken".to_owned()));
        }

        let password_hash = hash_password(dto.password.as_str())?;

        let id = new_uuid_string();
        let created = self.users.create_user(
            id.as_str(),
            dto.email.as_str(),
            Some(password_hash.as_str()),
            dto.display_name.as_str(),
            None,
            opt_as_deref(&dto.first_name),
            opt_as_deref(&dto.last_name),
            None,
            None,
            now,
        );
        let user = match created {
            Ok(u) => u,
            Err(e) => {
                return Err(e);
            },
        };

        let otp = generate_otp(8);

        let ttl = saturating_mul_u64(self.config.otp_expiry_minutes, SECONDS_PER_MINUTE);
        let key = composite_key(StoreKey::EmailActivation, user.email.as_str());
        self.kv.set_ex(key.as_str(), otp.as_str(), ttl, now);

        let mut activation_link = self.config.frontend_url.clone();
        activation_link.append("/activate?email=");
        activation_link.append(user.email.as_str());
        activation_link.append("&otp=");
        activation_link.append(otp.as_str());

        let body = activate_email_template(
            user.display_name.as_str(),
            otp.as_str(),
            self.config.otp_expiry_minutes,
            activation_link.as_str(),
        );
        let email = EmailMessage {
            to: user.email.clone(),
            subject: "Activate Your Account".to_owned(),
            body,
        };

        Ok(
            OutgoingMessage {
                message:
                    "User created successfully. Please check your email to verify your account.".to_owned(),
                email,
            },
        )
    }

    /// Verifies a user's email address with a one-time code. An unknown email
    /// is `NotFound`; an already-verified user is returned unchanged, so the
    /// operation is idempotent. Otherwise the stored code is consumed
    /// (destructively, whether or not it matches): a missing or expired code
    /// is `NotFound`, a mismatch `InvalidInput`, and on a match the user's
    /// verified timestamp is set to `now`.
    pub fn verify_email(&mut self, dto: VerifyEmailRequest, now: u64) -> (r: Result<
        UserResponse,
        AppError,
    >)
        ensures
            final(self).config == old(self).config,
            ({
                let users0 = old(self).users@;
                let kv0 = old(self).kv@;
                let akey = activation_key(dto.email@);
                match find_user_by_email(users0, dto.email@) {
                    None => {
                        &&& r matches Err(e) && e matches AppError::NotFound(m) && m@
                            == "User not found"@
                        &&& final(self).users@ == users0
                        &&& final(self).kv@ == kv0
                    },
                    Some(u) => {
                        if u.email_verified_at is Some {
                            &&& r matches Ok(resp) && resp@ == user_response_of(u)
                            &&& final(self).users@ == users0
                            &&& final(self).kv@ == kv0
                        } else {
                            &&& final(self).kv@ == kv0.remove(akey)
                            &&& if !kv_live(kv0, akey, now) {
                                r matches Err(e) && e matches AppError::NotFound(m) && m@
                                    == "OTP expired or not found"@ && final(self).users@ == users0
                            } else if kv0[akey].value != dto.otp@ {
                                r matches Err(e) && e matches AppError::InvalidInput(m) && m@
                                    == "Invalid OTP"@ && final(self).users@ == users0
                            } else {
                                let i = first_index_where(users0, |m: UserModel| m.id == u.id);
                                let updated = coalesce_user(
                                    users0[i],
                                    None,
                                    None,
                                    None,
                                    None,
                                    None,
                                    None,
                                    None,
                                    Some(now),
                                    now,
                                );
                                &&& 0 <= i < users0.len()
                                &&& r matches Ok(resp) && resp@ == user_response_of(updated)
                                &&& final(self).users@ == users0.update(i, updated)
                                &&& users_wf(users0) ==> users_wf(final(self).users@)
                            }
                        }
                    },
                }
            }),
    {
        let user = match self.users.get_user_by_email(dto.email.as_str()) {
            Some(u) => u,
            None => {
                return Err(AppError::NotFound("User not found".to_owned()));
            },
        };

        if user.email_verified_at.is_some() {
            return Ok(UserResponse::from(user));
        }

        proof {
            lemma_first_index_where(old(self).users@, |m: UserModel| m.email == dto.email@);
        }
        let akey = composite_key(StoreKey::EmailActivation, user.email.as_str());
        let stored = match self.kv.get_del(akey.as_str(), now) {
            Some(code) => code,
            None => {
                return Err(AppError::NotFound("OTP expired or not found".to_owned()));
            },
        };

        if stored != dto.otp {
            return Err(AppError::InvalidInput("Invalid OTP".to_owned()));
        }

        proof {
            lemma_first_index_where(old(self).users@, |m: UserModel| m.id == user@.id);
            lemma_found_by_email_found_by_id(old(self).users@, dto.email@, user@);
        }
        let updated = self.users.update_user(
            user.id.as_str(),
            None,
            None,
            None,
            None,
            None,
            None,
            None,
            Some(now),
            now,
        );
        match updated {
            Ok(u2) => {
                proof {
                    let users0 = old(self).users@;
                    let i = first_index_where(users0, |m: UserModel| m.id == user@.id);
                    if users_wf(users0) {
                        lemma_wf_after_update(users0, i, u2@);
                    }
                }
                Ok(UserResponse::from(u2))
            },
            Err(e) => Err(e),
        }
    }

    /// Authenticates a user by email and password and opens a session. A
    /// missing user, an absent password hash (federated-only account), and a
    /// wrong password all answer the same `Unauthorized`, so callers cannot
    /// probe which accounts exist; an unverified email is refused with its
    /// own `Unauthorized` message. On success a fresh access/refresh pair is
    /// issued and the refresh token becomes the user's single valid session
    /// entry, with a lifetime equal to the refresh-token lifetime.
    pub fn login(&mut self, dto: LoginRequest, now: u64) -> (r: Result<LoginResultDto, AppError>)
        ensures
            final(self).config == old(self).config,
            final(self).users@ == old(self).users@,
            ({
                let users0 = old(self).users@;
                let kv0 = old(self).kv@;
                let kv1 = final(self).kv@;
                let cfg = old(self).config@;
                match find_user_by_email(users0, dto.email@) {
                    None => r matches Err(e) && e matches AppError::Unauthorized(m) && m@
                        == "Invalid email or password"@ && kv1 == kv0,
                    Some(u) => match u.password_hash {
                        None => r matches Err(e) && e matches AppError::Unauthorized(m) && m@
                            == "Invalid email or password"@ && kv1 == kv0,
                        Some(ph) => {
                            if !bcrypt_valid_hash(ph) {
                                r matches Err(e) && e matches AppError::InternalServerError(_)
                                    && kv1 == kv0
                            } else if !bcrypt_matches(dto.password@, ph) {
                                r matches Err(e) && e matches AppError::Unauthorized(m) && m@
                                    == "Invalid email or password"@ && kv1 == kv0
                            } else {
                                login_post_password_ok(u, cfg, now, kv0, kv1, r)
                            }
                        },
                    },
                }
            }),
    {
        let user = match self.users.get_user_by_email(dto.email.as_str()) {
            Some(u) => u,
            None => {
                return Err(AppError::Unauthorized("Invalid email or password".to_owned()));
            },
        };

        let password_hash = match &user.password_hash {
            Some(h) => h.clone(),
            None => {
                return Err(AppError::Unauthorized("Invalid email or password".to_owned()));
            },
        };

        if !verify_password(dto.password.as_str(), password_hash.as_str())? {
            return Err(AppError::Unauthorized("Invalid email or password".to_owned()));
        }

        if user.email_verified_at.is_none() {
            return Err(
                AppError::Unauthorized("Please verify your email before logging in".to_owned()),
            );
        }

        let access_token = generate_token(
            user.id.as_str(),
            TokenType::Access,
            self.config.access_secret.as_str(),
            self.config.access_token_duration,
            now,
        )?;
        let refresh_token = generate_token(
            user.id.as_str(),
            TokenType::Refresh,
            self.config.refresh_secret.as_str(),
            self.config.refresh_token_duration,
            now,
        )?;

        self.store_refresh_token(user.id.as_str(), refresh_token.as_str(), now);

        Ok(LoginResultDto { user: UserResponse::from(user), access_token, refresh_token })
    }

    /// Rotates a session: validates the submitted refresh token against the
    /// refresh secret (propagating `TokenExpired` and `InvalidToken`),
    /// asserts after signature validation that the embedded kind claim is
    /// `refresh` — a valid-but-wrong-kind token is `Unauthorized` — and
    /// requires it to be the single token currently registered for its user
    /// (`Unauthorized` when the session is gone, or when the submitted token
    /// is stale, revoked or replayed), re-fetches the user (`NotFound` if
    /// deleted), and issues and registers a fresh pair. Reuse of a
    /// rotated-away token is thereby rejected.
    pub fn refresh_token(&mut self, dto: RefreshTokenDto, now: u64) -> (r: Result<
        RefreshResultDto,
        AppError,
    >)
        ensures
            final(self).config == old(self).config,
            final(self).users@ == old(self).users@,
            ({
                let users0 = old(self).users@;
                let kv0 = old(self).kv@;
                let kv1 = final(self).kv@;
                let cfg = old(self).config@;
                match refresh_decision(users0, kv0, cfg, dto.refresh_token@, now) {
                    Err(k) => r matches Err(e) && e.kind() == k && kv1 == kv0
                        && e.message_spec() == refresh_refusal_message(
                        users0,
                        kv0,
                        cfg,
                        dto.refresh_token@,
                        now,
                        e,
                    ),
                    Ok(u) => r matches Ok(res) && {
                        &&& res.access_token@ == jwt_token(
                            issued_claims(u.id, TokenType::Access, cfg.access_token_duration, now),
                            cfg.access_secret,
                        )
                        &&& res.refresh_token@ == jwt_token(
                            issued_claims(
                                u.id,
                                TokenType::Refresh,
                                cfg.refresh_token_duration,
                                now,
                            ),
                            cfg.refresh_secret,
                        )
                        &&& jwt_payload(res.refresh_token@, cfg.refresh_secret) == Some(
                            issued_claims(
                                u.id,
                                TokenType::Refresh,
                                cfg.refresh_token_duration,
                                now,
                            ),
                        )
                        &&& res.access_token@.len() > 0
                        &&& res.refresh_token@.len() > 0
                        &&& kv1 == kv0.insert(
                            session_key(u.id),
                            entry_written(res.refresh_token@, now, session_ttl_seconds(cfg)),
                        )
                    },
                }
            }),
    {
        let claims = match validate_token(
            dto.refresh_token.as_str(),
            self.config.refresh_secret.as_str(),
            now,
        ) {
            Ok(c) => c,
            Err(e) => {
                return Err(e);
            },
        };

        if claims.token_type != TokenType::Refresh.as_string() {
            return Err(AppError::Unauthorized("Invalid token type".to_owned()));
        }

        let user_id = match crate::ids::canonicalize_uuid(claims.sub.as_str()) {
            Some(uid) => uid,
            None => {
                return Err(AppError::Unauthorized("Invalid user ID in token".to_owned()));
            },
        };

        let skey = composite_key(StoreKey::RefreshToken, user_id.as_str());
        let stored = match self.kv.get(skey.as_str(), now) {
            Some(t) => t,
            None => {
                return Err(AppError::Unauthorized("Refresh token not found".to_owned()));
            },
        };
        if stored != dto.refresh_token {
            return Err(AppError::Unauthorized("Invalid refresh token".to_owned()));
        }

        let user = match self.users.get_user_by_id(user_id.as_str()) {
            Some(u) => u,
            None => {
                return Err(AppError::NotFound("User not found".to_owned()));
            },
        };
        proof {
            lemma_first_index_where(old(self).users@, |m: UserModel| m.id == user_id@);
        }

        let new_access_token = generate_token(
            user.id.as_str(),
            TokenType::Access,
            self.config.access_secret.as_str(),
            self.config.access_token_duration,
            now,
        )?;
        let new_refresh_token = generate_token(
            user.id.as_str(),
            TokenType::Refresh,
            self.config.refresh_secret.as_str(),
            self.config.refresh_token_duration,
            now,
        )?;

        self.store_refresh_token(user.id.as_str(), new_refresh_token.as_str(), now);

        Ok(RefreshResultDto { access_token: new_access_token, refresh_token: new_refresh_token })
    }

    /// Starts the password-reset flow: an unknown email is `NotFound`;
    /// otherwise a fresh opaque reset token is stored under the email, with
    /// twice the one-time-code lifetime (superseding any earlier one), and
    /// the reset email embedding the token's link is handed back to send.
    pub fn forgot_password(&mut self, dto: ForgotPasswordRequest, now: u64) -> (r: Result<
        OutgoingMessage,
        AppError,
    >)
        ensures
            final(self).config == old(self).config,
            final(self).users@ == old(self).users@,
            ({
                let users0 = old(self).users@;
                let kv0 = old(self).kv@;
                let kv1 = final(self).kv@;
                let cfg = old(self).config@;
                match find_user_by_email(users0, dto.email@) {
                    None => r matches Err(e) && e matches AppError::NotFound(m) && m@
                        == "User not found"@ && kv1 == kv0,
                    Some(u) => match r {
                        Ok(out) => {
                            let tok = kv1[reset_key(dto.email@)].value;
                            &&& kv1 == kv0.insert(
                                reset_key(dto.email@),
                                entry_written(tok, now, reset_ttl_seconds(cfg)),
                            )
                            &&& tok.len() == 36
                            &&& is_canonical_uuid(tok)
                            &&& out.email@.to == dto.email@
                            &&& out.email@.subject == "Reset Your Password"@
                            &&& out.email@.body == forgot_password_email_template_spec(
                                u.display_name,
                                reset_link_spec(cfg.frontend_url, tok),
                                sat_u64(cfg.otp_expiry_minutes * 2),
                            )
                            &&& out.message@ == "Password reset email sent successfully"@
                        },
                        Err(_) => false,
                    },
                }
            }),
    {
        let user = match self.users.get_user_by_email(dto.email.as_str()) {
            Some(u) => u,
            None => {
                return Err(AppError::NotFound("User not found".to_owned()));
            },
        };
        proof {
            lemma_first_index_where(old(self).users@, |m: UserModel| m.email == dto.email@);
        }

        let token = new_uuid_string();

        let ttl = saturating_mul_u64(saturating_mul_u64(self.config.otp_expiry_minutes, SECONDS_PER_MINUTE), 2);
        let rkey = composite_key(StoreKey::ForgotPassword, user.email.as_str());
        self.kv.set_ex(rkey.as_str(), token.as_str(), ttl, now);

        let mut reset_link = self.config.frontend_url.clone();
        reset_link.append("/reset-password?token=");
        reset_link.append(token.as_str());

        let display_minutes = saturating_mul_u64(self.config.otp_expiry_minutes, 2);
        let body = forgot_password_email_template(
            user.display_name.as_str(),
            reset_link.as_str(),
            display_minutes,
        );
        let email = EmailMessage {
            to: user.email.clone(),
            subject: "Reset Your Password".to_owned(),
            body,
        };

        Ok(
            OutgoingMessage {
                message: "Password reset email sent successfully".to_owned(),
                email,
            },
        )
    }

    /// Completes a password reset. The active reset token is looked up by the
    /// *email* — never by the token value — and consumed destructively;
    /// absent or expired means `NotFound`, indistinguishably, and replaying a
    /// consumed token always fails. The supplied token is then compared
    /// against the stored one: a mismatch is `InvalidInput`, and the entry is
    /// consumed all the same, as for verification codes. Then the user must
    /// exist (`NotFound`) and be verified (`Unauthorized`); the new password
    /// is hashed and stored, and the user's session entry is deleted, so
    /// every outstanding refresh token stops working and a login with the new
    /// password is required.
    pub fn reset_password(&mut self, dto: ResetPasswordRequest, now: u64) -> (r: Result<
        String,
        AppError,
    >)
        ensures
            final(self).config == old(self).config,
            ({
                let users0 = old(self).users@;
                let kv0 = old(self).kv@;
                let kv1 = final(self).kv@;
                let rkey = reset_key(dto.email@);
                if !kv_live(kv0, rkey, now) {
                    &&& r matches Err(e) && e matches AppError::NotFound(m) && m@
                        == "Invalid or expired reset token"@
                    &&& final(self).users@ == users0
                    &&& kv1 == kv0.remove(rkey)
                } else if kv0[rkey].value != dto.token@ {
                    &&& r matches Err(e) && e matches AppError::InvalidInput(m) && m@
                        == "Invalid reset token"@
                    &&& final(self).users@ == users0
                    &&& kv1 == kv0.remove(rkey)
                } else {
                    match find_user_by_email(users0, dto.email@) {
                        None => {
                            &&& r matches Err(e) && e matches AppError::NotFound(m) && m@
                                == "User not found"@
                            &&& final(self).users@ == users0
                            &&& kv1 == kv0.remove(rkey)
                        },
                        Some(u) => {
                            if u.email_verified_at is None {
                                &&& r matches Err(e) && e matches AppError::Unauthorized(m) && m@
                                    == "Please verify your email before resetting password"@
                                &&& final(self).users@ == users0
                                &&& kv1 == kv0.remove(rkey)
                            } else {
                                match r {
                                    Ok(msg) => {
                                        let i = first_index_where(
                                            users0,
                                            |m: UserModel| m.id == u.id,
                                        );
                                        let u1 = final(self).users@[i];
                                        &&& 0 <= i < users0.len()
                                        &&& u1.password_hash matches Some(h) && bcrypt_matches(
                                            dto.new_password@,
                                            h,
                                        ) && bcrypt_valid_hash(h)
                                        &&& final(self).users@ == users0.update(
                                            i,
                                            coalesce_user(
                                                users0[i],
                                                None,
                                                u1.password_hash,
                                                None,
                                                None,
                                                None,
                                                None,
                                                None,
                                                None,
                                                now,
                                            ),
                                        )
                                        &&& users_wf(users0) ==> users_wf(final(self).users@)
                                        &&& kv1 == kv0.remove(rkey).remove(session_key(u.id))
                                        &&& msg@
                                            == "Password reset successfully. Please login with your new password."@
                                    },
                                    Err(e) => {
                                        &&& e.kind() == ErrorKind::InternalServerError
                                        &&& final(self).users@ == users0
                                        &&& kv1 == kv0.remove(rkey)
                                    },
                                }
                            }
                        },
                    }
                }
            }),
    {
        let rkey = composite_key(StoreKey::ForgotPassword, dto.email.as_str());
        let stored_token = match self.kv.get_del(rkey.as_str(), now) {
            Some(t) => t,
            None => {
                return Err(AppError::NotFound("Invalid or expired reset token".to_owned()));
            },
        };
        if stored_token != dto.token {
            return Err(AppError::InvalidInput("Invalid reset token".to_owned()));
        }

        let user = match self.users.get_user_by_email(dto.email.as_str()) {
            Some(u) => u,
            None => {
                return Err(AppError::NotFound("User not found".to_owned()));
            },
        };

        if user.email_verified_at.is_none() {
            return Err(
                AppError::Unauthorized(
                    "Please verify your email before resetting password".to_owned(),
                ),
            );
        }

        let new_password_hash = hash_password(dto.new_password.as_str())?;

        proof {
            lemma_first_index_where(old(self).users@, |m: UserModel| m.id == user@.id);
            lemma_found_by_email_found_by_id(old(self).users@, dto.email@, user@);
        }
        let updated = self.users.update_user(
            user.id.as_str(),
            None,
            Some(new_password_hash.as_str()),
            None,
            None,
            None,
            None,
            None,
            None,
            now,
        );
        match updated {
            Ok(u2) => {
                proof {
                    let users0 = old(self).users@;
                    let i = first_index_where(users0, |m: UserModel| m.id == user@.id);
                    if users_wf(users0) {
                        lemma_wf_after_update(users0, i, u2@);
                    }
                }
                self.revoke_all_tokens(user.id.as_str());
                Ok("Password reset successfully. Please login with your new password.".to_owned())
            },
            Err(e) => Err(e),
        }
    }

    /// Closes a user's session: the session entry is deleted, so every
    /// refresh token of the user stops working. Always succeeds, whether or
    /// not a session existed.
    pub fn logout(&mut self, user_id: &str) -> (r: Result<String, AppError>)
        ensures
            final(self).config == old(self).config,
            final(self).users@ == old(self).users@,
            final(self).kv@ == old(self).kv@.remove(session_key(user_id@)),
            r matches Ok(m) && m@ == "Logged out successfully"@,
    {
        self.revoke_all_tokens(user_id);
        Ok("Logged out successfully".to_owned())
    }

    /// Best-effort logout from a client-held refresh token: the token is
    /// decoded to recover the user, and that user's session entry is deleted.
    /// A missing subject or an invalid or expired token is tolerated — that
    /// failure path is deliberately a no-op — and the reply is success either
    /// way; clearing the client-side credential is the transport's concern.
    pub fn logout_by_token(&mut self, refresh_token: &str, now: u64) -> (msg: String)
        ensures
            final(self).config == old(self).config,
            final(self).users@ == old(self).users@,
            ({
                let secret = old(self).config@.refresh_secret;
                match extract_user_id_result(refresh_token@, secret, now) {
                    Ok(uid) => final(self).kv@ == old(self).kv@.remove(session_key(uid)),
                    Err(_) => final(self).kv@ == old(self).kv@,
                }
            }),
            msg@ == "Logged out successfully"@,
    {
        match extract_user_id(refresh_token, self.config.refresh_secret.as_str(), now) {
            Ok(user_id) => {
                let _ = self.logout(user_id.as_str());
            },
            Err(_) => {
                // invalid, expired or foreign token: deliberately a no-op
            },
        }
        "Logged out successfully".to_owned()
    }

    /// Issues a fresh verification code for a not-yet-verified account,
    /// superseding any unconsumed earlier code, and hands back the
    /// verification email to send. An unknown email is `NotFound`; an
    /// already-verified one is `AlreadyExists`.
    pub fn resend_verification_otp(&mut self, email: &str, now: u64) -> (r: Result<
        OutgoingMessage,
        AppError,
    >)
        ensures
            final(self).config == old(self).config,
            final(self).users@ == old(self).users@,
            ({
                let users0 = old(self).users@;
                let kv0 = old(self).kv@;
                let kv1 = final(self).kv@;
                let cfg = old(self).config@;
                match find_user_by_email(users0, email@) {
                    None => r matches Err(e) && e matches AppError::NotFound(m) && m@
                        == "User not found"@ && kv1 == kv0,
                    Some(u) => {
                        if u.email_verified_at is Some {
                            r matches Err(e) && e matches AppError::AlreadyExists(m) && m@
                                == "Email already verified"@ && kv1 == kv0
                        } else {
                            match r {
                                Ok(out) => {
                                    let code = kv1[activation_key(email@)].value;
                                    &&& kv1 == kv0.insert(
                                        activation_key(email@),
                                        entry_written(code, now, otp_ttl_seconds(cfg)),
                                    )
                                    &&& code.len() == 8
                                    &&& all_digits(code)
                                    &&& out.email@.to == email@
                                    &&& out.email@.subject == "Activate Your Account"@
                                    &&& out.email@.body == activate_email_template_spec(
                                        u.display_name,
                                        code,
                                        cfg.otp_expiry_minutes,
                                        activation_link_spec(cfg.frontend_url, email@, code),
                                    )
                                    &&& out.message@
                                        == "Verification email resent successfully"@
                                },
                                Err(_) => false,
                            }
                        }
                    },
                }
            }),
    {
        let user = match self.users.get_user_by_email(email) {
            Some(u) => u,
            None => {
                return Err(AppError::NotFound("User not found".to_owned()));
            },
        };

        if user.email_verified_at.is_some() {
            return Err(AppError::AlreadyExists("Email already verified".to_owned()));
        }
        proof {
            lemma_first_index_where(old(self).users@, |m: UserModel| m.email == email@);
        }

        let otp = generate_otp(8);

        let ttl = saturating_mul_u64(self.config.otp_expiry_minutes, SECONDS_PER_MINUTE);
        let akey = composite_key(StoreKey::EmailActivation, user.email.as_str());
        self.kv.set_ex(akey.as_str(), otp.as_str(), ttl, now);

        let mut activation_link = self.config.frontend_url.clone();
        activation_link.append("/activate?email=");
        activation_link.append(user.email.as_str());
        activation_link.append("&otp=");
        activation_link.append(otp.as_str());

        let body = activate_email_template(
            user.display_name.as_str(),
            otp.as_str(),
            self.config.otp_expiry_minutes,
            activation_link.as_str(),
        );
        let email_message = EmailMessage {
            to: user.email.clone(),
            subject: "Activate Your Account".to_owned(),
            body,
        };

        Ok(
            OutgoingMessage {
                message: "Verification email resent successfully".to_owned(),
                email: email_message,
            },
        )
    }

    /// Writes `token` as the user's single valid refresh token; an earlier
    /// entry is superseded atomically. This is the rotation primitive.
    fn store_refresh_token(&mut self, user_id: &str, token: &str, now: u64)
        ensures
            final(self).config == old(self).config,
            final(self).users@ == old(self).users@,
            final(self).kv@ == old(self).kv@.insert(
                session_key(user_id@),
                entry_written(token@, now, session_ttl_seconds(old(self).config@)),
            ),
    {
        let ttl = saturating_mul_u64(self.config.refresh_token_duration, 3600);
        let key = composite_key(StoreKey::RefreshToken, user_id);
        self.kv.set_ex(key.as_str(), token, ttl, now);
    }

    /// Deletes the user's session entry, so every outstanding refresh token
    /// of the user stops working regardless of its signature.
    fn revoke_all_tokens(&mut self, user_id: &str)
        ensures
            final(self).config == old(self).config,
            final(self).users@ == old(self).users@,
            final(self).kv@ == old(self).kv@.remove(session_key(user_id@)),
    {
        let key = composite_key(StoreKey::RefreshToken, user_id);
        self.kv.delete(key.as_str());
    }
}

/// What login yields once the password has been accepted: refusal while the
/// email is unverified; otherwise success is owed — a fresh non-empty token
/// pair, exactly as the issuer signs them for this user at `now`, with the
/// refresh token registered as the single session entry.
pub open spec fn login_post_password_ok(
    u: UserModel,
    cfg: ConfigModel,
    now: u64,
    kv0: Map<Seq<char>, EntryModel>,
    kv1: Map<Seq<char>, EntryModel>,
    r: Result<LoginResultDto, AppError>,
) -> bool {
    match u.email_verified_at {
        None => r matches Err(e) && e matches AppError::Unauthorized(m) && m@
            == "Please verify your email before logging in"@ && kv1 == kv0,
        Some(_) => r matches Ok(res) && {
            &&& res.user@ == user_response_of(u)
            &&& res.access_token@ == jwt_token(
                issued_claims(u.id, TokenType::Access, cfg.access_token_duration, now),
                cfg.access_secret,
            )
            &&& res.refresh_token@ == jwt_token(
                issued_claims(u.id, TokenType::Refresh, cfg.refresh_token_duration, now),
                cfg.refresh_secret,
            )
            &&& jwt_payload(res.refresh_token@, cfg.refresh_secret) == Some(
                issued_claims(u.id, TokenType::Refresh, cfg.refresh_token_duration, now),
            )
            &&& res.access_token@.len() > 0
            &&& res.refresh_token@.len() > 0
            &&& kv1 == kv0.insert(
                session_key(u.id),
                entry_written(res.refresh_token@, now, session_ttl_seconds(cfg)),
            )
        },
    }
}

/// The decision the refresh flow takes for a submitted token at instant
/// `now`, before any new tokens are issued: the validation failure, the
/// `Unauthorized` refusals (a kind claim other than `refresh`, so a
/// valid-but-wrong-kind token is refused even when the two secrets are
/// configured identically; no canonical subject; no live session entry; a
/// session entry holding a different token), `NotFound` for a deleted user,
/// or the user whose session rotates.
pub open spec fn refresh_decision(
    users: Seq<UserModel>,
    kv: Map<Seq<char>, EntryModel>,
    cfg: ConfigModel,
    token: Seq<char>,
    now: u64,
) -> Result<UserModel, ErrorKind> {
    match validate_result(token, cfg.refresh_secret, now) {
        Err(k) => Err(k),
        Ok(c) => {
            if c.token_type != TokenType::Refresh.as_string_spec() {
                Err(ErrorKind::Unauthorized)
            } else {
                match uuid_canon(c.sub) {
                    None => Err(ErrorKind::Unauthorized),
                    Some(uid) => if !kv_live(kv, session_key(uid), now) {
                        Err(ErrorKind::Unauthorized)
                    } else if kv[session_key(uid)].value != token {
                        Err(ErrorKind::Unauthorized)
                    } else {
                        match find_user_by_id(users, uid) {
                            None => Err(ErrorKind::NotFound),
                            Some(u) => Ok(u),
                        }
                    },
                }
            }
        },
    }
}

/// The message a refused refresh carries, by cause: the token-validation
/// messages come from the validator; a wrong kind claim, a subject that is no
/// user id, a missing session entry, and a mismatching session entry each
/// have their own `Unauthorized` wording; a deleted user reads
/// `User not found`.
pub open spec fn refresh_refusal_message(
    users: Seq<UserModel>,
    kv: Map<Seq<char>, EntryModel>,
    cfg: ConfigModel,
    token: Seq<char>,
    now: u64,
    e: AppError,
) -> Seq<char> {
    match validate_result(token, cfg.refresh_secret, now) {
        Err(ErrorKind::InvalidToken) => "Invalid token"@,
        Err(_) => e.message_spec(),
        Ok(c) => {
            if c.token_type != TokenType::Refresh.as_string_spec() {
                "Invalid token type"@
            } else {
                match uuid_canon(c.sub) {
                    None => "Invalid user ID in token"@,
                    Some(uid) => if !kv_live(kv, session_key(uid), now) {
                        "Refresh token not found"@
                    } else if kv[session_key(uid)].value != token {
                        "Invalid refresh token"@
                    } else {
                        "User not found"@
                    },
                }
            }
        },
    }
}

/// Refresh-token rotation rejects replays: once a refresh with `old_token`
/// has succeeded for user `u` and the session entry holds the rotated token
/// `new_token`, submitting `old_token` again — at any instant at which it
/// still validates — is refused as `Unauthorized`. The one proviso is that
/// rotation actually changed the stored string: two refreshes of the same
/// session within the same second mint the identical token, and such a
/// replay is indistinguishable from the rotated token itself.
pub proof fn lemma_rotation_rejects_old_token(
    users: Seq<UserModel>,
    kv: Map<Seq<char>, EntryModel>,
    cfg: ConfigModel,
    u: UserModel,
    old_token: Seq<char>,
    new_token: Seq<char>,
    ttl: u64,
    now1: u64,
    now2: u64,
)
    requires
        refresh_decision(users, kv, cfg, old_token, now1) == Ok::<UserModel, ErrorKind>(u),
        new_token != old_token,
        validate_result(old_token, cfg.refresh_secret, now2) is Ok,
    ensures
        refresh_decision(
            users,
            kv.insert(session_key(u.id), entry_written(new_token, now1, ttl)),
            cfg,
            old_token,
            now2,
        ) == Err::<UserModel, ErrorKind>(ErrorKind::Unauthorized),
{
    let c = jwt_payload(old_token, cfg.refresh_secret)->Some_0;
    let uid = uuid_canon(c.sub)->Some_0;
    lemma_first_index_where(users, |m: UserModel| m.id == uid);
}

/// Updating a record without changing its email, display name or id keeps
/// the collection's uniqueness invariant.
pub proof fn lemma_wf_after_update(users: Seq<UserModel>, i: int, u2: UserModel)
    requires
        users_wf(users),
        0 <= i < users.len(),
        u2.email == users[i].email,
        u2.display_name == users[i].display_name,
        u2.id == users[i].id,
    ensures
        users_wf(users.update(i, u2)),
{
    let users1 = users.update(i, u2);
    assert forall|a: int, b: int| 0 <= a < b < users1.len() implies {
        &&& (#[trigger] users1[a]).email != (#[trigger] users1[b]).email
        &&& users1[a].display_name != users1[b].display_name
        &&& users1[a].id != users1[b].id
    } by {
        assert(users[a].email != users[b].email);
        assert(users[a].display_name != users[b].display_name);
        assert(users[a].id != users[b].id);
    }
}

/// Borrows the contents of an optional owned string.
fn opt_as_deref(o: &Option<String>) -> (r: Option<&str>)
    ensures
        crate::users::opt_str_view(r) == crate::users::opt_view(*o),
{
    match o {
        Some(s) => Some(s.as_str()),
        None => None,
    }
}

} // verus!
