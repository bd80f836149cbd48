use vstd::prelude::*;
use vstd::string::*;
use crate::errors::{AppError, ErrorKind};
use crate::ids::uuid_canon;
use crate::saturating_add_u64;

verus! {

/// The two token kinds. Access tokens are short-lived credentials for API
/// calls; refresh tokens are longer-lived and only mint new pairs. Each kind
/// is signed with its own secret.
#[derive(Debug, Clone, Copy, PartialEq, Eq, Structural)]
pub enum TokenType {
    Refresh,
    Access,
}

impl TokenType {
    /// The kind's name as it is embedded in token claims.
    pub open spec fn as_string_spec(&self) -> Seq<char> {
        match self {
            TokenType::Refresh => "refresh"@,
            TokenType::Access => "access"@,
        }
    }

    /// The kind's name as it is embedded in token claims.
    pub fn as_string(&self) -> (s: String)
        ensures
            s@ == self.as_string_spec(),
    {
        match self {
            TokenType::Refresh => "refresh".to_owned(),
            TokenType::Access => "access".to_owned(),
        }
    }
}

/// The claims embedded in a token: subject (the user id), absolute expiry
/// instant, token kind, and the instant of issue.
#[derive(Debug, Clone)]
pub struct Claims {
    pub sub: String,
    pub exp: u64,
    pub token_type: String,
    pub iat: u64,
}

/// The mathematical value of a claims set.
pub ghost struct ClaimsModel {
    pub sub: Seq<char>,
    pub exp: u64,
    pub token_type: Seq<char>,
    pub iat: u64,
}

impl View for Claims {
    type V = ClaimsModel;

    open spec fn view(&self) -> ClaimsModel {
        ClaimsModel {
            sub: self.sub@,
            exp: self.exp,
            token_type: self.token_type@,
            iat: self.iat,
        }
    }
}

/// The token string that signing `claims` under `secret` produces. Signing is
/// HMAC over a canonical serialization, a pure function of the claims and the
/// secret; its definition is the whole signing scheme, so it only gets a name.
pub uninterp spec fn jwt_token(claims: ClaimsModel, secret: Seq<char>) -> Seq<char>;

/// The claims that decoding and signature-checking `token` under `secret`
/// recovers, or `None` when the token is malformed or not signed with
/// `secret`. A pure function of the token and the secret; expiry is *not*
/// part of it and is checked separately, so validation behaviour does not
/// depend on the signing library's own expiry default.
pub uninterp spec fn jwt_payload(token: Seq<char>, secret: Seq<char>) -> Option<ClaimsModel>;

/// Relies on `jsonwebtoken::encode` (HS256, default header): produces the
/// non-empty signed token for exactly these claims, which decodes back to
/// them under the same secret. It cannot fail: an HMAC key accepts any
/// secret bytes, HMAC signing itself is infallible, and serializing this
/// fixed claims shape cannot error.
#[verifier::external_body]
fn jwt_encode(claims: &Claims, secret: &str) -> (r: Option<String>)
    ensures
        r is Some,
        r matches Some(t) ==> {
            &&& t@ == jwt_token(claims@, secret@)
            &&& jwt_payload(t@, secret@) == Some(claims@)
            &&& t@.len() > 0
        },
{
    let mut m = serde_json::Map::new();
    m.insert("sub".to_owned(), serde_json::Value::String(claims.sub.clone()));
    m.insert("exp".to_owned(), serde_json::Value::from(claims.exp));
    m.insert("token_type".to_owned(), serde_json::Value::String(claims.token_type.clone()));
    m.insert("iat".to_owned(), serde_json::Value::from(claims.iat));
    jsonwebtoken::encode(
        &jsonwebtoken::Header::default(),
        &serde_json::Value::Object(m),
        &jsonwebtoken::EncodingKey::from_secret(secret.as_bytes()),
    ).ok()
}

/// Relies on `jsonwebtoken::decode` (HS256), with the library's own expiry
/// check switched off so that decoding is a pure function of token and
/// secret: returns the embedded claims when the signature verifies and the
/// payload is well-formed, `None` otherwise.
#[verifier::external_body]
fn jwt_decode(token: &str, secret: &str) -> (r: Option<Claims>)
    ensures
        match r {
            Some(c) => jwt_payload(token@, secret@) == Some(c@),
            None => jwt_payload(token@, secret@) is None,
        },
{
    let mut validation = jsonwebtoken::Validation::new(jsonwebtoken::Algorithm::HS256);
    validation.validate_exp = false;
    let key = jsonwebtoken::DecodingKey::from_secret(secret.as_bytes());
    let data = jsonwebtoken::decode::<serde_json::Value>(token, &key, &validation).ok()?;
    let sub = data.claims.get("sub")?.as_str()?.to_owned();
    let exp = data.claims.get("exp")?.as_u64()?;
    let token_type = data.claims.get("token_type")?.as_str()?.to_owned();
    let iat = data.claims.get("iat")?.as_u64()?;
    Some(Claims { sub, exp, token_type, iat })
}

/// The absolute expiry of a token issued at `now` with a lifetime of
/// `duration` hours, capped at the largest representable instant.
pub open spec fn token_expiry(now: u64, duration: u64) -> u64 {
    let secs: u64 = if duration * 3600 <= u64::MAX {
        (duration * 3600) as u64
    } else {
        u64::MAX
    };
    if now + secs <= u64::MAX {
        (now + secs) as u64
    } else {
        u64::MAX
    }
}

/// The claims a token issued at `now` carries: subject, kind, issue instant,
/// and expiry `now` + lifetime.
pub open spec fn issued_claims(
    sub: Seq<char>,
    token_type: TokenType,
    duration: u64,
    now: u64,
) -> ClaimsModel {
    ClaimsModel {
        sub,
        exp: token_expiry(now, duration),
        token_type: token_type.as_string_spec(),
        iat: now,
    }
}

/// Issues a signed token for `user_id` of the given kind, valid for
/// `duration` hours from `now`. The signing secret must be the one belonging
/// to the kind. Always succeeds: HMAC signing accepts any secret.
pub fn generate_token(
    user_id: &str,
    token_type: TokenType,
    secret: &str,
    duration: u64,
    now: u64,
) -> (r: Result<String, AppError>)
    ensures
        r is Ok,
        r matches Ok(t) ==> {
            &&& t@ == jwt_token(issued_claims(user_id@, token_type, duration, now), secret@)
            &&& jwt_payload(t@, secret@) == Some(issued_claims(user_id@, token_type, duration, now))
            &&& t@.len() > 0
        },
{
    let lifetime_seconds: u64 = if duration <= u64::MAX / 3600 {
        duration * 3600
    } else {
        u64::MAX
    };
    let exp = saturating_add_u64(now, lifetime_seconds);
    let claims = Claims {
        sub: user_id.to_owned(),
        exp,
        token_type: token_type.as_string(),
        iat: now,
    };
    proof {
        assert(claims@ == issued_claims(user_id@, token_type, duration, now));
    }
    match jwt_encode(&claims, secret) {
        Some(t) => Ok(t),
        None => Err(AppError::InternalServerError("Token signing failed".to_owned())),
    }
}

/// What validating a token under a secret at instant `now` yields: the
/// embedded claims when the signature verifies and the expiry instant has not
/// passed; `InvalidToken` on malformed or mis-signed input; `TokenExpired`
/// when the embedded expiry lies before `now`.
pub open spec fn validate_result(token: Seq<char>, secret: Seq<char>, now: u64) -> Result<
    ClaimsModel,
    ErrorKind,
> {
    match jwt_payload(token, secret) {
        None => Err(ErrorKind::InvalidToken),
        Some(c) => if c.exp < now {
            Err(ErrorKind::TokenExpired)
        } else {
            Ok(c)
        },
    }
}

/// Verifies a token's signature and structure and checks its expiry against
/// `now` explicitly. Succeeds exactly on well-signed, unexpired tokens.
pub fn validate_token(token: &str, secret: &str, now: u64) -> (r: Result<Claims, AppError>)
    ensures
        match r {
            Ok(c) => validate_result(token@, secret@, now) == Ok::<ClaimsModel, ErrorKind>(c@),
            Err(e) => {
                &&& validate_result(token@, secret@, now) matches Err(k) && e.kind() == k
                &&& e matches AppError::InvalidToken(m) ==> m@ == "Invalid token"@
            },
        },
{
    match jwt_decode(token, secret) {
        None => Err(AppError::InvalidToken("Invalid token".to_owned())),
        Some(claims) => {
            if claims.exp < now {
                Err(AppError::TokenExpired)
            } else {
                Ok(claims)
            }
        },
    }
}

/// What extracting the subject of a validated token yields: the canonical
/// user id, or the validation failure, or `InvalidToken` when the subject is
/// not a well-formed user id.
pub open spec fn extract_user_id_result(token: Seq<char>, secret: Seq<char>, now: u64) -> Result<
    Seq<char>,
    ErrorKind,
> {
    match validate_result(token, secret, now) {
        Err(k) => Err(k),
        Ok(c) => match uuid_canon(c.sub) {
            None => Err(ErrorKind::InvalidToken),
            Some(uid) => Ok(uid),
        },
    }
}

/// Validates a token and returns the user id it was issued to, in canonical
/// form. Fails like `validate_token`, and with `InvalidToken` when the
/// subject claim is not a well-formed user id.
pub fn extract_user_id(token: &str, secret: &str, now: u64) -> (r: Result<String, AppError>)
    ensures
        match r {
            Ok(uid) => extract_user_id_result(token@, secret@, now) == Ok::<Seq<char>, ErrorKind>(
                uid@,
            ),
            Err(e) => extract_user_id_result(token@, secret@, now) matches Err(k) && e.kind() == k,
        },
{
    let claims = validate_token(token, secret, now)?;
    match crate::ids::canonicalize_uuid(claims.sub.as_str()) {
        Some(uid) => Ok(uid),
        None => Err(AppError::InvalidToken("Invalid user ID in token".to_owned())),
    }
}

/// Picks the bearer token out of an authorization header value: the text
/// after the `Bearer ` scheme prefix. A value not using that scheme is
/// refused as `Unauthorized`.
pub fn extract_bearer_token(auth_header: &str) -> (r: Result<&str, AppError>)
    ensures
        match r {
            Ok(t) => auth_header@.len() >= 7 && auth_header@.subrange(0, 7) == "Bearer "@ && t@
                == auth_header@.subrange(7, auth_header@.len() as int),
            Err(e) => {
                &&& !(auth_header@.len() >= 7 && auth_header@.subrange(0, 7) == "Bearer "@)
                &&& e matches AppError::Unauthorized(m) && m@
                    == "Invalid authorization format. Expected 'Bearer <token>'"@
            },
        },
{
    let len = auth_header.unicode_len();
    if len >= 7 {
        let prefix = auth_header.substring_char(0, 7);
        if prefix.to_owned() == "Bearer ".to_owned() {
            return Ok(auth_header.substring_char(7, len));
        }
    }
    Err(
        AppError::Unauthorized(
            "Invalid authorization format. Expected 'Bearer <token>'".to_owned(),
        ),
    )
}

/// A token carrying claims `c` under `secret` validates successfully at every
/// instant up to and including its expiry instant — one second before expiry
/// it still succeeds and returns exactly `c` — and at every later instant it
/// fails with `TokenExpired`.
pub proof fn lemma_token_expiry_boundary(
    token: Seq<char>,
    secret: Seq<char>,
    c: ClaimsModel,
    now: u64,
)
    requires
        jwt_payload(token, secret) == Some(c),
    ensures
        now > c.exp ==> validate_result(token, secret, now) == Err::<ClaimsModel, ErrorKind>(
            ErrorKind::TokenExpired,
        ),
        now <= c.exp ==> validate_result(token, secret, now) == Ok::<ClaimsModel, ErrorKind>(c),
{
}

} // verus!
