use vstd::prelude::*;
use vstd::string::*;

verus! {

/// Application-level error taxonomy.
///
/// Business-rule failures carry a human-readable message; infrastructure
/// failures are wrapped into `InternalServerError` or `ServiceUnavailable`
/// without exposing internal detail.
#[derive(Debug, Clone)]
pub enum AppError {
    BadRequest(String),
    ValidationError(String),
    InvalidInput(String),
    Unauthorized(String),
    InvalidToken(String),
    TokenExpired,
    Forbidden(String),
    NotFound(String),
    ResourceNotFound(String),
    Conflict(String),
    DuplicateEntry(String),
    AlreadyExists(String),
    UnprocessableEntity(String),
    TooManyRequests(String),
    RateLimitExceeded,
    InternalServerError(String),
    DatabaseError(String),
    ServiceUnavailable(String),
}

/// The variant of an `AppError`, without its message payload.
/// Contracts that only care about which rule failed speak of this kind.
#[derive(Debug, Clone, Copy, PartialEq, Eq, Structural)]
pub enum ErrorKind {
    BadRequest,
    ValidationError,
    InvalidInput,
    Unauthorized,
    InvalidToken,
    TokenExpired,
    Forbidden,
    NotFound,
    ResourceNotFound,
    Conflict,
    DuplicateEntry,
    AlreadyExists,
    UnprocessableEntity,
    TooManyRequests,
    RateLimitExceeded,
    InternalServerError,
    DatabaseError,
    ServiceUnavailable,
}

impl AppError {
    /// Which variant this error is.
    pub open spec fn kind(&self) -> ErrorKind {
        match self {
            AppError::BadRequest(_) => ErrorKind::BadRequest,
            AppError::ValidationError(_) => ErrorKind::ValidationError,
            AppError::InvalidInput(_) => ErrorKind::InvalidInput,
            AppError::Unauthorized(_) => ErrorKind::Unauthorized,
            AppError::InvalidToken(_) => ErrorKind::InvalidToken,
            AppError::TokenExpired => ErrorKind::TokenExpired,
            AppError::Forbidden(_) => ErrorKind::Forbidden,
            AppError::NotFound(_) => ErrorKind::NotFound,
            AppError::ResourceNotFound(_) => ErrorKind::ResourceNotFound,
            AppError::Conflict(_) => ErrorKind::Conflict,
            AppError::DuplicateEntry(_) => ErrorKind::DuplicateEntry,
            AppError::AlreadyExists(_) => ErrorKind::AlreadyExists,
            AppError::UnprocessableEntity(_) => ErrorKind::UnprocessableEntity,
            AppError::TooManyRequests(_) => ErrorKind::TooManyRequests,
            AppError::RateLimitExceeded => ErrorKind::RateLimitExceeded,
            AppError::InternalServerError(_) => ErrorKind::InternalServerError,
            AppError::DatabaseError(_) => ErrorKind::DatabaseError,
            AppError::ServiceUnavailable(_) => ErrorKind::ServiceUnavailable,
        }
    }

    /// The HTTP status code this error maps to, as a plain number.
    pub fn status_code(&self) -> (code: u16)
        ensures
            code == self.kind().status_code_spec(),
    {
        match self {
            AppError::BadRequest(_) | AppError::ValidationError(_) | AppError::InvalidInput(_) => {
                400
            },
            AppError::Unauthorized(_) | AppError::InvalidToken(_) | AppError::TokenExpired => 401,
            AppError::Forbidden(_) => 403,
            AppError::NotFound(_) | AppError::ResourceNotFound(_) => 404,
            AppError::Conflict(_) | AppError::DuplicateEntry(_) | AppError::AlreadyExists(_) => 409,
            AppError::UnprocessableEntity(_) => 422,
            AppError::TooManyRequests(_) | AppError::RateLimitExceeded => 429,
            AppError::InternalServerError(_) | AppError::DatabaseError(_) => 500,
            AppError::ServiceUnavailable(_) => 503,
        }
    }

    /// The stable machine-readable code for API clients.
    pub fn error_code(&self) -> (code: &'static str)
        ensures
            code@ == self.kind().error_code_spec(),
    {
        match self {
            AppError::BadRequest(_) => "BAD_REQUEST",
            AppError::ValidationError(_) => "VALIDATION_ERROR",
            AppError::InvalidInput(_) => "INVALID_INPUT",
            AppError::Unauthorized(_) => "UNAUTHORIZED",
            AppError::InvalidToken(_) => "INVALID_TOKEN",
            AppError::TokenExpired => "TOKEN_EXPIRED",
            AppError::Forbidden(_) => "FORBIDDEN",
            AppError::NotFound(_) => "NOT_FOUND",
            AppError::ResourceNotFound(_) => "RESOURCE_NOT_FOUND",
            AppError::Conflict(_) => "CONFLICT",
            AppError::DuplicateEntry(_) => "DUPLICATE_ENTRY",
            AppError::AlreadyExists(_) => "ALREADY_EXISTS",
            AppError::UnprocessableEntity(_) => "UNPROCESSABLE_ENTITY",
            AppError::TooManyRequests(_) => "TOO_MANY_REQUESTS",
            AppError::RateLimitExceeded => "RATE_LIMIT_EXCEEDED",
            AppError::InternalServerError(_) => "INTERNAL_SERVER_ERROR",
            AppError::DatabaseError(_) => "DATABASE_ERROR",
            AppError::ServiceUnavailable(_) => "SERVICE_UNAVAILABLE",
        }
    }

    /// The human-readable message. Business errors return their own message;
    /// `InternalServerError` never exposes internal detail.
    pub fn message(&self) -> (msg: String)
        ensures
            msg@ == self.message_spec(),
    {
        match self {
            AppError::BadRequest(m)
            | AppError::ValidationError(m)
            | AppError::InvalidInput(m)
            | AppError::Unauthorized(m)
            | AppError::InvalidToken(m)
            | AppError::Forbidden(m)
            | AppError::NotFound(m)
            | AppError::ResourceNotFound(m)
            | AppError::Conflict(m)
            | AppError::DuplicateEntry(m)
            | AppError::AlreadyExists(m)
            | AppError::UnprocessableEntity(m)
            | AppError::TooManyRequests(m)
            | AppError::DatabaseError(m)
            | AppError::ServiceUnavailable(m) => m.clone(),
            AppError::TokenExpired => "Token has expired".to_owned(),
            AppError::RateLimitExceeded => "Too many requests. Please try again later".to_owned(),
            AppError::InternalServerError(_) => "Internal server error".to_owned(),
        }
    }

    /// The error rendered for logs: `CODE: message`.
    pub fn describe(&self) -> (text: String)
        ensures
            text@ == self.kind().error_code_spec() + ": "@ + self.message_spec(),
    {
        let mut text = self.error_code().to_owned();
        text.append(": ");
        text.append(self.message().as_str());
        text
    }

    /// What `message` returns, as a mathematical value.
    pub open spec fn message_spec(&self) -> Seq<char> {
        match self {
            AppError::BadRequest(m) => m@,
            AppError::ValidationError(m) => m@,
            AppError::InvalidInput(m) => m@,
            AppError::Unauthorized(m) => m@,
            AppError::InvalidToken(m) => m@,
            AppError::Forbidden(m) => m@,
            AppError::NotFound(m) => m@,
            AppError::ResourceNotFound(m) => m@,
            AppError::Conflict(m) => m@,
            AppError::DuplicateEntry(m) => m@,
            AppError::AlreadyExists(m) => m@,
            AppError::UnprocessableEntity(m) => m@,
            AppError::TooManyRequests(m) => m@,
            AppError::DatabaseError(m) => m@,
            AppError::ServiceUnavailable(m) => m@,
            AppError::TokenExpired => "Token has expired"@,
            AppError::RateLimitExceeded => "Too many requests. Please try again later"@,
            AppError::InternalServerError(_) => "Internal server error"@,
        }
    }
}

impl ErrorKind {
    /// The HTTP status code of each error kind.
    pub open spec fn status_code_spec(self) -> u16 {
        match self {
            ErrorKind::BadRequest | ErrorKind::ValidationError | ErrorKind::InvalidInput => 400,
            ErrorKind::Unauthorized | ErrorKind::InvalidToken | ErrorKind::TokenExpired => 401,
            ErrorKind::Forbidden => 403,
            ErrorKind::NotFound | ErrorKind::ResourceNotFound => 404,
            ErrorKind::Conflict | ErrorKind::DuplicateEntry | ErrorKind::AlreadyExists => 409,
            ErrorKind::UnprocessableEntity => 422,
            ErrorKind::TooManyRequests | ErrorKind::RateLimitExceeded => 429,
            ErrorKind::InternalServerError | ErrorKind::DatabaseError => 500,
            ErrorKind::ServiceUnavailable => 503,
        }
    }

    /// The stable machine-readable code of each error kind.
    pub open spec fn error_code_spec(self) -> Seq<char> {
        match self {
            ErrorKind::BadRequest => "BAD_REQUEST"@,
            ErrorKind::ValidationError => "VALIDATION_ERROR"@,
            ErrorKind::InvalidInput => "INVALID_INPUT"@,
            ErrorKind::Unauthorized => "UNAUTHORIZED"@,
            ErrorKind::InvalidToken => "INVALID_TOKEN"@,
            ErrorKind::TokenExpired => "TOKEN_EXPIRED"@,
            ErrorKind::Forbidden => "FORBIDDEN"@,
            ErrorKind::NotFound => "NOT_FOUND"@,
            ErrorKind::ResourceNotFound => "RESOURCE_NOT_FOUND"@,
            ErrorKind::Conflict => "CONFLICT"@,
            ErrorKind::DuplicateEntry => "DUPLICATE_ENTRY"@,
            ErrorKind::AlreadyExists => "ALREADY_EXISTS"@,
            ErrorKind::UnprocessableEntity => "UNPROCESSABLE_ENTITY"@,
            ErrorKind::TooManyRequests => "TOO_MANY_REQUESTS"@,
            ErrorKind::RateLimitExceeded => "RATE_LIMIT_EXCEEDED"@,
            ErrorKind::InternalServerError => "INTERNAL_SERVER_ERROR"@,
            ErrorKind::DatabaseError => "DATABASE_ERROR"@,
            ErrorKind::ServiceUnavailable => "SERVICE_UNAVAILABLE"@,
        }
    }
}

} // verus!
