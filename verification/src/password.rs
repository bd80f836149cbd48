use vstd::prelude::*;
use crate::errors::AppError;

verus! {

/// Whether `bcrypt::verify(password, hash)` reports a match. The comparison
/// is a pure function of the password and the hash string (the salt is
/// embedded in the hash), so it can be given a name even though its
/// definition is the whole bcrypt algorithm.
pub uninterp spec fn bcrypt_matches(password: Seq<char>, hash: Seq<char>) -> bool;

/// Whether a string is a well-formed bcrypt hash, i.e. one that
/// `bcrypt::verify` parses successfully. Every output of `bcrypt::hash` is
/// well-formed, and verification succeeds exactly on well-formed hashes.
pub uninterp spec fn bcrypt_valid_hash(hash: Seq<char>) -> bool;

/// Work factor used for password hashing: `bcrypt::DEFAULT_COST + 2`,
/// a deliberately high setting that favours security over speed.
pub const HASH_COST_ABOVE_DEFAULT: u32 = 2;

/// Relies on `bcrypt::hash`: each call salts with fresh OS randomness, so two
/// calls on the same password give different strings, but every output is a
/// well-formed 60-character hash that `bcrypt::verify` matches against the
/// hashed password. Returns `None` only when the OS random source fails.
#[verifier::external_body]
fn bcrypt_hash(password: &str) -> (r: Option<String>)
    ensures
        r matches Some(h) ==> {
            &&& bcrypt_matches(password@, h@)
            &&& bcrypt_valid_hash(h@)
            &&& h@.len() == 60
        },
{
    bcrypt::hash(password, bcrypt::DEFAULT_COST + HASH_COST_ABOVE_DEFAULT).ok()
}

/// Relies on `bcrypt::verify`: recomputes the hash from the password and the
/// salt embedded in `hash` and compares in constant time. Fails exactly when
/// `hash` is not a well-formed bcrypt hash; a mere mismatch is `Some(false)`.
#[verifier::external_body]
fn bcrypt_verify(password: &str, hash: &str) -> (r: Option<bool>)
    ensures
        r matches Some(b) ==> b == bcrypt_matches(password@, hash@),
        r is Some <==> bcrypt_valid_hash(hash@),
{
    bcrypt::verify(password, hash).ok()
}

/// Applies the slow, salted one-way hash to a password.
///
/// Succeeds unless the hashing backend's random source fails, which is an
/// infrastructure failure, not a user error. The returned string always
/// verifies against the hashed password.
pub fn hash_password(password: &str) -> (r: Result<String, AppError>)
    ensures
        r matches Ok(h) ==> {
            &&& bcrypt_matches(password@, h@)
            &&& bcrypt_valid_hash(h@)
            &&& h@.len() == 60
        },
        r matches Err(e) ==> e matches AppError::InternalServerError(_),
{
    match bcrypt_hash(password) {
        Some(h) => Ok(h),
        None => Err(AppError::InternalServerError("Password hashing failed".to_owned())),
    }
}

/// Checks a password against a stored hash. A mismatch is reported as
/// `Ok(false)`, not an error; it fails if and only if the hash string is
/// malformed.
pub fn verify_password(password: &str, hash: &str) -> (r: Result<bool, AppError>)
    ensures
        r matches Ok(b) ==> b == bcrypt_matches(password@, hash@),
        r is Ok <==> bcrypt_valid_hash(hash@),
        r matches Err(e) ==> e matches AppError::InternalServerError(_),
{
    match bcrypt_verify(password, hash) {
        Some(b) => Ok(b),
        None => Err(AppError::InternalServerError("Password verification failed".to_owned())),
    }
}

} // verus!
