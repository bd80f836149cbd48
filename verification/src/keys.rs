use vstd::prelude::*;
use vstd::string::*;

verus! {

/// The named purposes the key-value store is used for. Each maps to a fixed
/// namespace prefix, so a missing-key configuration failure cannot happen at
/// run time.
#[derive(Debug, Clone, Copy, PartialEq, Eq, Structural)]
pub enum StoreKey {
    EmailActivation,
    ForgotPassword,
    RefreshToken,
}

impl StoreKey {
    /// The namespace prefix of this purpose.
    pub open spec fn prefix_spec(self) -> Seq<char> {
        match self {
            StoreKey::EmailActivation => "email_otp"@,
            StoreKey::ForgotPassword => "password_reset_token"@,
            StoreKey::RefreshToken => "user_refresh_token"@,
        }
    }
}

/// Maps each store purpose to its namespace prefix.
pub fn redis_key_map(key: StoreKey) -> (prefix: &'static str)
    ensures
        prefix@ == key.prefix_spec(),
{
    match key {
        StoreKey::EmailActivation => "email_otp",
        StoreKey::ForgotPassword => "password_reset_token",
        StoreKey::RefreshToken => "user_refresh_token",
    }
}

/// The full store key for a purpose and an identifier: `prefix:id`.
pub open spec fn composite_key_spec(key: StoreKey, id: Seq<char>) -> Seq<char> {
    key.prefix_spec() + ":"@ + id
}

/// Builds the full store key for a purpose and an identifier.
pub fn composite_key(key: StoreKey, id: &str) -> (full: String)
    ensures
        full@ == composite_key_spec(key, id@),
{
    let prefix = redis_key_map(key);
    let mut full = prefix.to_owned();
    full.append(":");
    full.append(id);
    full
}

} // verus!
