use vstd::prelude::*;

verus! {

/// What `uuid::Uuid::parse_str(s).map(|u| u.to_string())` returns: `None`
/// when `s` is not a UUID in any accepted textual form, otherwise the
/// canonical (hyphenated, lower-case) rendering. A pure function of `s`.
pub uninterp spec fn uuid_canon(s: Seq<char>) -> Option<Seq<char>>;

/// Whether a string is already a canonical UUID rendering: parsing it
/// succeeds and formats back to itself.
pub open spec fn is_canonical_uuid(s: Seq<char>) -> bool {
    uuid_canon(s) == Some(s)
}

/// Relies on `uuid::Uuid::new_v4` and its `Display` impl: a fresh random
/// UUID, rendered in the canonical hyphenated lower-case form, which is 36
/// characters long and parses back to itself. Which UUID comes back is
/// random and nothing more is promised about it.
#[verifier::external_body]
pub(crate) fn new_uuid_string() -> (id: String)
    ensures
        id@.len() == 36,
        is_canonical_uuid(id@),
{
    uuid::Uuid::new_v4().to_string()
}

/// Relies on `uuid::Uuid::parse_str` and the `Display` impl: parses any
/// accepted UUID text and re-renders it canonically; fails exactly when the
/// input is not a UUID.
#[verifier::external_body]
pub(crate) fn canonicalize_uuid(s: &str) -> (r: Option<String>)
    ensures
        match r {
            Some(id) => uuid_canon(s@) == Some(id@),
            None => uuid_canon(s@) is None,
        },
{
    match uuid::Uuid::parse_str(s) {
        Ok(u) => Some(u.to_string()),
        Err(_) => None,
    }
}

} // verus!
