//! 128-bit identifiers and their canonical text form.
//!
//! Identifiers are carried as plain `u128` values inside the library; the
//! `uuid` crate supplies fresh random values and the textual rendering.

use vstd::prelude::*;

verus! {

/// The hyphenated text form that `uuid::Uuid::to_string` gives a 128-bit
/// identifier; a fixed function of the identifier alone.
pub uninterp spec fn uuid_str_of(id: u128) -> Seq<char>;

/// What `uuid::Uuid::parse_str` yields on a string: the identifier it
/// denotes, or nothing; a fixed function of the string alone.
pub uninterp spec fn uuid_parse_of(s: Seq<char>) -> Option<u128>;

/// Relies on uuid::Uuid::new_v4 for a freshly drawn random identifier.
/// Nothing is assumed of the value.
#[verifier::external_body]
pub(crate) fn fresh_id() -> u128 {
    uuid::Uuid::new_v4().as_u128()
}

/// Relies on uuid::Uuid::to_string (through from_u128): the rendering is a
/// function of the identifier alone, and uuid::Uuid::parse_str accepts it
/// back unchanged.
#[verifier::external_body]
pub(crate) fn uuid_to_string(id: u128) -> (r: String)
    ensures
        r@ == uuid_str_of(id),
        uuid_parse_of(r@) == Some(id),
{
    uuid::Uuid::from_u128(id).to_string()
}

/// Relies on uuid::Uuid::parse_str: a deterministic parse of the textual
/// identifier forms.
#[verifier::external_body]
pub(crate) fn uuid_parse(s: &str) -> (r: Option<u128>)
    ensures
        r == uuid_parse_of(s@),
{
    match uuid::Uuid::parse_str(s) {
        Ok(u) => Some(u.as_u128()),
        Err(_) => None,
    }
}

} // verus!
