//! Textual UUID handling, delegated to the `uuid` crate.
//!
//! A UUID is held as its 128-bit value. What counts as valid UUID text — any
//! standard encoding: simple, hyphenated, braced or URN — is the `uuid` crate's
//! business; its parser and its hyphenated rendering are named here and relied
//! upon, not reimplemented.

use crate::json::{spec_as_str, spec_get, JsonModel, JsonValue};
use vstd::prelude::*;

verus! {

/// The 128-bit value denoted by `s` under the `uuid` crate's parser, if `s` is
/// a standard textual UUID encoding; nothing otherwise.
pub uninterp spec fn uuid_num_of_text(s: Seq<char>) -> Option<u128>;

/// The hyphenated lowercase text of the UUID value `u`.
pub uninterp spec fn uuid_text_of_num(u: u128) -> Seq<char>;

/// Relies on `uuid::Uuid::parse_str` and `Uuid::as_u128`: parsing is
/// deterministic in the input characters alone, accepts exactly the standard
/// textual UUID encodings, and yields the denoted 128-bit value.
#[verifier::external_body]
pub(crate) fn parse_uuid_text(s: &str) -> (r: Option<u128>)
    ensures
        r == uuid_num_of_text(s@),
{
    match uuid::Uuid::parse_str(s) {
        Ok(u) => Some(u.as_u128()),
        Err(_) => None,
    }
}

/// Relies on `uuid::Uuid::from_u128` and the hyphenated `Display` rendering:
/// the text depends on `u` alone, is a standard hyphenated encoding, and
/// `Uuid::parse_str` maps it back to `u`.
#[verifier::external_body]
pub(crate) fn uuid_text(u: u128) -> (r: String)
    ensures
        r@ == uuid_text_of_num(u),
        uuid_num_of_text(r@) == Some(u),
{
    uuid::Uuid::from_u128(u).hyphenated().to_string()
}

/// The UUID value under key `key` of object `v`: the key must be present, hold
/// a string, and the string must be valid UUID text.
pub open spec fn uuid_of_field(v: JsonModel, key: Seq<char>) -> Option<u128> {
    match spec_get(v, key) {
        Some(field) => match spec_as_str(field) {
            Some(s) => uuid_num_of_text(s),
            None => None,
        },
        None => None,
    }
}

/// Extracts and parses the UUID under key `key` of object `value`.
pub(crate) fn extract_uuid(value: &JsonValue, key: &str) -> (r: Option<u128>)
    ensures
        r == uuid_of_field(value@, key@),
{
    match value.get(key) {
        Some(field) => match field.as_str() {
            Some(s) => parse_uuid_text(s),
            None => None,
        },
        None => None,
    }
}

} // verus!
