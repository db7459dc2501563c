//! The boundary with UTF-8 decoding and with `serde_json`.
//!
//! What these outside functions compute is given a name; the library's own
//! contracts are stated over those names.

use vstd::prelude::*;

verus! {

/// serde_json::Value, carried as an opaque value: what the library reads of
/// it goes through `members` and `int_of`.
#[verifier::external_type_specification]
#[verifier::external_body]
pub struct ExJsonValue(serde_json::Value);

/// The text that a byte sequence decodes to as UTF-8, or `None` where the
/// bytes are not valid UTF-8.
pub uninterp spec fn utf8_text(b: Seq<u8>) -> Option<Seq<char>>;

/// The JSON value that a text parses to, or `None` where it is not JSON.
pub uninterp spec fn json_of(s: Seq<char>) -> Option<serde_json::Value>;

/// The members of a JSON object, by key; empty for any other JSON value.
pub uninterp spec fn members(v: serde_json::Value) -> Map<Seq<char>, serde_json::Value>;

/// The value of a JSON integer that fits in an `i64`; `None` for any other
/// JSON value.
pub uninterp spec fn int_of(v: serde_json::Value) -> Option<i64>;

/// Relies on std::str::from_utf8: the text the bytes encode, if they are
/// valid UTF-8.
#[verifier::external_body]
pub(crate) fn decode_utf8(b: &[u8]) -> (r: Option<&str>)
    ensures
        match r {
            Some(s) => utf8_text(b@) == Some(s@),
            None => utf8_text(b@) is None,
        },
{
    std::str::from_utf8(b).ok()
}

/// Relies on serde_json::from_str::<Value>: the JSON value of the text, if it
/// is JSON.
#[verifier::external_body]
pub(crate) fn parse_json(s: &str) -> (r: Option<serde_json::Value>)
    ensures
        r == json_of(s@),
{
    serde_json::from_str::<serde_json::Value>(s).ok()
}

/// Relies on serde_json::Value::get with a string key: the member under that
/// key of an object, and `None` for a missing key or a value that is no object.
#[verifier::external_body]
pub(crate) fn member<'a>(v: &'a serde_json::Value, key: &str) -> (r: Option<&'a serde_json::Value>)
    ensures
        match r {
            Some(m) => members(*v).contains_key(key@) && members(*v)[key@] == *m,
            None => !members(*v).contains_key(key@),
        },
{
    v.get(key)
}

/// Relies on serde_json::Value::as_i64: the integer that a JSON number holds,
/// where it fits in an `i64`.
pub assume_specification[ serde_json::Value::as_i64 ](v: &serde_json::Value) -> (r: Option<i64>)
    ensures
        r == int_of(*v),
;

} // verus!
