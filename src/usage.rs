//! The usage record and its extraction from a response body.

use vstd::prelude::*;
use crate::json::{decode_utf8, int_of, json_of, member, members, parse_json, utf8_text};

verus! {

/// Token counts reported by one API response.
#[derive(Clone, Copy, Debug, PartialEq, Eq, Structural)]
pub struct UsageRecord {
    pub prompt_tokens: i64,
    pub completion_tokens: i64,
    pub total_tokens: i64,
}

/// The key of the usage object in a response body.
pub open spec fn usage_key() -> Seq<char> {
    seq!['u', 's', 'a', 'g', 'e']
}

pub open spec fn prompt_key() -> Seq<char> {
    seq!['p', 'r', 'o', 'm', 'p', 't', '_', 't', 'o', 'k', 'e', 'n', 's']
}

pub open spec fn completion_key() -> Seq<char> {
    seq!['c', 'o', 'm', 'p', 'l', 'e', 't', 'i', 'o', 'n', '_', 't', 'o', 'k', 'e', 'n', 's']
}

pub open spec fn total_key() -> Seq<char> {
    seq!['t', 'o', 't', 'a', 'l', '_', 't', 'o', 'k', 'e', 'n', 's']
}

/// The integer member of a JSON value under `key`, if the value is an object
/// with that member and it is an integer that fits in an `i64`.
pub open spec fn int_member(v: serde_json::Value, key: Seq<char>) -> Option<i64> {
    if members(v).contains_key(key) {
        int_of(members(v)[key])
    } else {
        None
    }
}

/// The record made of three counts, present only when all three are.
pub open spec fn record_from(p: Option<i64>, c: Option<i64>, t: Option<i64>) -> Option<UsageRecord> {
    match (p, c, t) {
        (Some(p), Some(c), Some(t)) => Some(
            UsageRecord { prompt_tokens: p, completion_tokens: c, total_tokens: t },
        ),
        _ => None,
    }
}

/// The record that a usage object describes: all three counts or nothing.
pub open spec fn record_of(u: serde_json::Value) -> Option<UsageRecord> {
    record_from(int_member(u, prompt_key()), int_member(u, completion_key()), int_member(u, total_key()))
}

/// The usage record of a JSON document: the record of its `usage` member.
pub open spec fn document_usage(doc: serde_json::Value) -> Option<UsageRecord> {
    if members(doc).contains_key(usage_key()) {
        record_of(members(doc)[usage_key()])
    } else {
        None
    }
}

/// The usage record of a body: decoded as UTF-8, parsed as JSON, then read
/// from its `usage` member. Any failed stage gives `None`.
pub open spec fn body_usage(body: Seq<u8>) -> Option<UsageRecord> {
    match utf8_text(body) {
        None => None,
        Some(text) => match json_of(text) {
            None => None,
            Some(doc) => document_usage(doc),
        },
    }
}

impl UsageRecord {
    /// Builds a record from three optional counts; `None` unless all three
    /// are present.
    pub fn from_fields(p: Option<i64>, c: Option<i64>, t: Option<i64>) -> (r: Option<UsageRecord>)
        ensures
            r == record_from(p, c, t),
    {
        match (p, c, t) {
            (Some(p), Some(c), Some(t)) => Some(
                UsageRecord { prompt_tokens: p, completion_tokens: c, total_tokens: t },
            ),
            _ => None,
        }
    }
}

/// The integer member of `v` under `key`, as `int_member` describes it.
fn int_field(v: &serde_json::Value, key: &str) -> (r: Option<i64>)
    ensures
        r == int_member(*v, key@),
{
    match member(v, key) {
        Some(m) => m.as_i64(),
        None => None,
    }
}

/// Decodes a usage object into a record; `None` when any of the three counts
/// is missing or is not an integer that fits in an `i64`.
pub fn usage_from_value(u: &serde_json::Value) -> (r: Option<UsageRecord>)
    ensures
        r == record_of(*u),
{
    let pk = "prompt_tokens";
    let ck = "completion_tokens";
    let tk = "total_tokens";
    proof {
        reveal_strlit("prompt_tokens");
        reveal_strlit("completion_tokens");
        reveal_strlit("total_tokens");
        assert(pk@ =~= prompt_key());
        assert(ck@ =~= completion_key());
        assert(tk@ =~= total_key());
    }
    let p = int_field(u, pk);
    let c = int_field(u, ck);
    let t = int_field(u, tk);
    UsageRecord::from_fields(p, c, t)
}

/// Reads the usage record from the `usage` member of a JSON document.
pub fn usage_from_document(doc: &serde_json::Value) -> (r: Option<UsageRecord>)
    ensures
        r == document_usage(*doc),
{
    let k = "usage";
    proof {
        reveal_strlit("usage");
        assert(k@ =~= usage_key());
    }
    match member(doc, k) {
        Some(u) => usage_from_value(u),
        None => None,
    }
}

/// Extracts the usage record of a whole response body. Invalid UTF-8,
/// invalid JSON, a missing `usage` member and an incomplete usage object all
/// give `None`.
pub fn parse_usage(body: &[u8]) -> (r: Option<UsageRecord>)
    ensures
        r == body_usage(body@),
{
    match decode_utf8(body) {
        None => None,
        Some(text) => match parse_json(text) {
            None => None,
            Some(doc) => usage_from_document(&doc),
        },
    }
}

} // verus!
