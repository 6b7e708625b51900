//! Access to the JSON request document through `rustc-serialize`.
//!
//! Parsing and field lookup are functions of the payload text alone, so
//! each field read is stated over a named function of the text; the
//! verified envelope and action decoders do everything else.  Reading a
//! field parses the text again — the cost of keeping the opaque parsed
//! value out of every contract.

use vstd::prelude::*;

use rustc_serialize::json::Json;

verus! {

/// Whether this text parses as a JSON document, per rustc-serialize's
/// parser.
pub uninterp spec fn json_parses(s: Seq<char>) -> bool;

/// What parsing `s` and looking `key` up as a string returns: the text of
/// the string under `key`, where `s` parses to an object carrying a string
/// there; `None` otherwise.
pub uninterp spec fn json_string_field_of(s: Seq<char>, key: Seq<char>) -> Option<Seq<char>>;

/// What parsing `s` and looking `key` up as a boolean returns.
pub uninterp spec fn json_bool_field_of(s: Seq<char>, key: Seq<char>) -> Option<bool>;

/// What parsing `s` and looking `key` up as a signed 64-bit number returns.
pub uninterp spec fn json_i64_field_of(s: Seq<char>, key: Seq<char>) -> Option<i64>;

/// The boolean under `key`, or `default` where there is none.
pub open spec fn spec_bool_field_or(s: Seq<char>, key: Seq<char>, default: bool) -> bool {
    match json_bool_field_of(s, key) {
        Some(b) => b,
        None => default,
    }
}

#[verifier::external_type_specification]
#[verifier::external_body]
pub struct ExJson(Json);

/// Relies on rustc-serialize's `Json::from_str`: whether a text parses is a
/// function of the text alone.
#[verifier::external_body]
pub fn json_parse(s: &str) -> (r: Option<Json>)
    ensures
        r is Some <==> json_parses(s@),
{
    Json::from_str(s).ok()
}

/// Relies on rustc-serialize's `Json::from_str`, `Json::find` and
/// `Json::as_string`: all functions of the text and key alone.
#[verifier::external_body]
pub fn json_string_field(payload: &str, key: &str) -> (r: Option<String>)
    ensures
        match r {
            Some(v) => json_string_field_of(payload@, key@) == Some(v@),
            None => json_string_field_of(payload@, key@) is None,
        },
{
    Json::from_str(payload).ok().and_then(
        |j| j.find(key).and_then(|v| v.as_string()).map(|x| x.to_string()),
    )
}

/// Relies on rustc-serialize's `Json::from_str`, `Json::find` and
/// `Json::as_boolean`: all functions of the text and key alone.
#[verifier::external_body]
pub fn json_bool_field(payload: &str, key: &str) -> (r: Option<bool>)
    ensures
        r == json_bool_field_of(payload@, key@),
{
    Json::from_str(payload).ok().and_then(|j| j.find(key).and_then(|v| v.as_boolean()))
}

/// Relies on rustc-serialize's `Json::from_str`, `Json::find` and
/// `Json::as_i64`: all functions of the text and key alone.
#[verifier::external_body]
pub fn json_i64_field(payload: &str, key: &str) -> (r: Option<i64>)
    ensures
        r == json_i64_field_of(payload@, key@),
{
    Json::from_str(payload).ok().and_then(|j| j.find(key).and_then(|v| v.as_i64()))
}

} // verus!
