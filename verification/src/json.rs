//! Decoding the runtime binary's JSON output. The external tool writes the
//! literal `null` for an empty collection; that convention is normalized to
//! an empty list here, before any JSON parsing.

use vstd::prelude::*;

use crate::error::RuncError;
use crate::text::{str_eq, trim, trim_spec};

verus! {

#[verifier::external_type_specification]
#[verifier::external_body]
pub struct ExJsonValue(serde_json::Value);

/// Whether `serde_json` accepts `s` as one JSON document; a function of the
/// characters alone.
pub uninterp spec fn json_text_valid(s: Seq<char>) -> bool;

/// Whether `serde_json` accepts `s` as a JSON array; a function of the
/// characters alone.
pub uninterp spec fn json_array_valid(s: Seq<char>) -> bool;

/// The list of numbers that `serde_json` reads from `s` when it accepts `s`
/// as a JSON array of unsigned numbers; a function of the characters alone.
pub uninterp spec fn parsed_pid_list(s: Seq<char>) -> Option<Seq<usize>>;

/// Relies on `serde_json::from_str::<Value>`: parses `s` as one JSON
/// document.
#[verifier::external_body]
fn parse_json_value(s: &str) -> (r: Result<serde_json::Value, serde_json::Error>)
    ensures
        r.is_ok() == json_text_valid(s@),
{
    serde_json::from_str(s)
}

/// Relies on `serde_json::from_str::<Vec<Value>>`: parses `s` as a JSON
/// array of documents.
#[verifier::external_body]
fn parse_json_values(s: &str) -> (r: Result<Vec<serde_json::Value>, serde_json::Error>)
    ensures
        r.is_ok() == json_array_valid(s@),
{
    serde_json::from_str(s)
}

/// Relies on `serde_json::from_str::<Vec<usize>>`: parses `s` as a JSON
/// array of unsigned numbers, exactly the numbers written in `s`.
#[verifier::external_body]
fn parse_pids(s: &str) -> (r: Result<Vec<usize>, serde_json::Error>)
    ensures
        r matches Ok(v) ==> parsed_pid_list(s@) == Some(v@),
        r is Err ==> parsed_pid_list(s@) is None,
{
    serde_json::from_str(s)
}

/// Relies on `serde_json::Value::get`: a copy of the value under field
/// `key`, when `v` is an object holding that field.
#[verifier::external_body]
fn json_field(v: &serde_json::Value, key: &str) -> Option<serde_json::Value> {
    match v.get(key) {
        Some(f) => Some(f.clone()),
        None => None,
    }
}

/// Relies on `serde_json::Value::Null`: the JSON null document.
#[verifier::external_body]
fn null_value() -> serde_json::Value {
    serde_json::Value::Null
}

/// Decodes the list verb's output: the external tool's literal `null` is an
/// empty collection, not an error; anything else is read as a JSON array of
/// container records.
pub fn decode_container_list(output: &str) -> (r: Result<Vec<serde_json::Value>, RuncError>)
    ensures
        trim_spec(output@) == "null"@ ==> (r matches Ok(v) && v@.len() == 0),
        trim_spec(output@) != "null"@ ==> (r is Ok) == json_array_valid(trim_spec(output@)),
        r matches Err(e) ==> e matches RuncError::JsonDeserializationFailed(_),
{
    let t = trim(output);
    if str_eq(t, "null") {
        Ok(Vec::new())
    } else {
        match parse_json_values(t) {
            Ok(v) => Ok(v),
            Err(e) => Err(RuncError::JsonDeserializationFailed(e)),
        }
    }
}

/// Decodes the ps verb's output into process ids: the external tool's
/// literal `null` is an empty collection, not an error; anything else is
/// read as a JSON array of numbers.
pub fn decode_pid_list(output: &str) -> (r: Result<Vec<usize>, RuncError>)
    ensures
        trim_spec(output@) == "null"@ ==> (r matches Ok(v) && v@.len() == 0),
        trim_spec(output@) != "null"@ ==> (match r {
            Ok(v) => parsed_pid_list(trim_spec(output@)) == Some(v@),
            Err(_) => parsed_pid_list(trim_spec(output@)) is None,
        }),
        r matches Err(e) ==> e matches RuncError::JsonDeserializationFailed(_),
{
    let t = trim(output);
    if str_eq(t, "null") {
        Ok(Vec::new())
    } else {
        match parse_pids(t) {
            Ok(v) => Ok(v),
            Err(e) => Err(RuncError::JsonDeserializationFailed(e)),
        }
    }
}

/// Decodes the state verb's output as one JSON document: the external
/// tool's literal `null` is the null document, never an error; anything
/// else is parsed as it stands.
pub fn decode_state(output: &str) -> (r: Result<serde_json::Value, RuncError>)
    ensures
        trim_spec(output@) == "null"@ ==> r is Ok,
        trim_spec(output@) != "null"@ ==> (r is Ok) == json_text_valid(output@),
        r matches Err(e) ==> e matches RuncError::JsonDeserializationFailed(_),
{
    if str_eq(trim(output), "null") {
        return Ok(null_value());
    }
    match parse_json_value(output) {
        Ok(v) => Ok(v),
        Err(e) => Err(RuncError::JsonDeserializationFailed(e)),
    }
}

/// The statistics payload of one decoded event: exactly the payload handed
/// in when there is one, and the missing-data error when there is none.
pub fn stats_payload(field: Option<serde_json::Value>) -> (r: Result<serde_json::Value, RuncError>)
    ensures
        field matches Some(v) ==> (r matches Ok(p) && p == v),
        field is None ==> (r matches Err(e) && e is MissingContainerStats),
{
    match field {
        Some(v) => Ok(v),
        None => Err(RuncError::MissingContainerStats),
    }
}

/// Decodes the stats verb's output: one JSON event whose `stats` field
/// carries the statistics; an event without that field is the missing-data
/// error, and text that is no JSON document is a deserialization error.
pub fn decode_stats(output: &str) -> (r: Result<serde_json::Value, RuncError>)
    ensures
        !json_text_valid(output@) ==> (r matches Err(e) && e
            matches RuncError::JsonDeserializationFailed(_)),
        json_text_valid(output@) ==> (r matches Ok(_) || (r matches Err(e) && e
            is MissingContainerStats)),
        r matches Err(e) ==> (e matches RuncError::JsonDeserializationFailed(_) || e
            is MissingContainerStats),
{
    match parse_json_value(output) {
        Ok(event) => stats_payload(json_field(&event, "stats")),
        Err(e) => Err(RuncError::JsonDeserializationFailed(e)),
    }
}

} // verus!
