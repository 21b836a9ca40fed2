//! The JSON boundary. Whole-document parsing is serde_json's work; each
//! function here makes one such call and hands back plain values. What a call
//! returns is a function of the body text alone, so each result is given a
//! name that the callers' contracts compose; the wire-shape knowledge itself
//! (which fields mean what) lives in verified code, not here.

use vstd::prelude::*;

verus! {

/// The named top-level field of `s`, re-serialized as its own JSON text, when
/// `s` parses as a JSON object that has it.
pub uninterp spec fn json_field(s: Seq<char>, key: Seq<char>) -> Option<Seq<char>>;

/// The named top-level field of `s`, when `s` parses as a JSON object and the
/// field holds a string.
pub uninterp spec fn json_str_field(s: Seq<char>, key: Seq<char>) -> Option<Seq<char>>;

/// The named top-level field of `s`, when `s` parses as a JSON object and the
/// field holds a boolean.
pub uninterp spec fn json_bool_field(s: Seq<char>, key: Seq<char>) -> Option<bool>;

/// The number of elements of `s`, when `s` parses as a JSON array.
pub uninterp spec fn json_array_len(s: Seq<char>) -> Option<int>;

/// Element `i` of `s`, re-serialized as its own JSON text, when `s` parses as
/// a JSON array with more than `i` elements.
pub uninterp spec fn json_array_elem(s: Seq<char>, i: int) -> Option<Seq<char>>;

/// Relies on serde_json::from_str and serde_json::Value::get: parses `body`
/// and hands back the named top-level field re-serialized (by the crate's own
/// Display rendering), or nothing when the body does not parse as an object
/// holding that field.
#[verifier::external_body]
pub fn get_field(body: &str, key: &str) -> (r: Option<String>)
    ensures
        match r {
            Some(v) => json_field(body@, key@) == Some(v@),
            None => json_field(body@, key@) is None,
        },
{
    let v: serde_json::Value = match serde_json::from_str(body) {
        Ok(v) => v,
        Err(_) => return None,
    };
    v.get(key).map(|f| f.to_string())
}

/// Relies on serde_json::from_str and serde_json::Value::get/as_str: parses
/// `body` and hands back the named top-level field when it holds a string.
#[verifier::external_body]
pub fn get_str_field(body: &str, key: &str) -> (r: Option<String>)
    ensures
        match r {
            Some(v) => json_str_field(body@, key@) == Some(v@),
            None => json_str_field(body@, key@) is None,
        },
{
    let v: serde_json::Value = match serde_json::from_str(body) {
        Ok(v) => v,
        Err(_) => return None,
    };
    v.get(key).and_then(|f| f.as_str()).map(|s| s.to_owned())
}

/// Relies on serde_json::from_str and serde_json::Value::get/as_bool: parses
/// `body` and hands back the named top-level field when it holds a boolean.
#[verifier::external_body]
pub fn get_bool_field(body: &str, key: &str) -> (r: Option<bool>)
    ensures
        r == json_bool_field(body@, key@),
{
    let v: serde_json::Value = match serde_json::from_str(body) {
        Ok(v) => v,
        Err(_) => return None,
    };
    v.get(key).and_then(|f| f.as_bool())
}

/// Relies on serde_json::from_str and serde_json::Value::as_array: parses
/// `body` and hands back how many elements the array holds, or nothing when
/// the body is not a JSON array.
#[verifier::external_body]
pub fn get_array_len(body: &str) -> (r: Option<usize>)
    ensures
        match r {
            Some(n) => json_array_len(body@) == Some(n as int),
            None => json_array_len(body@) is None,
        },
{
    let v: serde_json::Value = match serde_json::from_str(body) {
        Ok(v) => v,
        Err(_) => return None,
    };
    v.as_array().map(|a| a.len())
}

/// Relies on serde_json::from_str and serde_json::Value::as_array: parses
/// `body` and hands back element `i` re-serialized (by the crate's own
/// Display rendering), or nothing when the body is not an array that long.
#[verifier::external_body]
pub fn get_array_elem(body: &str, i: usize) -> (r: Option<String>)
    ensures
        match r {
            Some(v) => json_array_elem(body@, i as int) == Some(v@),
            None => json_array_elem(body@, i as int) is None,
        },
{
    let v: serde_json::Value = match serde_json::from_str(body) {
        Ok(v) => v,
        Err(_) => return None,
    };
    v.as_array().and_then(|a| a.get(i)).map(|e| e.to_string())
}

} // verus!
