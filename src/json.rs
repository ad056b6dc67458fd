//! Reading and writing JSON text through serde_json.
//!
//! The library keeps every untyped payload (tool arguments, tool results,
//! tool schemas) as JSON text. What serde_json makes of a text is named here
//! by uninterpreted spec functions: each depends on its arguments alone.
use vstd::prelude::*;

verus! {

/// The compact JSON text of the member `key` of the object that `text` holds,
/// or `None` when `text` is not JSON, not an object, or has no such member.
pub uninterp spec fn field_of(text: Seq<char>, key: Seq<char>) -> Option<Seq<char>>;

/// The compact JSON text of element `index` of the array that `text` holds,
/// or `None` when `text` is not a JSON array with that many elements.
pub uninterp spec fn element_of(text: Seq<char>, index: int) -> Option<Seq<char>>;

/// The compact JSON texts of the elements of the array that `text` holds,
/// or `None` when `text` is not a JSON array.
pub uninterp spec fn elements_of(text: Seq<char>) -> Option<Seq<Seq<char>>>;

/// The string that `text` holds when it is a JSON string, else `None`.
pub uninterp spec fn as_str_of(text: Seq<char>) -> Option<Seq<char>>;

/// The JSON string literal that encodes `s`, quotes and escapes included.
pub uninterp spec fn quoted(s: Seq<char>) -> Seq<char>;

/// Relies on serde_json::from_str and serde_json::Value::get: parses `text`
/// and looks up the member `key` of an object, written back as compact text.
#[verifier::external_body]
pub(crate) fn json_field(text: &str, key: &str) -> (r: Option<String>)
    ensures
        r.is_some() == field_of(text@, key@).is_some(),
        r.is_some() ==> r.unwrap()@ == field_of(text@, key@).unwrap(),
{
    let v: Option<serde_json::Value> = serde_json::from_str(text).ok();
    v.and_then(|v| v.get(key).map(|f| f.to_string()))
}

/// Relies on serde_json::from_str and serde_json::Value::get: parses `text`
/// and takes element `index` of an array, written back as compact text.
#[verifier::external_body]
pub(crate) fn json_element(text: &str, index: usize) -> (r: Option<String>)
    ensures
        r.is_some() == element_of(text@, index as int).is_some(),
        r.is_some() ==> r.unwrap()@ == element_of(text@, index as int).unwrap(),
{
    let v: Option<serde_json::Value> = serde_json::from_str(text).ok();
    v.and_then(|v| v.get(index).map(|e| e.to_string()))
}

/// Relies on serde_json::from_str and serde_json::Value::as_array: parses
/// `text` and lists the elements of an array, each written back as compact text.
#[verifier::external_body]
pub(crate) fn json_elements(text: &str) -> (r: Option<Vec<String>>)
    ensures
        r.is_some() == elements_of(text@).is_some(),
        r.is_some() ==> r.unwrap()@.map_values(|e: String| e@) == elements_of(text@).unwrap(),
{
    let v: Option<serde_json::Value> = serde_json::from_str(text).ok();
    v.and_then(|v| v.as_array().map(|a| a.iter().map(|e| e.to_string()).collect()))
}

/// Relies on serde_json::from_str and serde_json::Value::as_str: parses
/// `text` and gives back the string it holds, if it holds one.
#[verifier::external_body]
pub(crate) fn json_as_str(text: &str) -> (r: Option<String>)
    ensures
        r.is_some() == as_str_of(text@).is_some(),
        r.is_some() ==> r.unwrap()@ == as_str_of(text@).unwrap(),
{
    let v: Option<serde_json::Value> = serde_json::from_str(text).ok();
    v.and_then(|v| v.as_str().map(|s| s.to_string()))
}

/// Relies on serde_json's Display of serde_json::Value::String: the JSON
/// string literal of `s`.
#[verifier::external_body]
pub(crate) fn json_quote(s: &str) -> (r: String)
    ensures
        r@ == quoted(s@),
{
    serde_json::Value::String(s.to_string()).to_string()
}

} // verus!
