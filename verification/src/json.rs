//! Reading single fields of JSON objects stored as text.
use vstd::prelude::*;

verus! {

/// The string at `key` of the JSON object a text holds (`None` when the text
/// is not JSON, not an object, or has no string there).
pub uninterp spec fn json_str_field(text: Seq<char>, key: Seq<char>) -> Option<Seq<char>>;

/// The integer at `key` of the JSON object a text holds, when it is an `i64`.
pub uninterp spec fn json_i64_field(text: Seq<char>, key: Seq<char>) -> Option<i64>;

/// Whether the JSON object a text holds has `key`.
pub uninterp spec fn json_has_key(text: Seq<char>, key: Seq<char>) -> bool;

/// `serde_json::from_str::<Value>`, then `get(key)` and `as_str`: the named
/// field.
#[verifier::external_body]
pub(crate) fn json_string_at(text: &str, key: &str) -> (r: Option<String>)
    ensures
        r is Some ==> json_str_field(text@, key@) == Some(r->0@),
        r is None ==> json_str_field(text@, key@) is None,
{
    let v: serde_json::Value = serde_json::from_str(text).ok()?;
    v.get(key)?.as_str().map(|s| s.to_string())
}

/// `serde_json::from_str::<Value>`, then `get(key)` and `as_i64`: the named
/// field.
#[verifier::external_body]
pub(crate) fn json_i64_at(text: &str, key: &str) -> (r: Option<i64>)
    ensures
        r == json_i64_field(text@, key@),
{
    let v: serde_json::Value = serde_json::from_str(text).ok()?;
    v.get(key)?.as_i64()
}

/// `serde_json::from_str::<Value>`, then whether `get(key)` finds something.
#[verifier::external_body]
pub(crate) fn json_has(text: &str, key: &str) -> (r: bool)
    ensures
        r == json_has_key(text@, key@),
{
    match serde_json::from_str::<serde_json::Value>(text) {
        Ok(v) => v.get(key).is_some(),
        Err(_) => false,
    }
}

/// The unsigned integer at `key` of the JSON object a text holds, when it is a
/// `u64`.
pub uninterp spec fn json_u64_field(text: Seq<char>, key: Seq<char>) -> Option<u64>;

/// `serde_json::from_str::<Value>`, then `get(key)` and `as_u64`: the named
/// field.
#[verifier::external_body]
pub(crate) fn json_u64_at(text: &str, key: &str) -> (r: Option<u64>)
    ensures
        r == json_u64_field(text@, key@),
{
    let v: serde_json::Value = serde_json::from_str(text).ok()?;
    v.get(key)?.as_u64()
}

/// The entries of a JSON object whose every value is a string, in the order of
/// their keys, when the text holds one.
pub uninterp spec fn json_string_entries(text: Seq<char>) -> Option<Seq<(Seq<char>, Seq<char>)>>;

/// `serde_json::from_str::<BTreeMap<String, String>>`, its entries in key
/// order: the named entries; a map keeps one entry per key.
#[verifier::external_body]
pub(crate) fn json_string_map(text: &str) -> (r: Option<Vec<(String, String)>>)
    ensures
        r is None ==> json_string_entries(text@) is None,
        r is Some ==> json_string_entries(text@) == Some(
            r->0@.map_values(|e: (String, String)| (e.0@, e.1@)),
        ),
        r is Some ==> forall|i: int, j: int|
            0 <= i < j < r->0@.len() ==> (#[trigger] r->0@[i]).0@ != (#[trigger] r->0@[j]).0@,
{
    let m: std::collections::BTreeMap<String, String> = serde_json::from_str(text).ok()?;
    Some(m.into_iter().collect())
}

/// The JSON text of an object with the given string entries.
pub uninterp spec fn json_object_text(entries: Seq<(Seq<char>, Seq<char>)>) -> Seq<char>;

/// `serde_json::to_string` of the entries gathered in a `BTreeMap<String,
/// String>`: the named text.
#[verifier::external_body]
pub(crate) fn json_object_of(entries: Vec<(String, String)>) -> (r: String)
    ensures
        r@ == json_object_text(entries@.map_values(|e: (String, String)| (e.0@, e.1@))),
{
    let m: std::collections::BTreeMap<String, String> = entries.into_iter().collect();
    serde_json::to_string(&m).unwrap_or_default()
}

/// The boolean at `key` of the JSON object a text holds.
pub uninterp spec fn json_bool_field(text: Seq<char>, key: Seq<char>) -> Option<bool>;

/// `serde_json::from_str::<Value>`, then `get(key)` and `as_bool`: the named
/// field.
#[verifier::external_body]
pub(crate) fn json_bool_at(text: &str, key: &str) -> (r: Option<bool>)
    ensures
        r == json_bool_field(text@, key@),
{
    let v: serde_json::Value = serde_json::from_str(text).ok()?;
    v.get(key)?.as_bool()
}

/// A flag of a request body: the boolean at `key`, `true` when absent.
pub fn body_flag(body: &str, key: &str) -> (b: bool)
    ensures
        b == match json_bool_field(body@, key@) {
            Some(v) => v,
            None => true,
        },
{
    match json_bool_at(body, key) {
        Some(v) => v,
        None => true,
    }
}

} // verus!
