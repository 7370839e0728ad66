//! Field lookups in JSON text, made by serde_json.
use vstd::prelude::*;

verus! {

/// The string under `key` when `text` is a JSON object that holds a string
/// there; `None` when `text` is not JSON, not an object, lacks the key, or
/// holds something else under it.
pub uninterp spec fn json_str_field(text: Seq<char>, key: Seq<char>) -> Option<Seq<char>>;

/// The unsigned integer under `key` when `text` is a JSON object that holds a
/// number there that fits in a `u64`; `None` otherwise.
pub uninterp spec fn json_u64_field(text: Seq<char>, key: Seq<char>) -> Option<u64>;

/// Relies on serde_json::from_str::<serde_json::Value> to parse `text`, then on
/// Value::get and Value::as_str to read the string under `key`. An empty text
/// is no JSON value, so it holds no field.
#[verifier::external_body]
pub(crate) fn str_field(text: &str, key: &str) -> (r: Option<String>)
    ensures
        match r {
            Some(s) => json_str_field(text@, key@) == Some(s@),
            None => json_str_field(text@, key@) is None,
        },
        text@.len() == 0 ==> r is None,
{
    let value: serde_json::Value = serde_json::from_str(text).ok()?;
    value.get(key).and_then(serde_json::Value::as_str).map(String::from)
}

/// Relies on serde_json::from_str::<serde_json::Value> to parse `text`, then on
/// Value::get and Value::as_u64 to read the unsigned integer under `key`. An
/// empty text is no JSON value, so it holds no field.
#[verifier::external_body]
pub(crate) fn u64_field(text: &str, key: &str) -> (r: Option<u64>)
    ensures
        r == json_u64_field(text@, key@),
        text@.len() == 0 ==> r is None,
{
    let value: serde_json::Value = serde_json::from_str(text).ok()?;
    value.get(key).and_then(serde_json::Value::as_u64)
}

} // verus!
