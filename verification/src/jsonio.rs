//! Reading single fields out of JSON bodies. Parsing is serde_json's work;
//! what a given body holds under a given key is a function of the bytes
//! alone, so the results carry names that contracts share.

use vstd::prelude::*;

verus! {

/// The string under the given top-level key, when the bytes are a JSON
/// object holding one.
pub uninterp spec fn json_string_field(data: Seq<u8>, key: Seq<char>) -> Option<Seq<char>>;

/// The unsigned number under the given top-level key, when the bytes are a
/// JSON object holding one.
pub uninterp spec fn json_u64_field(data: Seq<u8>, key: Seq<char>) -> Option<u64>;

/// Relies on serde_json::from_slice::<Value>, Value::get and Value::as_str:
/// hands out the string under the key of a JSON object, if there is one.
#[verifier::external_body]
pub fn get_json_string_field(data: &[u8], key: &str) -> (r: Option<String>)
    ensures
        match r {
            Some(s) => json_string_field(data@, key@) == Some(s@),
            None => json_string_field(data@, key@) is None,
        },
{
    let v: serde_json::Value = serde_json::from_slice(data).ok()?;
    let s = v.get(key)?.as_str()?;
    Some(s.to_owned())
}

/// Relies on serde_json::from_slice::<Value>, Value::get and Value::as_u64:
/// hands out the unsigned number under the key of a JSON object, if there
/// is one.
#[verifier::external_body]
pub fn get_json_u64_field(data: &[u8], key: &str) -> (r: Option<u64>)
    ensures
        match r {
            Some(n) => json_u64_field(data@, key@) == Some(n),
            None => json_u64_field(data@, key@) is None,
        },
{
    let v: serde_json::Value = serde_json::from_slice(data).ok()?;
    v.get(key)?.as_u64()
}

} // verus!
