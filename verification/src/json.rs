//! Access to raw configuration fragments.
//!
//! A component's configuration arrives as a free-form JSON fragment
//! (`serde_json::Value`). The fragment itself is opaque to the engine's
//! contracts: these trusted items only carry values out of it, and the
//! verified configuration binding decides, from the plain values obtained
//! here, whether a fragment is acceptable.

use vstd::prelude::*;

verus! {

/// `serde_json::Value` as an opaque type: a parsed JSON document.
#[verifier::external_type_specification]
#[verifier::external_body]
pub struct ExValue(serde_json::Value);

/// Relies on `serde_json::from_str::<Value>`: parses a JSON document, `None`
/// when the text is not valid JSON.
#[verifier::external_body]
pub fn json_parse(text: &str) -> (r: Option<serde_json::Value>) {
    serde_json::from_str(text).ok()
}

/// Relies on `serde_json::Value::get`: the value under a key of a JSON
/// object, `None` for other values or absent keys.
#[verifier::external_body]
pub fn json_get<'a>(v: &'a serde_json::Value, key: &str) -> (r: Option<&'a serde_json::Value>) {
    v.get(key)
}

/// Relies on `serde_json::Value::as_u64`: the value of a JSON number
/// representable as `u64`, `None` otherwise.
#[verifier::external_body]
pub fn json_as_u64(v: &serde_json::Value) -> (r: Option<u64>) {
    v.as_u64()
}

/// Relies on `serde_json::Value::as_str`: the content of a JSON string,
/// `None` for other values.
#[verifier::external_body]
pub fn json_as_str(v: &serde_json::Value) -> (r: Option<String>) {
    v.as_str().map(|s| s.to_owned())
}

/// Relies on `serde_json::Value::as_bool`: the value of a JSON boolean,
/// `None` for other values.
#[verifier::external_body]
pub fn json_as_bool(v: &serde_json::Value) -> (r: Option<bool>) {
    v.as_bool()
}

} // verus!
