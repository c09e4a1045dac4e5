//! Trusted view of the JSON values that hits arrive in.
//!
//! A raw hit is a `serde_json::Value`, which is opaque to the verifier.
//! What the classifier reads of such a value is named here by uninterpreted
//! spec functions — which fields an object holds, and the text of a JSON
//! string — and the few `serde_json` accessors the classifier calls are
//! wrapped in trusted functions whose contracts speak of those names.

use vstd::prelude::*;

verus! {

#[verifier::external_type_specification]
#[verifier::external_body]
pub struct ExValue(serde_json::Value);

/// Whether `v` is a JSON object holding a field named `key`.
pub uninterp spec fn has_field(v: serde_json::Value, key: Seq<char>) -> bool;

/// The value of the field named `key`, meaningful when `has_field(v, key)`.
pub uninterp spec fn field_val(v: serde_json::Value, key: Seq<char>) -> serde_json::Value;

/// The characters of `v` when `v` is a JSON string, `None` otherwise.
pub uninterp spec fn as_text(v: serde_json::Value) -> Option<Seq<char>>;

/// Relies on `serde_json::Value::get`: on an object it returns the value
/// stored under the key, if any; on any other JSON value it returns `None`.
#[verifier::external_body]
pub(crate) fn get_field<'a>(v: &'a serde_json::Value, key: &str) -> (r: Option<
    &'a serde_json::Value,
>)
    ensures
        r is Some <==> has_field(*v, key@),
        r matches Some(f) ==> *f == field_val(*v, key@),
{
    v.get(key)
}

/// Relies on `serde_json::Value::as_str`: it returns the borrowed text when
/// the value is a JSON string, and `None` for every other JSON value.
#[verifier::external_body]
pub(crate) fn get_text(v: &serde_json::Value) -> (r: Option<String>)
    ensures
        r is Some <==> as_text(*v) is Some,
        r matches Some(s) ==> as_text(*v) == Some(s@),
{
    match v.as_str() {
        Some(s) => Some(s.to_string()),
        None => None,
    }
}

} // verus!
