//! JSON documents of `serde_json`, carried through the library unread.

use vstd::prelude::*;

verus! {

/// A `serde_json::Value`; the library stores and hands it on without looking inside.
#[verifier::external_type_specification]
#[verifier::external_body]
pub struct ExJsonValue(serde_json::Value);

/// `serde_json::Value::Object` of a new, empty `serde_json::Map`: the JSON object `{}`.
/// Nothing about the value is stated; callers only carry it.
#[verifier::external_body]
pub(crate) fn empty_json_object() -> (r: serde_json::Value) {
    serde_json::Value::Object(serde_json::Map::new())
}

} // verus!
