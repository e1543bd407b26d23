//! Free-form JSON, carried through the pipeline untouched.

use serde_json::Value;
use vstd::prelude::*;

verus! {

/// `serde_json::Value`, a JSON document. The library never looks inside one:
/// it hands traits, properties, context and integrations on as they came.
#[verifier::external_type_specification]
#[verifier::external_body]
pub struct ExValue(serde_json::Value);

/// `Clone::clone` of `serde_json::Value`, whose derived impl copies the
/// document node by node: the copy is the same document.
pub assume_specification[ <serde_json::Value as Clone>::clone ](value: &serde_json::Value) -> (copy:
    serde_json::Value)
    ensures
        copy == *value,
;

/// Copies an optional document.
pub(crate) fn clone_json(value: &Option<Value>) -> (copy: Option<Value>)
    ensures
        copy == *value,
{
    match value {
        Some(document) => Some(document.clone()),
        None => None,
    }
}

} // verus!
