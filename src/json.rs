//! The dynamic JSON values that carry game data through the engine, and the
//! few operations on them that the engine and the bundled game rely on.
use vstd::prelude::*;

verus! {

#[verifier::external_type_specification]
#[verifier::external_body]
pub struct ExValue(serde_json::Value);

#[verifier::external_type_specification]
#[verifier::external_body]
pub struct ExPatch(json_patch::Patch);

#[verifier::external_type_specification]
#[verifier::external_body]
pub struct ExPatchOperation(json_patch::PatchOperation);

/// The JSON number for the integer `n`.
pub uninterp spec fn json_integer(n: int) -> serde_json::Value;

/// What `Value::as_u64` reads from a value.
pub uninterp spec fn json_as_u64(v: serde_json::Value) -> Option<u64>;

/// What `Value::as_str` reads from a value.
pub uninterp spec fn json_as_str(v: serde_json::Value) -> Option<Seq<char>>;

/// The JSON Patch that `json_patch::diff` computes from `old` to `new`.
pub uninterp spec fn json_diff(old: serde_json::Value, new: serde_json::Value) -> json_patch::Patch;

/// Whether a patch holds no operation.
pub uninterp spec fn patch_empty(p: json_patch::Patch) -> bool;

/// The JSON array that `serde_json::to_value` makes of a patch, if it succeeds.
pub uninterp spec fn patch_json(p: json_patch::Patch) -> Option<serde_json::Value>;

/// Relies on `Value`'s derived `Clone`: the copy equals the value copied.
pub assume_specification[ <serde_json::Value as Clone>::clone ](v: &serde_json::Value) -> (r: serde_json::Value)
    ensures
        r == *v,
;

/// Relies on `Value::as_u64`: the value read depends on the value alone.
pub assume_specification[ serde_json::Value::as_u64 ](v: &serde_json::Value) -> (r: Option<u64>)
    ensures
        r == json_as_u64(*v),
;

/// Relies on `Value::as_str`: the string read depends on the value alone.
pub assume_specification[ serde_json::Value::as_str ](v: &serde_json::Value) -> (r: Option<&str>)
    ensures
        r matches Some(s) ==> json_as_str(*v) == Some(s@),
        r is None ==> json_as_str(*v) is None,
;

/// Relies on `json_patch::diff`: the patch depends on the two documents alone.
pub assume_specification[ json_patch::diff ](left: &serde_json::Value, right: &serde_json::Value) -> (r: json_patch::Patch)
    ensures
        r == json_diff(*left, *right),
;

/// Relies on `impl From<i64> for Value`: the JSON number depends on `n` alone.
#[verifier::external_body]
pub(crate) fn json_from_i64(n: i64) -> (r: serde_json::Value)
    ensures
        r == json_integer(n as int),
{
    serde_json::Value::from(n)
}

/// Relies on `Patch`'s field, a `Vec` of operations, and its `is_empty`.
#[verifier::external_body]
pub(crate) fn patch_is_empty(p: &json_patch::Patch) -> (r: bool)
    ensures
        r == patch_empty(*p),
{
    p.0.is_empty()
}

/// Relies on `serde_json::to_value` on a patch; its error is dropped.
#[verifier::external_body]
pub(crate) fn patch_to_json(p: json_patch::Patch) -> (r: Option<serde_json::Value>)
    ensures
        r == patch_json(p),
{
    serde_json::to_value(p).ok()
}

} // verus!
