//! JSON values as the persisted data holds them.  A value is opaque here;
//! what the library needs of it is whether it is an object and, if so, its
//! members.

use vstd::prelude::*;
use crate::string_map::{distinct_keys, entries_map};

verus! {

#[verifier::external_type_specification]
#[verifier::external_body]
pub struct ExJsonValue(serde_json::Value);

#[verifier::external_type_specification]
#[verifier::external_body]
pub struct ExJsonError(serde_json::Error);

/// Trusted: `serde_json::Value`'s `Clone`, which `derive` writes; the copy
/// is the same JSON value.
pub assume_specification[ <serde_json::Value as Clone>::clone ](v: &serde_json::Value) -> (r:
    serde_json::Value)
    ensures
        r == *v,
;

/// The members of a JSON value when it is an object, and `None` for every
/// other kind of value.
pub uninterp spec fn json_object_members(v: serde_json::Value) -> Option<
    Map<Seq<char>, serde_json::Value>,
>;

/// The members of `v` if it is an object.
///
/// Trusted: matches `serde_json::Value::Object` and collects the map's
/// entries.  The contract claims that the result is `None` exactly when `v`
/// is not an object and otherwise lists each member once.
#[verifier::external_body]
pub(crate) fn json_object_entries(v: serde_json::Value) -> (r: Option<Vec<(String, serde_json::Value)>>)
    ensures
        match r {
            Some(es) => distinct_keys(es@) && json_object_members(v) == Some(entries_map(es@)),
            None => json_object_members(v) is None,
        },
{
    match v {
        serde_json::Value::Object(map) => Some(map.into_iter().collect()),
        _ => None,
    }
}

/// The JSON object whose members are `es`.
///
/// Trusted: builds `serde_json::Value::Object` from the entries through
/// `serde_json::Map`'s `FromIterator`.  The contract claims that the object's
/// members are the entries, which have distinct keys, and that any JSON
/// value with these members is this object: `Value`'s `==` is derived, and
/// `Map`'s compares the members alone.
#[verifier::external_body]
pub(crate) fn json_object_from_entries(es: Vec<(String, serde_json::Value)>) -> (r: serde_json::Value)
    requires
        distinct_keys(es@),
    ensures
        json_object_members(r) == Some(entries_map(es@)),
        forall|w: serde_json::Value| #[trigger]
            json_object_members(w) == Some(entries_map(es@)) ==> w == r,
{
    serde_json::Value::Object(es.into_iter().collect())
}

} // verus!
