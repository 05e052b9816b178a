//! serde_json's `Value` and `Map` as this library sees them.
//!
//! A `Value` is opaque here: the adapter only carries configured values
//! through and builds objects around them. What an object holds is stated
//! over `json_object_of` and `json_entries`.
use vstd::prelude::*;
use zed_extension_api::serde_json;

verus! {

#[verifier::external_type_specification]
#[verifier::external_body]
pub struct ExValue(serde_json::Value);

#[verifier::external_type_specification]
#[verifier::external_body]
#[verifier::reject_recursive_types(K)]
#[verifier::reject_recursive_types(V)]
pub struct ExJsonMap<K, V>(serde_json::Map<K, V>);

/// The entries of a JSON object map, keyed by the characters of each key.
pub uninterp spec fn json_entries(m: serde_json::Map<String, serde_json::Value>) -> Map<
    Seq<char>,
    serde_json::Value,
>;

/// The map held by a JSON value that is an object; `None` for every other value.
pub uninterp spec fn json_object_of(v: serde_json::Value) -> Option<
    serde_json::Map<String, serde_json::Value>,
>;

/// Relies on serde_json's `Map::new`: a new map has no entries.
pub assume_specification[ serde_json::Map::<String, serde_json::Value>::new ]() -> (r: serde_json::Map<String, serde_json::Value>)
    ensures
        json_entries(r).dom() =~= Set::empty(),
;

/// Relies on serde_json's `Map::insert`: the key now maps to the value, the
/// other entries stay, and the value that the key held before is returned.
pub assume_specification[ serde_json::Map::<String, serde_json::Value>::insert ](
    m: &mut serde_json::Map<String, serde_json::Value>,
    k: String,
    v: serde_json::Value,
) -> (r: Option<serde_json::Value>)
    ensures
        json_entries(*final(m)) == json_entries(*old(m)).insert(k@, v),
        json_entries(*old(m)).dom().contains(k@) ==> r == Some(json_entries(*old(m))[k@]),
        !json_entries(*old(m)).dom().contains(k@) ==> r is None,
;

/// Relies on serde_json's `Value::Object` variant: the value is an object
/// holding exactly the given map.
#[verifier::external_body]
fn object_value(m: serde_json::Map<String, serde_json::Value>) -> (r: serde_json::Value)
    ensures
        json_object_of(r) == Some(m),
{
    serde_json::Value::Object(m)
}

/// `v` is a JSON object whose entries are exactly `entries`.
pub open spec fn is_object_with(v: serde_json::Value, entries: Map<Seq<char>, serde_json::Value>) -> bool {
    &&& json_object_of(v) is Some
    &&& json_entries(json_object_of(v)->0) == entries
}

/// `v` is the empty JSON object `{}`.
pub open spec fn is_empty_object(v: serde_json::Value) -> bool {
    is_object_with(v, Map::empty())
}

/// `v` is the object `{ key: inner }`, with no other key.
pub open spec fn is_singleton_object(v: serde_json::Value, key: Seq<char>, inner: serde_json::Value) -> bool {
    is_object_with(v, map![key => inner])
}

/// Builds the empty JSON object `{}`.
pub fn empty_object() -> (r: serde_json::Value)
    ensures
        is_empty_object(r),
{
    let m = serde_json::Map::new();
    proof {
        assert(json_entries(m) =~= Map::empty());
    }
    object_value(m)
}

/// Builds the JSON object `{ key: inner }`.
pub fn singleton_object(key: &str, inner: serde_json::Value) -> (r: serde_json::Value)
    ensures
        is_singleton_object(r, key@, inner),
{
    let mut m = serde_json::Map::new();
    let _ = m.insert(key.to_string(), inner);
    proof {
        assert(json_entries(m) =~= map![key@ => inner]);
    }
    object_value(m)
}

} // verus!
