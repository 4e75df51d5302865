//! The JSON documents of the batch protocol, handled through `serde_json`.
//!
//! A JSON value is opaque here. What the protocol reads from it, and what it
//! builds into it, is described through names for what a value holds: its
//! members, its elements, its string, boolean or number content.
use vstd::prelude::*;

verus! {

#[verifier::external_type_specification]
#[verifier::external_body]
pub struct ExJsonValue(serde_json::Value);

#[verifier::external_type_specification]
#[verifier::external_body]
#[verifier::reject_recursive_types(K)]
#[verifier::reject_recursive_types(V)]
pub struct ExJsonMap<K, V>(serde_json::Map<K, V>);

/// Whether the bytes, read as UTF-8 (invalid sequences replaced), hold one JSON document.
pub uninterp spec fn json_ok(body: Seq<u8>) -> bool;

/// The member names of a JSON object.
pub uninterp spec fn json_keys(m: serde_json::Map<String, serde_json::Value>) -> Set<Seq<char>>;

/// The member `key` of a JSON object.
pub uninterp spec fn json_map_member(
    m: serde_json::Map<String, serde_json::Value>,
    key: Seq<char>,
) -> Option<serde_json::Value>;

/// The member `key` of a value, when the value is an object that has it.
pub uninterp spec fn json_member_of(v: serde_json::Value, key: Seq<char>) -> Option<serde_json::Value>;

/// The member names of a value, when it is an object.
pub uninterp spec fn json_fields_of(v: serde_json::Value) -> Option<Set<Seq<char>>>;

/// The elements of a value, when it is an array.
pub uninterp spec fn json_elements_of(v: serde_json::Value) -> Option<Seq<serde_json::Value>>;

/// The text of a value, when it is a string.
pub uninterp spec fn json_str_of(v: serde_json::Value) -> Option<Seq<char>>;

/// The truth value of a value, when it is a boolean.
pub uninterp spec fn json_bool_of(v: serde_json::Value) -> Option<bool>;

/// The number of a value, when it is a non-negative integer that fits in 64 bits.
pub uninterp spec fn json_u64_of(v: serde_json::Value) -> Option<u64>;

/// The compact JSON text of a value.
pub uninterp spec fn json_text_of(v: serde_json::Value) -> Seq<char>;

/// Relies on `serde_json::from_str` (after `String::from_utf8_lossy`): the
/// document in `body`, or `None` when it is not valid JSON; an empty body is
/// not valid JSON.
#[verifier::external_body]
pub(crate) fn json_parse(body: &[u8]) -> (r: Option<serde_json::Value>)
    ensures
        r is Some <==> json_ok(body@),
        body@.len() == 0 ==> r is None,
{
    serde_json::from_str(&String::from_utf8_lossy(body)).ok()
}

/// Relies on `serde_json::Value::get`: the member `key` of an object, if any.
#[verifier::external_body]
pub(crate) fn json_member<'a>(v: &'a serde_json::Value, key: &str) -> (r: Option<&'a serde_json::Value>)
    ensures
        match r {
            Some(m) => json_member_of(*v, key@) == Some(*m),
            None => json_member_of(*v, key@) is None,
        },
{
    v.get(key)
}

/// Relies on `serde_json::Value::as_str`: the text of a JSON string.
#[verifier::external_body]
pub(crate) fn json_as_str(v: &serde_json::Value) -> (r: Option<String>)
    ensures
        match r {
            Some(s) => json_str_of(*v) == Some(s@),
            None => json_str_of(*v) is None,
        },
{
    v.as_str().map(|s| s.to_string())
}

/// Relies on `serde_json::Value::as_array`: the elements of a JSON array.
#[verifier::external_body]
pub(crate) fn json_as_array<'a>(v: &'a serde_json::Value) -> (r: Option<&'a Vec<serde_json::Value>>)
    ensures
        match r {
            Some(a) => json_elements_of(*v) == Some(a@),
            None => json_elements_of(*v) is None,
        },
{
    v.as_array()
}

/// Relies on `serde_json::Value::as_object`: the members of a JSON object.
#[verifier::external_body]
pub(crate) fn json_as_object<'a>(v: &'a serde_json::Value) -> (r: Option<
    &'a serde_json::Map<String, serde_json::Value>,
>)
    ensures
        match r {
            Some(m) => json_fields_of(*v) == Some(json_keys(*m)),
            None => json_fields_of(*v) is None,
        },
{
    v.as_object()
}

/// Relies on `serde_json::Map::new`: an object without members.
#[verifier::external_body]
pub(crate) fn json_map_new() -> (r: serde_json::Map<String, serde_json::Value>)
    ensures
        json_keys(r) == Set::<Seq<char>>::empty(),
        forall|k: Seq<char>| json_map_member(r, k) is None,
{
    serde_json::Map::new()
}

/// Relies on `Clone` for `serde_json::Map`: the same member names.
#[verifier::external_body]
pub(crate) fn json_map_clone(m: &serde_json::Map<String, serde_json::Value>) -> (r: serde_json::Map<
    String,
    serde_json::Value,
>)
    ensures
        json_keys(r) == json_keys(*m),
{
    m.clone()
}

/// Relies on `serde_json::Map::get`: the member `key`, if any.
#[verifier::external_body]
pub(crate) fn json_map_get<'a>(m: &'a serde_json::Map<String, serde_json::Value>, key: &str) -> (r: Option<
    &'a serde_json::Value,
>)
    ensures
        r is Some <==> json_keys(*m).contains(key@),
        match r {
            Some(x) => json_map_member(*m, key@) == Some(*x),
            None => json_map_member(*m, key@) is None,
        },
{
    m.get(key)
}

/// Relies on `serde_json::Map::insert`: sets member `key` to `v`, adding the
/// name if it was not there, and leaves the other members as they were.
#[verifier::external_body]
pub(crate) fn json_map_insert(
    m: &mut serde_json::Map<String, serde_json::Value>,
    key: &str,
    v: serde_json::Value,
)
    ensures
        json_keys(*final(m)) == json_keys(*old(m)).insert(key@),
        json_map_member(*final(m), key@) == Some(v),
        forall|k: Seq<char>| k != key@ ==> json_map_member(*final(m), k) == json_map_member(*old(m), k),
{
    m.insert(key.to_string(), v);
}

/// Relies on `serde_json::Value::Bool`: a JSON boolean.
#[verifier::external_body]
pub(crate) fn json_bool(b: bool) -> (r: serde_json::Value)
    ensures
        json_bool_of(r) == Some(b),
{
    serde_json::Value::Bool(b)
}

/// Relies on `serde_json::Value::String`: a JSON string.
#[verifier::external_body]
pub(crate) fn json_string(s: String) -> (r: serde_json::Value)
    ensures
        json_str_of(r) == Some(s@),
{
    serde_json::Value::String(s)
}

/// Relies on `From<u64>` for `serde_json::Value`: a JSON number.
#[verifier::external_body]
pub(crate) fn json_u64(n: u64) -> (r: serde_json::Value)
    ensures
        json_u64_of(r) == Some(n),
{
    serde_json::Value::from(n)
}

/// Relies on `serde_json::Value::Object`: an object with the members of `m`.
#[verifier::external_body]
pub(crate) fn json_object(m: serde_json::Map<String, serde_json::Value>) -> (r: serde_json::Value)
    ensures
        json_fields_of(r) == Some(json_keys(m)),
        forall|k: Seq<char>| #[trigger] json_member_of(r, k) == json_map_member(m, k),
{
    serde_json::Value::Object(m)
}

/// Relies on `serde_json::Value::Array`: an array of `items`, in order.
#[verifier::external_body]
pub(crate) fn json_array(items: Vec<serde_json::Value>) -> (r: serde_json::Value)
    ensures
        json_elements_of(r) == Some(items@),
{
    serde_json::Value::Array(items)
}

/// Relies on `Display` for `serde_json::Value`: the compact JSON text.
#[verifier::external_body]
pub(crate) fn json_text(v: &serde_json::Value) -> (r: String)
    ensures
        r@ == json_text_of(*v),
{
    v.to_string()
}

} // verus!
