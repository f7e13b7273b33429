//! A mathematical model of JSON values and trusted accessors over
//! `serde_json::Value`, which carries each envelope's payload.

use vstd::prelude::*;

verus! {

#[verifier::external_type_specification]
#[verifier::external_body]
pub struct ExValue(serde_json::Value);

/// The shape of one JSON value. A number is modelled by what its unsigned
/// 64-bit reading yields (`None` when it has none); an object by the map
/// from its keys to their values.
pub enum JsonVal {
    Null,
    Bool(bool),
    Num(Option<u64>),
    Str(Seq<char>),
    Arr(Seq<JsonVal>),
    Obj(Map<Seq<char>, JsonVal>),
}

/// What a `serde_json::Value` holds, as a `JsonVal`.
pub uninterp spec fn json_model(v: serde_json::Value) -> JsonVal;

/// What parsing a byte buffer as JSON text yields, or `None` when the bytes
/// are not well-formed JSON. Parsing depends on the bytes alone.
pub uninterp spec fn json_parse(bytes: Seq<u8>) -> Option<JsonVal>;

/// Relies on `serde_json::from_slice`: parses a byte buffer as JSON text,
/// failing on malformed input; the result depends on the bytes alone.
#[verifier::external_body]
pub(crate) fn parse_value(bytes: &[u8]) -> (r: Option<serde_json::Value>)
    ensures
        match r {
            Some(v) => json_parse(bytes@) == Some(json_model(v)),
            None => json_parse(bytes@) is None,
        },
{
    serde_json::from_slice::<serde_json::Value>(bytes).ok()
}

/// Relies on `serde_json::Value::get` with a string index: on an object it
/// looks the key up, on anything else it yields `None`.
#[verifier::external_body]
pub(crate) fn get_field<'a>(v: &'a serde_json::Value, key: &str) -> (r: Option<
    &'a serde_json::Value,
>)
    ensures
        match json_model(*v) {
            JsonVal::Obj(fields) => {
                &&& (r matches Some(x) ==> fields.contains_key(key@) && json_model(*x)
                    == fields[key@])
                &&& (r is None ==> !fields.contains_key(key@))
            },
            _ => r is None,
        },
{
    v.get(key)
}

/// Relies on `serde_json::Value::get` with a numeric index: on an array it
/// yields the element at that index, on anything else `None`.
#[verifier::external_body]
pub(crate) fn get_index<'a>(v: &'a serde_json::Value, i: usize) -> (r: Option<
    &'a serde_json::Value,
>)
    ensures
        match json_model(*v) {
            JsonVal::Arr(items) => if i < items.len() {
                r matches Some(x) && json_model(*x) == items[i as int]
            } else {
                r is None
            },
            _ => r is None,
        },
{
    v.get(i)
}

/// Relies on `serde_json::Value::as_array`: yields the element count of an
/// array, and `None` on anything else.
#[verifier::external_body]
pub(crate) fn arr_len(v: &serde_json::Value) -> (r: Option<usize>)
    ensures
        match json_model(*v) {
            JsonVal::Arr(items) => r matches Some(n) && n == items.len(),
            _ => r is None,
        },
{
    v.as_array().map(|a| a.len())
}

/// Relies on `serde_json::Value::as_str`: yields the characters of a JSON
/// string, and `None` on anything else.
#[verifier::external_body]
pub(crate) fn as_str_owned(v: &serde_json::Value) -> (r: Option<String>)
    ensures
        match json_model(*v) {
            JsonVal::Str(s) => r matches Some(x) && x@ == s,
            _ => r is None,
        },
{
    v.as_str().map(str::to_owned)
}

/// Relies on `serde_json::Value::as_u64`: yields the unsigned 64-bit
/// reading of a JSON number, and `None` on anything else or on a number
/// that has none.
#[verifier::external_body]
pub(crate) fn as_u64(v: &serde_json::Value) -> (r: Option<u64>)
    ensures
        match json_model(*v) {
            JsonVal::Num(o) => r == o,
            _ => r is None,
        },
{
    v.as_u64()
}

/// Relies on `serde_json::Value::as_bool`: yields a JSON boolean, and
/// `None` on anything else.
#[verifier::external_body]
pub(crate) fn as_bool(v: &serde_json::Value) -> (r: Option<bool>)
    ensures
        match json_model(*v) {
            JsonVal::Bool(b) => r == Some(b),
            _ => r is None,
        },
{
    v.as_bool()
}

/// Relies on `serde_json::Value`'s `Clone`: the copy holds the same value.
#[verifier::external_body]
pub(crate) fn clone_value(v: &serde_json::Value) -> (r: serde_json::Value)
    ensures
        json_model(r) == json_model(*v),
{
    v.clone()
}

/// The value under `key` when the model is an object that holds it.
pub open spec fn obj_field(m: JsonVal, key: Seq<char>) -> Option<JsonVal> {
    match m {
        JsonVal::Obj(fields) => if fields.contains_key(key) {
            Some(fields[key])
        } else {
            None
        },
        _ => None,
    }
}

/// The element at `i` when the model is an array long enough to hold it.
pub open spec fn arr_at(m: JsonVal, i: int) -> Option<JsonVal> {
    match m {
        JsonVal::Arr(items) => if 0 <= i < items.len() {
            Some(items[i])
        } else {
            None
        },
        _ => None,
    }
}

} // verus!
