//! Trusted boundary to the `serde_json` crate.
//!
//! Response bodies are JSON documents. A parsed document is carried through
//! as an opaque `serde_json::Value`; its content is modeled by the spec enum
//! [`JsonVal`] through the name [`json_of`], and each wrapper below ties one
//! accessor of the crate to that model. The decoders in this crate state
//! their results over the named model of the parsed body.

use vstd::prelude::*;

verus! {

#[verifier::external_type_specification]
#[verifier::external_body]
pub struct ExValue(serde_json::Value);

/// Spec model of a JSON value.
pub enum JsonVal {
    Null,
    Bool(bool),
    /// A number representable as an unsigned 64-bit integer.
    UInt(u64),
    /// Any other number: negative, fractional, or out of unsigned range.
    OtherNum,
    Text(Seq<char>),
    Arr(Seq<JsonVal>),
    Obj(Map<Seq<char>, JsonVal>),
}

/// The model of a parsed JSON value.
pub uninterp spec fn json_of(v: serde_json::Value) -> JsonVal;

/// The model of the document that parsing `s` yields: nothing where `s` is
/// not well-formed JSON. Parsing depends on the text alone.
pub uninterp spec fn json_doc_of(s: Seq<char>) -> Option<JsonVal>;

/// The field of an object under `key`: nothing where `j` is no object or
/// lacks the key.
pub open spec fn obj_field(j: JsonVal, key: Seq<char>) -> Option<JsonVal> {
    match j {
        JsonVal::Obj(m) => if m.contains_key(key) {
            Some(m[key])
        } else {
            None
        },
        _ => None,
    }
}

/// The text of a JSON string, and nothing for any other value.
pub open spec fn as_text(j: JsonVal) -> Option<Seq<char>> {
    match j {
        JsonVal::Text(t) => Some(t),
        _ => None,
    }
}

/// The value of an unsigned JSON integer, and nothing for any other value.
pub open spec fn as_uint(j: JsonVal) -> Option<u64> {
    match j {
        JsonVal::UInt(n) => Some(n),
        _ => None,
    }
}

/// The elements of a JSON array, and nothing for any other value.
pub open spec fn as_arr(j: JsonVal) -> Option<Seq<JsonVal>> {
    match j {
        JsonVal::Arr(s) => Some(s),
        _ => None,
    }
}

/// The models of a sequence of parsed JSON values.
pub open spec fn seq_json_of(s: Seq<serde_json::Value>) -> Seq<JsonVal> {
    s.map_values(|x: serde_json::Value| json_of(x))
}

/// Relies on serde_json::from_str: parses a JSON document, yielding its
/// value tree, or nothing where the text is not well-formed JSON (deeply
/// nested input returns an error, never a panic).
#[verifier::external_body]
pub(crate) fn json_parse(s: &str) -> (r: Option<serde_json::Value>)
    ensures
        r is Some <==> json_doc_of(s@) is Some,
        r matches Some(v) ==> json_doc_of(s@) == Some(json_of(v)),
{
    match serde_json::from_str::<serde_json::Value>(s) {
        Ok(v) => Some(v),
        Err(_) => None,
    }
}

/// Relies on serde_json::Value::get: the value under `key` where `v` is an
/// object with that key, and nothing otherwise.
#[verifier::external_body]
pub(crate) fn json_get<'a>(v: &'a serde_json::Value, key: &str) -> (r: Option<
    &'a serde_json::Value,
>)
    ensures
        match r {
            Some(w) => obj_field(json_of(*v), key@) == Some(json_of(*w)),
            None => obj_field(json_of(*v), key@) is None,
        },
{
    v.get(key)
}

/// Relies on serde_json::Value::as_str: the text of `v` where it is a JSON
/// string, and nothing otherwise.
#[verifier::external_body]
pub(crate) fn json_as_str(v: &serde_json::Value) -> (r: Option<String>)
    ensures
        match r {
            Some(s) => json_of(*v) == JsonVal::Text(s@),
            None => as_text(json_of(*v)) is None,
        },
{
    v.as_str().map(|s| s.to_owned())
}

/// Relies on serde_json::Value::as_u64: the value of `v` where it is a
/// number representable as an unsigned 64-bit integer, and nothing
/// otherwise.
#[verifier::external_body]
pub(crate) fn json_as_u64(v: &serde_json::Value) -> (r: Option<u64>)
    ensures
        match r {
            Some(n) => json_of(*v) == JsonVal::UInt(n),
            None => as_uint(json_of(*v)) is None,
        },
{
    v.as_u64()
}

/// Relies on serde_json::Value::is_null: whether `v` is JSON null.
#[verifier::external_body]
pub(crate) fn json_is_null(v: &serde_json::Value) -> (r: bool)
    ensures
        r == (json_of(*v) == JsonVal::Null),
{
    v.is_null()
}

/// Relies on serde_json::Value::as_array: the elements of `v` where it is a
/// JSON array, and nothing otherwise.
#[verifier::external_body]
pub(crate) fn json_as_array<'a>(v: &'a serde_json::Value) -> (r: Option<
    &'a Vec<serde_json::Value>,
>)
    ensures
        match r {
            Some(a) => json_of(*v) == JsonVal::Arr(seq_json_of(a@)),
            None => as_arr(json_of(*v)) is None,
        },
{
    v.as_array()
}

} // verus!
