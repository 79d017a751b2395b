//! The trusted boundary to serde_json.
//!
//! Everything here is an item of serde_json taken on its own source: the
//! declaration makes its value type usable in signatures, and each wrapper
//! makes one call. What a parsed value holds is given a name, the shape
//! below, that the wrappers' contracts share. Which shapes count as the
//! expected envelope is decided elsewhere, in verified code.

use vstd::prelude::*;

verus! {

#[verifier::external_type_specification]
#[verifier::external_body]
pub struct ExJsonValue(serde_json::Value);

/// The shape of one JSON value, as far as the client's envelope rule reads
/// it: an object by its fields, an array by its elements in order, a string
/// by its text. The values the rule never tells apart — null, booleans,
/// numbers — share one shape.
pub ghost enum JsonShape {
    Object(Map<Seq<char>, JsonShape>),
    Array(Seq<JsonShape>),
    Text(Seq<char>),
    Other,
}

/// What parsing a text as JSON yields: the document's shape, or `None` when
/// the text is not valid JSON. Names the result of serde_json::from_str,
/// which depends on the text alone.
pub uninterp spec fn json_parse(s: Seq<char>) -> Option<JsonShape>;

/// The shape a parsed serde_json value holds. Names the contents of a
/// serde_json::Value; every wrapper below speaks of it.
pub uninterp spec fn json_shape(v: serde_json::Value) -> JsonShape;

/// Relies on serde_json::from_str: parses the text as one JSON document,
/// failing exactly when the text is not valid JSON. A failure is handed
/// back as the text its Display impl gives it.
#[verifier::external_body]
pub(crate) fn parse_json(body: &str) -> (r: Result<serde_json::Value, String>)
    ensures
        match r {
            Ok(v) => json_parse(body@) matches Some(shape) && json_shape(v) == shape,
            Err(_) => json_parse(body@) is None,
        },
{
    match serde_json::from_str::<serde_json::Value>(body) {
        Ok(v) => Ok(v),
        Err(e) => Err(e.to_string()),
    }
}

/// Relies on serde_json::Value::get: the value under `key` exactly when the
/// document is an object that holds that key, `None` otherwise.
#[verifier::external_body]
pub(crate) fn object_field<'a>(value: &'a serde_json::Value, key: &str) -> (r: Option<
    &'a serde_json::Value,
>)
    ensures
        match r {
            Some(field) => json_shape(*value) matches JsonShape::Object(fields)
                && fields.dom().contains(key@) && json_shape(*field) == fields[key@],
            None => json_shape(*value) matches JsonShape::Object(fields) ==> !fields.dom().contains(
                key@,
            ),
        },
{
    serde_json::Value::get(value, key)
}

/// Relies on serde_json::Value::as_array: the elements, in order, exactly
/// when the value is a JSON array, `None` otherwise.
#[verifier::external_body]
pub(crate) fn array_elements(value: &serde_json::Value) -> (r: Option<&Vec<serde_json::Value>>)
    ensures
        match r {
            Some(elements) => json_shape(*value) matches JsonShape::Array(shapes)
                && elements@.len() == shapes.len() && forall|i: int|
                0 <= i < shapes.len() ==> json_shape(#[trigger] elements@[i]) == shapes[i],
            None => !(json_shape(*value) is Array),
        },
{
    serde_json::Value::as_array(value)
}

/// Relies on serde_json::Value::as_str: the text exactly when the value is
/// a JSON string, `None` otherwise.
#[verifier::external_body]
pub(crate) fn string_value<'a>(value: &'a serde_json::Value) -> (r: Option<&'a str>)
    ensures
        match r {
            Some(text) => json_shape(*value) == JsonShape::Text(text@),
            None => !(json_shape(*value) is Text),
        },
{
    serde_json::Value::as_str(value)
}

} // verus!
