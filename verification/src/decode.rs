//! Decoding of response bodies into the typed envelopes.
//!
//! Parsing the body's text as JSON is serde_json's work; every call into it
//! stands behind a trusted item of [`crate::json`], whose contracts speak of
//! the parsed document's shape. Which shapes count as the expected envelope
//! is this library's own rule, written down by the spec functions below and
//! decided by the verified functions: decoding succeeds exactly on the
//! envelope shapes, and hands back exactly the record ids those shapes
//! carry, in order.

use vstd::prelude::*;
use crate::error::Error;
use crate::json::{array_elements, json_parse, json_shape, object_field, parse_json, string_value,
    JsonShape};
use crate::response::{InstrumentInfo, Response};

verus! {

/// The id of one instrument record's shape: present exactly when the record
/// is an object whose `id` field is a string. Everything else in the record
/// is left uninterpreted.
pub open spec fn record_id(shape: JsonShape) -> Option<Seq<char>> {
    match shape {
        JsonShape::Object(fields) => if fields.dom().contains("id"@) {
            match fields["id"@] {
                JsonShape::Text(text) => Some(text),
                _ => None,
            }
        } else {
            None
        },
        _ => None,
    }
}

/// The payload of a list envelope's shape: the record ids in the array's
/// order, present exactly when the document is an object whose `results`
/// field is an array of records that each carry a string id.
pub open spec fn list_envelope_ids(doc: JsonShape) -> Option<Seq<Seq<char>>> {
    match doc {
        JsonShape::Object(fields) => if fields.dom().contains("results"@) {
            match fields["results"@] {
                JsonShape::Array(records) => if forall|i: int|
                    0 <= i < records.len() ==> record_id(#[trigger] records[i]) is Some {
                    Some(Seq::new(records.len(), |i: int| record_id(records[i]).unwrap()))
                } else {
                    None
                },
                _ => None,
            }
        } else {
            None
        },
        _ => None,
    }
}

/// The payload of a single-record envelope's shape: the record's id,
/// present exactly when the document is an object whose `results` field is
/// one record carrying a string id.
pub open spec fn single_envelope_id(doc: JsonShape) -> Option<Seq<char>> {
    match doc {
        JsonShape::Object(fields) => if fields.dom().contains("results"@) {
            record_id(fields["results"@])
        } else {
            None
        },
        _ => None,
    }
}

/// A decoding failure of the library's own, for a document that is valid
/// JSON but does not have the envelope's shape.
fn shape_error(detail: &str) -> (e: Error)
    ensures
        e matches Error::Deserialization(m) && m@ == detail@,
{
    Error::Deserialization(detail.to_owned())
}

/// Reads one instrument record out of a parsed JSON value. It succeeds
/// exactly when the value's shape carries a record id, returns exactly that
/// id, and fails with a decoding failure, never a transport failure.
pub fn instrument_info_from_value(value: &serde_json::Value) -> (r: Result<InstrumentInfo, Error>)
    ensures
        match r {
            Ok(info) => record_id(json_shape(*value)) matches Some(text) && info.id@ == text,
            Err(e) => e is Deserialization && record_id(json_shape(*value)) is None,
        },
{
    match object_field(value, "id") {
        Some(id_value) => match string_value(id_value) {
            Some(id) => Ok(InstrumentInfo { id: id.to_owned() }),
            None => Err(shape_error("instrument record field 'id' is not a string")),
        },
        None => Err(shape_error("instrument record is not an object with an 'id' field")),
    }
}

/// Decodes the body of a list-instruments response. It succeeds exactly
/// when the body parses as a document of the list envelope's shape, and
/// then returns exactly the envelope's records, in the envelope's order,
/// none dropped or added. Every failure — text that is not valid JSON as
/// much as a document of another shape — is a decoding failure, never a
/// transport failure.
pub fn decode_instruments(body: &str) -> (r: Result<Response<Vec<InstrumentInfo>>, Error>)
    ensures
        match r {
            Ok(resp) => json_parse(body@) matches Some(doc) && list_envelope_ids(doc) matches Some(
                ids,
            ) && resp.results@.len() == ids.len() && forall|i: int|
                0 <= i < ids.len() ==> (#[trigger] resp.results@[i]).id@ == ids[i],
            Err(e) => e is Deserialization && (json_parse(body@) matches Some(doc)
                ==> list_envelope_ids(doc) is None),
        },
{
    let parsed = match parse_json(body) {
        Ok(v) => v,
        Err(text) => {
            return Err(Error::Deserialization(text));
        },
    };
    let ghost doc = json_shape(parsed);
    let results = match object_field(&parsed, "results") {
        Some(v) => v,
        None => {
            return Err(shape_error("response envelope is not an object with a 'results' field"));
        },
    };
    let elements = match array_elements(results) {
        Some(v) => v,
        None => {
            return Err(shape_error("envelope field 'results' is not an array"));
        },
    };
    let ghost shapes = json_shape(*results)->Array_0;
    let mut records: Vec<InstrumentInfo> = Vec::new();
    let mut i: usize = 0;
    while i < elements.len()
        invariant
            i <= elements.len(),
            records@.len() == i,
            json_parse(body@) == Some(doc),
            doc matches JsonShape::Object(fields) && fields.dom().contains("results"@)
                && fields["results"@] == JsonShape::Array(shapes),
            elements@.len() == shapes.len(),
            forall|k: int| 0 <= k < shapes.len() ==> json_shape(#[trigger] elements@[k])
                == shapes[k],
            forall|k: int| 0 <= k < i ==> record_id(#[trigger] shapes[k]) is Some,
            forall|k: int| 0 <= k < i ==> (#[trigger] records@[k]).id@ == record_id(
                shapes[k],
            ).unwrap(),
        decreases elements.len() - i,
    {
        match instrument_info_from_value(&elements[i]) {
            Ok(info) => records.push(info),
            Err(e) => {
                proof {
                    if forall|k: int| 0 <= k < shapes.len() ==> record_id(#[trigger] shapes[k])
                        is Some {
                        assert(record_id(shapes[i as int]) is Some);
                    }
                }
                return Err(e);
            },
        }
        i = i + 1;
    }
    Ok(Response { results: records })
}

/// Decodes the body of a single-instrument response. It succeeds exactly
/// when the body parses as a document of the single-record envelope's
/// shape, and then returns exactly the envelope's record. Every failure is
/// a decoding failure, never a transport failure.
pub fn decode_instrument(body: &str) -> (r: Result<Response<InstrumentInfo>, Error>)
    ensures
        match r {
            Ok(resp) => json_parse(body@) matches Some(doc) && single_envelope_id(doc)
                matches Some(text) && resp.results.id@ == text,
            Err(e) => e is Deserialization && (json_parse(body@) matches Some(doc)
                ==> single_envelope_id(doc) is None),
        },
{
    let parsed = match parse_json(body) {
        Ok(v) => v,
        Err(text) => {
            return Err(Error::Deserialization(text));
        },
    };
    let results = match object_field(&parsed, "results") {
        Some(v) => v,
        None => {
            return Err(shape_error("response envelope is not an object with a 'results' field"));
        },
    };
    match instrument_info_from_value(results) {
        Ok(info) => Ok(Response { results: info }),
        Err(e) => Err(e),
    }
}

} // verus!
