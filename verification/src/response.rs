//! The typed shapes the remote API's responses decode into.

use vstd::prelude::*;

verus! {

/// The envelope the remote API wraps every payload in: a JSON object whose
/// `results` field holds the payload, a single record or a sequence of
/// records depending on the endpoint. The client reads no other envelope
/// metadata.
#[derive(Debug, Clone, PartialEq, Eq)]
pub struct Response<T> {
    /// The payload the envelope carries.
    pub results: T,
}

/// One instrument's metadata record. The record is opaque to the client,
/// which keeps only the instrument's identifier and interprets nothing else.
#[derive(Debug, Clone, PartialEq, Eq)]
pub struct InstrumentInfo {
    /// The instrument's identifier, as the record's `id` field carried it.
    pub id: String,
}

} // verus!
