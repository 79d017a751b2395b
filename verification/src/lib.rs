//! A verified HTTP API client for the Tardis market-data service.
//!
//! The library holds the client's logic: building authenticated request
//! descriptions for the two instrument-metadata endpoints and decoding the
//! JSON response envelopes. Sending the requests over the network is left to
//! the caller, who performs each described request and hands the response
//! body back for decoding.

pub mod client;
pub mod decode;
pub mod error;
pub mod exchange;
pub mod json;
pub mod response;

use vstd::prelude::*;

verus! {

/// The default endpoint of the Tardis HTTP API, used when no base URL
/// override is given at construction.
pub const TARDIS_BASE_URL: &'static str = "https://api.tardis.dev/v1";

} // verus!

pub use client::{instrument_url, instruments_url, ApiRequest, TardisHttpClient};
pub use decode::{decode_instrument, decode_instruments, instrument_info_from_value,
    list_envelope_ids, record_id, single_envelope_id};
pub use error::Error;
pub use json::{json_parse, json_shape, JsonShape};
pub use exchange::Exchange;
pub use response::{InstrumentInfo, Response};
