//! Failures the client surfaces to its caller.

use vstd::prelude::*;
use vstd::string::StringExecFns;

verus! {

/// A failure of one client operation. Each failure is surfaced to the caller
/// as a typed result; nothing is swallowed, retried or logged.
///
/// Transport failures and decoding failures are kept apart so that a caller
/// can tell a network problem from an unexpected payload shape. The message
/// carried by those two variants is the underlying failure's own text, passed
/// through without interpretation.
#[derive(Debug, Clone, PartialEq, Eq)]
pub enum Error {
    /// Construction was attempted without an API key (or with an empty one).
    MissingApiKey,
    /// The request could not be sent, or no response arrived.
    Request(String),
    /// The response body did not decode as the expected JSON envelope.
    Deserialization(String),
}

impl Error {
    /// Wraps a transport failure's text. Every failure of sending a request
    /// is surfaced through this variant and no other.
    pub fn request(message: String) -> (e: Error)
        ensures
            e == Error::Request(message),
    {
        Error::Request(message)
    }

    /// Wraps a decoding failure's text. Every failure of decoding a response
    /// body is surfaced through this variant and no other.
    pub fn deserialization(message: String) -> (e: Error)
        ensures
            e == Error::Deserialization(message),
    {
        Error::Deserialization(message)
    }

    /// True exactly for a transport failure.
    pub fn is_request(&self) -> (r: bool)
        ensures
            r == (self is Request),
    {
        match self {
            Error::Request(_) => true,
            _ => false,
        }
    }

    /// True exactly for a decoding failure.
    pub fn is_deserialization(&self) -> (r: bool)
        ensures
            r == (self is Deserialization),
    {
        match self {
            Error::Deserialization(_) => true,
            _ => false,
        }
    }

    /// True exactly for a missing credential at construction.
    pub fn is_missing_api_key(&self) -> (r: bool)
        ensures
            r == (self is MissingApiKey),
    {
        match self {
            Error::MissingApiKey => true,
            _ => false,
        }
    }

    /// The failure rendered as text, with the underlying failure's own text
    /// appended after a fixed prefix that names the kind.
    pub fn message(&self) -> (r: String)
        ensures
            self is MissingApiKey ==> r@ == "API key must be provided"@,
            self matches Error::Request(m) ==> r@ == "Error sending request: "@ + m@,
            self matches Error::Deserialization(m) ==> r@ == "Error deserializing message: "@ + m@,
    {
        match self {
            Error::MissingApiKey => "API key must be provided".to_owned(),
            Error::Request(m) => {
                let mut s: String = "Error sending request: ".to_owned();
                s.append(m.as_str());
                s
            },
            Error::Deserialization(m) => {
                let mut s: String = "Error deserializing message: ".to_owned();
                s.append(m.as_str());
                s
            },
        }
    }
}

} // verus!
