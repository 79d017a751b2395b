//! The client's configuration and the requests it describes.

use vstd::prelude::*;
use vstd::string::StringExecFns;
use crate::TARDIS_BASE_URL;
use crate::error::Error;
use crate::exchange::Exchange;

verus! {

/// The URL of a list-instruments request: the base URL, the fixed
/// `/instruments/` segment, and the venue's canonical name, nothing more.
pub open spec fn instruments_url(base: Seq<char>, exchange: Exchange) -> Seq<char> {
    base + "/instruments/"@ + exchange.canonical()
}

/// The URL of a single-instrument request: the list-instruments URL with a
/// slash and the symbol exactly as given, unescaped.
pub open spec fn instrument_url(base: Seq<char>, exchange: Exchange, symbol: Seq<char>) -> Seq<
    char,
> {
    instruments_url(base, exchange) + "/"@ + symbol
}

/// One outbound request, described in full: the URL to issue a GET against,
/// and the secret the request's bearer-auth header presents. Whoever
/// performs the request sends exactly this and nothing else.
pub struct ApiRequest {
    /// The full request URL.
    pub url: String,
    /// The token the `Authorization: Bearer` header carries.
    pub bearer_token: String,
}

impl ApiRequest {
    /// The exact value of the request's Authorization header: the bearer
    /// scheme, a space, and the token.
    pub fn authorization_header(&self) -> (r: String)
        ensures
            r@ == "Bearer "@ + self.bearer_token@,
    {
        let mut header: String = "Bearer ".to_owned();
        header.append(self.bearer_token.as_str());
        header
    }
}

/// A Tardis HTTP API client: a base URL and an API key, both set once at
/// construction and immutable thereafter. Every request the client
/// describes is built from these two values alone.
pub struct TardisHttpClient {
    base_url: String,
    api_key: String,
}

impl TardisHttpClient {
    /// The configured base URL.
    pub closed spec fn spec_base_url(&self) -> Seq<char> {
        self.base_url@
    }

    /// The configured API key.
    pub closed spec fn spec_api_key(&self) -> Seq<char> {
        self.api_key@
    }

    /// A client is well formed when its API key is non-empty; construction
    /// establishes this and nothing mutates it afterwards.
    pub open spec fn wf(&self) -> bool {
        self.spec_api_key().len() > 0
    }

    /// Builds a client from an API key and an optional base URL override.
    ///
    /// The key must be given and non-empty; otherwise construction fails
    /// with the missing-credential error, and with no other. Obtaining a key
    /// from anywhere else — an environment, a file — is the caller's
    /// configuration layer's work, not the client's. Without an override the
    /// base URL is the default endpoint; with one, the override is stored
    /// exactly as given.
    pub fn new(api_key: Option<&str>, base_url: Option<&str>) -> (r: Result<TardisHttpClient, Error>)
        ensures
            match r {
                Ok(c) => {
                    &&& api_key matches Some(k) && c.spec_api_key() == k@
                    &&& c.wf()
                    &&& c.spec_base_url() == match base_url {
                        Some(b) => b@,
                        None => TARDIS_BASE_URL@,
                    }
                },
                Err(e) => {
                    &&& e is MissingApiKey
                    &&& api_key matches Some(k) ==> k@.len() == 0
                },
            },
    {
        let key: &str = match api_key {
            Some(k) => k,
            None => {
                return Err(Error::MissingApiKey);
            },
        };
        if key.is_empty() {
            return Err(Error::MissingApiKey);
        }
        let base: &str = match base_url {
            Some(b) => b,
            None => TARDIS_BASE_URL,
        };
        Ok(TardisHttpClient { base_url: base.to_owned(), api_key: key.to_owned() })
    }

    /// Describes the request that lists every instrument of `exchange`:
    /// a GET against `{base_url}/instruments/{exchange}`, authenticated with
    /// exactly the configured API key.
    pub fn instruments_request(&self, exchange: Exchange) -> (r: ApiRequest)
        ensures
            r.url@ == instruments_url(self.spec_base_url(), exchange),
            r.bearer_token@ == self.spec_api_key(),
    {
        let mut url = self.base_url.clone();
        url.append("/instruments/");
        url.append(exchange.as_str());
        ApiRequest { url, bearer_token: self.api_key.clone() }
    }

    /// Describes the request that fetches one instrument of `exchange` by
    /// `symbol`: a GET against `{base_url}/instruments/{exchange}/{symbol}`,
    /// the symbol taken as given with no escaping, authenticated with
    /// exactly the configured API key.
    pub fn instrument_request(&self, exchange: Exchange, symbol: String) -> (r: ApiRequest)
        ensures
            r.url@ == instrument_url(self.spec_base_url(), exchange, symbol@),
            r.bearer_token@ == self.spec_api_key(),
    {
        let mut url = self.base_url.clone();
        url.append("/instruments/");
        url.append(exchange.as_str());
        url.append("/");
        url.append(symbol.as_str());
        ApiRequest { url, bearer_token: self.api_key.clone() }
    }
}

/// Every request URL begins with the configured base URL: a client built
/// with a base URL override therefore issues all of its requests against
/// the override, and against the default endpoint only when the override is
/// the default itself.
pub proof fn lemma_requests_use_base_url(base: Seq<char>, exchange: Exchange, symbol: Seq<char>)
    ensures
        instruments_url(base, exchange).take(base.len() as int) == base,
        instrument_url(base, exchange, symbol).take(base.len() as int) == base,
        base != TARDIS_BASE_URL@ ==> instruments_url(base, exchange).take(base.len() as int)
            != TARDIS_BASE_URL@,
        base != TARDIS_BASE_URL@ ==> instrument_url(base, exchange, symbol).take(base.len() as int)
            != TARDIS_BASE_URL@,
{
    assert(instruments_url(base, exchange).take(base.len() as int) =~= base);
    assert(instrument_url(base, exchange, symbol).take(base.len() as int) =~= base);
}

} // verus!
