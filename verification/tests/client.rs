use tardis_http::{Error, Exchange, TardisHttpClient, TARDIS_BASE_URL};

#[test]
fn new_with_explicit_key_and_base_url() {
    let client = TardisHttpClient::new(Some("k1"), Some("http://example.test")).unwrap();
    let req = client.instruments_request(Exchange::Binance);
    assert_eq!(req.url, "http://example.test/instruments/binance");
    assert_eq!(req.bearer_token, "k1");
}

#[test]
fn new_without_key_fails_with_missing_credential() {
    let r = TardisHttpClient::new(None, Some("http://example.test"));
    match r {
        Err(e) => {
            assert!(e.is_missing_api_key());
            assert!(!e.is_request());
            assert!(!e.is_deserialization());
        }
        Ok(_) => panic!("construction without a key must fail"),
    }
}

#[test]
fn new_with_empty_key_fails_with_missing_credential() {
    let r = TardisHttpClient::new(Some(""), None);
    assert!(matches!(r, Err(Error::MissingApiKey)));
}

#[test]
fn default_base_url_used_when_no_override_given() {
    let client = TardisHttpClient::new(Some("secret"), None).unwrap();
    let req = client.instruments_request(Exchange::Bitmex);
    assert_eq!(req.url, format!("{}/instruments/bitmex", TARDIS_BASE_URL));
    assert_eq!(req.url, "https://api.tardis.dev/v1/instruments/bitmex");
}

#[test]
fn override_base_url_governs_every_request() {
    let client = TardisHttpClient::new(Some("secret"), Some("http://localhost:8080")).unwrap();
    let list = client.instruments_request(Exchange::Deribit);
    let one = client.instrument_request(Exchange::Deribit, "BTC-PERPETUAL".to_string());
    assert!(list.url.starts_with("http://localhost:8080/"));
    assert!(one.url.starts_with("http://localhost:8080/"));
    assert!(!list.url.starts_with(TARDIS_BASE_URL));
    assert!(!one.url.starts_with(TARDIS_BASE_URL));
}

#[test]
fn instrument_request_builds_exact_url_and_header() {
    let client = TardisHttpClient::new(Some("k1"), Some("http://example.test")).unwrap();
    let req = client.instrument_request(Exchange::Binance, "BTCUSDT".to_string());
    assert_eq!(req.url, "http://example.test/instruments/binance/BTCUSDT");
    assert_eq!(req.bearer_token, "k1");
    assert_eq!(req.authorization_header(), "Bearer k1");
}

#[test]
fn symbol_is_substituted_unescaped() {
    let client = TardisHttpClient::new(Some("k"), Some("http://h")).unwrap();
    let req = client.instrument_request(Exchange::Kraken, "a b/c?d".to_string());
    assert_eq!(req.url, "http://h/instruments/kraken/a b/c?d");
}

#[test]
fn exchange_canonical_names() {
    assert_eq!(Exchange::Binance.as_str(), "binance");
    assert_eq!(Exchange::BinanceFutures.as_str(), "binance-futures");
    assert_eq!(Exchange::BybitSpot.as_str(), "bybit-spot");
    assert_eq!(Exchange::CryptoCom.as_str(), "crypto-com");
    assert_eq!(Exchange::GateIo.as_str(), "gate-io");
    assert_eq!(Exchange::Okex.as_str(), "okex");
}

#[test]
fn error_messages_carry_the_underlying_text() {
    let req = Error::request("connection refused".to_string());
    assert!(req.is_request());
    assert_eq!(req.message(), "Error sending request: connection refused");

    let de = Error::deserialization("expected value".to_string());
    assert!(de.is_deserialization());
    assert_eq!(de.message(), "Error deserializing message: expected value");

    assert_eq!(Error::MissingApiKey.message(), "API key must be provided");
}
