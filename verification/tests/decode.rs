use tardis_http::{decode_instrument, decode_instruments, Error};

#[test]
fn decodes_one_instrument_record_from_list_envelope() {
    let body = "{\"results\": [{\"id\":\"BTCUSDT\"}]}";
    let resp = decode_instruments(body).unwrap();
    assert_eq!(resp.results.len(), 1);
    assert_eq!(resp.results[0].id, "BTCUSDT");
}

#[test]
fn decodes_several_records_in_order() {
    let body = "{\"results\": [{\"id\":\"XBTUSD\"}, {\"id\":\"ETHUSD\", \"type\":\"perpetual\"}]}";
    let resp = decode_instruments(body).unwrap();
    assert_eq!(resp.results.len(), 2);
    assert_eq!(resp.results[0].id, "XBTUSD");
    assert_eq!(resp.results[1].id, "ETHUSD");
}

#[test]
fn decodes_empty_list() {
    let resp = decode_instruments("{\"results\": []}").unwrap();
    assert_eq!(resp.results.len(), 0);
}

#[test]
fn decodes_single_instrument_envelope() {
    let body = "{\"results\": {\"id\":\"BTC-PERPETUAL\"}}";
    let resp = decode_instrument(body).unwrap();
    assert_eq!(resp.results.id, "BTC-PERPETUAL");
}

#[test]
fn invalid_json_is_a_deserialization_error() {
    let r = decode_instruments("not json at all");
    match r {
        Err(e) => {
            assert!(e.is_deserialization());
            assert!(!e.is_request());
        }
        Ok(_) => panic!("invalid JSON must not decode"),
    }
}

#[test]
fn valid_json_of_another_shape_is_a_deserialization_error() {
    let r = decode_instruments("{\"data\": [1, 2, 3]}");
    assert!(matches!(r, Err(Error::Deserialization(_))));
}

#[test]
fn results_field_that_is_no_array_is_a_deserialization_error() {
    let r = decode_instruments("{\"results\": 5}");
    assert!(matches!(r, Err(Error::Deserialization(_))));
}

#[test]
fn top_level_array_is_a_deserialization_error() {
    let r = decode_instruments("[{\"id\":\"BTCUSDT\"}]");
    assert!(matches!(r, Err(Error::Deserialization(_))));
}

#[test]
fn record_without_id_is_a_deserialization_error() {
    let r = decode_instruments("{\"results\": [{\"symbol\":\"BTCUSDT\"}]}");
    assert!(matches!(r, Err(Error::Deserialization(_))));
}

#[test]
fn record_with_non_string_id_is_a_deserialization_error() {
    let r = decode_instrument("{\"results\": {\"id\": 7}}");
    assert!(matches!(r, Err(Error::Deserialization(_))));
}

#[test]
fn single_envelope_without_results_is_a_deserialization_error() {
    let r = decode_instrument("{\"id\": \"BTCUSDT\"}");
    assert!(matches!(r, Err(Error::Deserialization(_))));
}
