use std::str::FromStr;

use bigdecimal::BigDecimal;
use coinbase_public::{
    api_errors_from_json, classify_body, decode_currencies, decode_current_time,
    decode_currency_price, decode_exchange_rates, envelope_pagination, parse_json, BodyShape, CBError, DecodeFault,
    Endpoint, Public, MAIN_URL,
};

#[test]
fn envelope_price_is_read() {
    let body = br#"{"data": {"amount": "1010.25", "currency": "USD"}}"#;
    let price = decode_currency_price(body).unwrap();
    assert_eq!(price.amount, BigDecimal::from_str("1010.25").unwrap());
    assert_eq!(price.currency, "USD");
}

#[test]
fn envelope_with_pagination_lists_currencies() {
    let body = br#"{
        "pagination": {"limit": 25, "order": "asc", "previous_uri": "", "next_uri": ""},
        "data": [
            {"id": "AED", "name": "United Arab Emirates Dirham", "min_size": "0.01000000"},
            {"id": "AFN", "name": "Afghan Afghani", "min_size": "0.01000000"},
            {"id": "ALL", "name": "Albanian Lek", "min_size": "0.01000000"}
        ]
    }"#;
    let currencies = decode_currencies(body).unwrap();
    assert_eq!(currencies.len(), 3);
    let doc = parse_json(body).unwrap();
    let page = envelope_pagination(&doc).unwrap();
    assert_eq!(page.limit, 25);
    assert_eq!(currencies[0].id, "AED");
    assert_eq!(currencies[1].id, "AFN");
    assert_eq!(currencies[2].id, "ALL");
}

#[test]
fn envelope_exchange_rates_are_read() {
    let body = br#"{"data": {"currency": "BTC", "rates": {"USD": "60000.5"}}}"#;
    let rates = decode_exchange_rates(body).unwrap();
    assert_eq!(rates.currency, "BTC");
    assert_eq!(rates.rates.len(), 1);
    assert_eq!(rates.rates[0].1, BigDecimal::from_str("60000.5").unwrap());
}

#[test]
fn envelope_server_time_is_read() {
    let body = br#"{"data": {"iso": "2015-06-23T18:02:51Z", "epoch": 1435082571}}"#;
    let time = decode_current_time(body).unwrap();
    assert_eq!(time.timestamp(), 1435082571);
}

#[test]
fn empty_body_is_a_syntax_failure() {
    match decode_currency_price(b"") {
        Err(CBError::Serde { error: DecodeFault::Syntax(_), data }) => assert_eq!(data, ""),
        _ => panic!("an empty body must fail to decode"),
    }
}

#[test]
fn truncated_body_keeps_its_text() {
    let body = br#"{"data": {"amount": "1"#;
    match decode_currency_price(body) {
        Err(CBError::Serde { error: DecodeFault::Syntax(_), data }) => {
            assert_eq!(data, r#"{"data": {"amount": "1"#)
        }
        _ => panic!("a truncated body must fail to decode"),
    }
}

#[test]
fn json_without_data_is_a_shape_failure() {
    let body = br#"{"message": "hello"}"#;
    match decode_currencies(body) {
        Err(CBError::Serde { error: DecodeFault::Shape, data }) => {
            assert_eq!(data, r#"{"message": "hello"}"#)
        }
        _ => panic!("a body without data must fail to decode"),
    }
}

#[test]
fn reported_errors_without_envelope_are_an_api_error() {
    let body = br#"{"errors": [{"id": "not_found", "message": "Not found"}]}"#;
    match decode_currency_price(body) {
        Err(CBError::Coinbase(reported)) => {
            assert_eq!(reported.errors.len(), 1);
            assert_eq!(reported.errors[0].id, "not_found");
            assert_eq!(reported.errors[0].message, "Not found");
        }
        _ => panic!("an error body must come back as reported problems"),
    }
}

#[test]
fn fitting_data_wins_over_reported_errors() {
    let body = br#"{"data": {"amount": "2", "currency": "EUR"},
        "errors": [{"id": "x", "message": "y"}]}"#;
    let price = decode_currency_price(body).unwrap();
    assert_eq!(price.currency, "EUR");
}

#[test]
fn unfitting_data_falls_back_to_reported_errors() {
    let body = br#"{"data": null, "errors": [{"id": "invalid_request", "message": "Bad pair"},
        {"id": "second", "message": "More"}]}"#;
    match decode_currencies(body) {
        Err(CBError::Coinbase(reported)) => {
            assert_eq!(reported.errors.len(), 2);
            assert_eq!(reported.errors[0].id, "invalid_request");
            assert_eq!(reported.errors[1].message, "More");
        }
        _ => panic!("an error body must come back as reported problems"),
    }
}

#[test]
fn empty_error_list_is_a_shape_failure() {
    let body = br#"{"errors": []}"#;
    match decode_current_time(body) {
        Err(CBError::Serde { error: DecodeFault::Shape, data }) => {
            assert_eq!(data, r#"{"errors": []}"#)
        }
        _ => panic!("no entries are no reported problems"),
    }
}

#[test]
fn data_of_the_wrong_shape_is_a_shape_failure() {
    let body = br#"{"data": [1, 2, 3]}"#;
    assert!(matches!(
        decode_current_time(body),
        Err(CBError::Serde { error: DecodeFault::Shape, .. })
    ));
}

#[test]
fn json_body_is_classified_as_envelope() {
    assert!(matches!(classify_body(br#"{"data": null}"#), BodyShape::Envelope(_)));
    assert!(matches!(
        classify_body(b"not json"),
        BodyShape::Unrecognized(DecodeFault::Syntax(_))
    ));
}

#[test]
fn reported_errors_are_read() {
    let doc = parse_json(br#"{"errors": [{"id": "not_found", "message": "Not found"}]}"#).unwrap();
    let errors = api_errors_from_json(&doc).unwrap();
    assert_eq!(errors.errors.len(), 1);
    assert_eq!(errors.errors[0].id, "not_found");
    assert_eq!(errors.errors[0].message, "Not found");
    let empty = parse_json(br#"{"errors": []}"#).unwrap();
    assert!(api_errors_from_json(&empty).is_none());
}

#[test]
fn target_joins_base_and_path() {
    let client = Public::new("https://api.example.com/v2").unwrap();
    assert_eq!(
        client.target("/currency_pair/BTC-USD/buy"),
        "https://api.example.com/v2/currency_pair/BTC-USD/buy"
    );
    let prepared = client.request("/currency_pair/BTC-USD/buy").unwrap();
    assert_eq!(prepared.description.method, "GET");
    assert_eq!(prepared.description.target, "https://api.example.com/v2/currency_pair/BTC-USD/buy");
    assert_eq!(
        prepared.description.headers,
        vec![("User-Agent".to_string(), "coinbase_public/0.1.0".to_string())]
    );
    assert!(prepared.description.body.is_empty());
    let req = prepared.http;
    assert_eq!(req.uri().to_string(), "https://api.example.com/v2/currency_pair/BTC-USD/buy");
    assert_eq!(req.method(), "GET");
    assert_eq!(req.headers().len(), 1);
    assert_eq!(req.headers()["user-agent"], "coinbase_public/0.1.0");
}

#[test]
fn base_with_space_is_an_invalid_request() {
    let client = Public::new("https://api.example.com/v 2").unwrap();
    match client.request("/currencies") {
        Err(CBError::InvalidRequest { target }) => {
            assert_eq!(target, "https://api.example.com/v 2/currencies")
        }
        _ => panic!("a base with a space must be refused"),
    }
}

#[test]
fn endpoint_paths() {
    assert_eq!(Endpoint::Currencies.path(), "/currencies");
    assert_eq!(Endpoint::ExchangeRates.path(), "/exchange-rates");
    assert_eq!(
        Endpoint::ExchangeRatesWithBase("EUR".to_string()).path(),
        "/exchange-rates?currency=EUR"
    );
    assert_eq!(Endpoint::BuyPrice("BTC-USD".to_string()).path(), "/currency_pair/BTC-USD/buy");
    assert_eq!(Endpoint::SellPrice("BTC-USD".to_string()).path(), "/currency_pair/BTC-USD/sell");
    assert_eq!(Endpoint::SpotPrice("BTC-USD".to_string()).path(), "/currency_pair/BTC-USD/spot");
    assert_eq!(Endpoint::CurrentTime.path(), "/current_time");
}

#[test]
fn one_client_serves_interleaved_calls() {
    let client = Public::new(MAIN_URL).unwrap();
    let a = client.request(&Endpoint::BuyPrice("BTC-USD".to_string()).path()).unwrap().http;
    let b = client.request(&Endpoint::SellPrice("ETH-EUR".to_string()).path()).unwrap().http;
    let c = client.request(&Endpoint::CurrentTime.path()).unwrap().http;
    assert_eq!(a.uri().to_string(), "https://api.coinbase.com/v2/currency_pair/BTC-USD/buy");
    assert_eq!(b.uri().to_string(), "https://api.coinbase.com/v2/currency_pair/ETH-EUR/sell");
    assert_eq!(c.uri().to_string(), "https://api.coinbase.com/v2/current_time");
    assert_eq!(client.uri(), MAIN_URL);
}

#[test]
fn non_ascii_body_text_is_kept() {
    let body = "{\"data\": \"prix en €\"}".as_bytes();
    match decode_currency_price(body) {
        Err(CBError::Serde { error: DecodeFault::Shape, data }) => {
            assert_eq!(data, "{\"data\": \"prix en €\"}")
        }
        _ => panic!("a string is no price"),
    }
}

#[test]
fn invalid_utf8_body_is_a_syntax_failure() {
    match decode_currencies(b"\xff\xfe") {
        Err(CBError::Serde { error: DecodeFault::Syntax(_), data }) => {
            assert_eq!(data, "\u{FFFD}\u{FFFD}")
        }
        _ => panic!("bytes that are no text must fail to decode"),
    }
}
