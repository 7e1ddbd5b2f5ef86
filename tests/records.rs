use std::str::FromStr;

use bigdecimal::{BigDecimal, FromPrimitive};
use coinbase_public::{
    currencies_from_json, currency_price_from_json, exchange_rates_from_json,
    pagination_from_json, parse_json, read_count, server_time_from_json, Order,
};

#[test]
fn test_currencies_deserialize() {
    let input = r#"
    [
    {
        "id": "AED",
        "name": "United Arab Emirates Dirham",
        "min_size": "0.01000000"
    },
    {
        "id": "AFN",
        "name": "Afghan Afghani",
        "min_size": "0.01000000"
    },
    {
        "id": "ALL",
        "name": "Albanian Lek",
        "min_size": "0.01000000"
    },
    {
        "id": "AMD",
        "name": "Armenian Dram",
        "min_size": "0.01000000"
    }
    ]"#;
    let doc = parse_json(input.as_bytes()).unwrap();
    let currencies = currencies_from_json(&doc).unwrap();
    assert_eq!(currencies.len(), 4);
}

#[test]
fn test_exchange_rates_deserialize() {
    let input = r#"
    {
    "currency": "BTC",
    "rates": {
        "AED": "36.73",
        "AFN": "589.50",
        "ALL": "1258.82",
        "AMD": "4769.49",
        "ANG": "17.88",
        "AOA": "1102.76",
        "ARS": "90.37",
        "AUD": "12.93",
        "AWG": "17.93",
        "AZN": "10.48",
        "BAM": "17.38"
    }
    }"#;
    let doc = parse_json(input.as_bytes()).unwrap();
    let exchange_rates = exchange_rates_from_json(&doc).unwrap();
    assert_eq!(exchange_rates.currency, "BTC");
    assert_eq!(exchange_rates.rates.len(), 11);
}

#[test]
fn test_currency_price_deserialize() {
    let input = r#"
    {
    "amount": "1010.25",
    "currency": "USD"
    }"#;
    let doc = parse_json(input.as_bytes()).unwrap();
    let currency_price = currency_price_from_json(&doc).unwrap();
    assert_eq!(currency_price.amount, BigDecimal::from_f32(1010.25).unwrap());
    assert_eq!(currency_price.currency, "USD");
}

#[test]
fn test_current_time_deserialize() {
    let input = r#"
    {
    "iso": "2015-06-23T18:02:51Z",
    "epoch": 1435082571
    }"#;
    let doc = parse_json(input.as_bytes()).unwrap();
    let time = server_time_from_json(&doc).unwrap();
    assert_eq!(1435082571, time.timestamp());
}

#[test]
fn currencies_keep_order_and_fields() {
    let input = r#"[
        {"id": "AED", "name": "United Arab Emirates Dirham", "min_size": "0.01000000"},
        {"id": "BTC", "name": "Bitcoin", "min_size": "0.00000001", "extra": true}
    ]"#;
    let doc = parse_json(input.as_bytes()).unwrap();
    let currencies = currencies_from_json(&doc).unwrap();
    assert_eq!(currencies.len(), 2);
    assert_eq!(currencies[0].id, "AED");
    assert_eq!(currencies[0].name, "United Arab Emirates Dirham");
    assert_eq!(currencies[0].min_size, BigDecimal::from_str("0.01").unwrap());
    assert_eq!(currencies[1].id, "BTC");
    assert_eq!(currencies[1].min_size, BigDecimal::from_str("0.00000001").unwrap());
}

#[test]
fn empty_currency_list() {
    let doc = parse_json(b"[]").unwrap();
    assert_eq!(currencies_from_json(&doc).unwrap().len(), 0);
}

#[test]
fn currency_missing_member_is_refused() {
    let doc = parse_json(br#"[{"id": "AED", "min_size": "0.01"}]"#).unwrap();
    assert!(currencies_from_json(&doc).is_none());
}

#[test]
fn trailing_zeros_keep_the_value() {
    let doc = parse_json(br#"{"amount": "0.01000000", "currency": "BTC"}"#).unwrap();
    let price = currency_price_from_json(&doc).unwrap();
    assert_eq!(price.amount, BigDecimal::from_str("0.01").unwrap());
    assert_eq!(price.amount.to_string(), "0.01000000");
}

#[test]
fn number_amount_is_read() {
    let doc = parse_json(br#"{"amount": 12, "currency": "USD"}"#).unwrap();
    let price = currency_price_from_json(&doc).unwrap();
    assert_eq!(price.amount, BigDecimal::from(12));
}

#[test]
fn bad_decimal_is_refused() {
    let doc = parse_json(br#"{"amount": "ten", "currency": "USD"}"#).unwrap();
    assert!(currency_price_from_json(&doc).is_none());
}

#[test]
fn exchange_rates_keep_names_and_values() {
    let doc = parse_json(br#"{"currency": "USD", "rates": {"EUR": "0.91", "GBP": "0.79"}}"#).unwrap();
    let rates = exchange_rates_from_json(&doc).unwrap();
    assert_eq!(rates.rates.len(), 2);
    assert_eq!(rates.rates[0].0, "EUR");
    assert_eq!(rates.rates[0].1, BigDecimal::from_str("0.91").unwrap());
    assert_eq!(rates.rates[1].0, "GBP");
}

#[test]
fn time_with_offset_is_folded_into_utc() {
    let doc = parse_json(br#"{"iso": "2015-06-23T20:02:51+02:00"}"#).unwrap();
    let time = server_time_from_json(&doc).unwrap();
    assert_eq!(time.timestamp(), 1435082571);
    assert_eq!(time.nanos, 0);
}

#[test]
fn bad_time_is_refused() {
    let doc = parse_json(br#"{"iso": "yesterday"}"#).unwrap();
    assert!(server_time_from_json(&doc).is_none());
}

#[test]
fn order_reads_wire_names() {
    assert_eq!(Order::from_wire("asc"), Some(Order::Ascending));
    assert_eq!(Order::from_wire("desc"), Some(Order::Descending));
    assert_eq!(Order::from_wire("up"), None);
}

#[test]
fn counts_are_read_from_digits() {
    let doc = parse_json(b"[25, 0, -1, 2.5, 18446744073709551615, \"7\"]").unwrap();
    let items = match doc {
        coinbase_public::Json::Array(items) => items,
        _ => panic!("an array was parsed"),
    };
    assert_eq!(read_count(&items[0]), Some(25));
    assert_eq!(read_count(&items[1]), Some(0));
    assert_eq!(read_count(&items[2]), None);
    assert_eq!(read_count(&items[3]), None);
    assert_eq!(read_count(&items[4]), Some(usize::MAX));
    assert_eq!(read_count(&items[5]), None);
}

#[test]
fn count_too_large_is_refused() {
    let doc = parse_json(b"[18446744073709551616]").unwrap();
    match doc {
        coinbase_public::Json::Array(items) => assert_eq!(read_count(&items[0]), None),
        _ => panic!("an array was parsed"),
    }
}

#[test]
fn pagination_is_read() {
    let input = br#"{
        "ending_before": null,
        "starting_after": "2015-06-23T18:02:51Z",
        "limit": 25,
        "order": "desc",
        "previous_uri": "/v2/accounts?ending_before=a",
        "next_uri": "/v2/accounts?starting_after=b"
    }"#;
    let doc = parse_json(input).unwrap();
    let page = pagination_from_json(&doc).unwrap();
    assert!(page.ending_before.is_none());
    assert_eq!(page.starting_after.unwrap().timestamp(), 1435082571);
    assert!(page.next_starting_after.is_none());
    assert_eq!(page.limit, 25);
    assert_eq!(page.order, Order::Descending);
    assert_eq!(page.previous_uri, "/v2/accounts?ending_before=a");
    assert_eq!(page.next_uri, "/v2/accounts?starting_after=b");
}

#[test]
fn pagination_with_unknown_order_is_refused() {
    let input = br#"{"limit": 25, "order": "up", "previous_uri": "", "next_uri": ""}"#;
    let doc = parse_json(input).unwrap();
    assert!(pagination_from_json(&doc).is_none());
}
