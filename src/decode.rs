//! Reading a response body: the envelope first, the reported-error shape as
//! the fallback, and then the typed value in the envelope's `data` member.
use vstd::prelude::*;
use vstd::utf8::{decode_utf8, valid_utf8};
use crate::error::{api_errors_fit, api_errors_from_json, api_errors_read_from, CBError, DecodeFault};
use crate::json::{body_text, field, get_field, is_json, json_of_value, parse_value, Json, MAX_DEPTH};
use crate::records::{
    currencies_fit, currencies_from_json, currencies_read_from, currency_price_fits,
    currency_price_from_json, currency_price_read_from, exchange_rates_fit, exchange_rates_from_json,
    exchange_rates_read_from, pagination_fits, pagination_from_json, pagination_read_from,
    server_time_from_json, server_time_of, Currency, CurrencyPrice, ExchangeRates, Pagination,
    UtcTime,
};

verus! {

/// What a response body turned out to be at the first reading: a JSON
/// document, or not. A document is then read as the envelope with the
/// expected value, or else as reported problems, or else neither (see
/// `is_fallback_error`).
#[derive(Debug)]
pub enum BodyShape {
    /// A JSON document.
    Envelope(Json),
    /// No JSON document.
    Unrecognized(DecodeFault),
}

/// `data` is the body's text, where the body is valid UTF-8.
pub open spec fn keeps_text(body: Seq<u8>, data: Seq<char>) -> bool {
    valid_utf8(body) ==> data == decode_utf8(body)
}

/// `r` is the failure for a document whose `data` member is not the
/// expected value, carrying `raw`.
pub open spec fn is_shape_error(r: CBError, raw: Seq<char>) -> bool {
    r matches CBError::Serde { error: DecodeFault::Shape, data } && data@ == raw
}

/// The failure for a document whose `data` member is not the expected
/// value: the reported problems where the document has their shape, else a
/// shape failure that carries `raw`.
pub open spec fn is_fallback_error(e: CBError, doc: Json, raw: Seq<char>) -> bool {
    if api_errors_fit(doc) {
        e matches CBError::Coinbase(errors) && api_errors_read_from(errors, doc)
    } else {
        is_shape_error(e, raw)
    }
}

/// Reads a document that holds no expected value as reported problems, or
/// else as a shape failure.
pub fn fallback_error(doc: &Json, raw: String) -> (r: CBError)
    ensures
        is_fallback_error(r, *doc, raw@),
{
    match api_errors_from_json(doc) {
        Some(errors) => CBError::Coinbase(errors),
        None => CBError::Serde { error: DecodeFault::Shape, data: raw },
    }
}

/// Reads a body as a JSON document, or the fault that it is none.
pub fn classify_body(body: &[u8]) -> (r: BodyShape)
    ensures
        !is_json(body@) ==> r matches BodyShape::Unrecognized(DecodeFault::Syntax(_)),
        is_json(body@) ==> (r is Envelope || r matches BodyShape::Unrecognized(DecodeFault::TooDeep)),
        body@.len() == 0 ==> r matches BodyShape::Unrecognized(DecodeFault::Syntax(_)),
{
    match parse_value(body) {
        Ok(v) => match json_of_value(&v, MAX_DEPTH) {
            Some(doc) => BodyShape::Envelope(doc),
            None => BodyShape::Unrecognized(DecodeFault::TooDeep),
        },
        Err(e) => BodyShape::Unrecognized(DecodeFault::Syntax(e)),
    }
}

/// Reads the envelope of a body, or the failure that the body is.
pub fn read_envelope(body: &[u8]) -> (r: Result<Json, CBError>)
    ensures
        r is Ok ==> is_json(body@),
        !is_json(body@) ==> r matches Err(CBError::Serde { error: DecodeFault::Syntax(_), .. }),
        body@.len() == 0 ==> r matches Err(CBError::Serde { error: DecodeFault::Syntax(_), .. }),
        r is Err ==> (r->Err_0 is Serde),
        r matches Err(CBError::Serde { data, .. }) ==> keeps_text(body@, data@),
{
    match classify_body(body) {
        BodyShape::Envelope(doc) => Ok(doc),
        BodyShape::Unrecognized(fault) => Err(CBError::Serde { error: fault, data: body_text(body) }),
    }
}

/// The list of currencies in an envelope's `data` member; the document's
/// reported problems, or the failure that carries `raw`, where there is
/// none.
pub fn interpret_currencies(doc: &Json, raw: String) -> (r: Result<Vec<Currency>, CBError>)
    ensures
        r is Ok <==> (field(*doc, "data"@) matches Some(d) && currencies_fit(d)),
        r is Ok ==> currencies_read_from(r->Ok_0@, field(*doc, "data"@)->0),
        r is Err ==> is_fallback_error(r->Err_0, *doc, raw@),
{
    if let Some(d) = get_field(doc, "data") {
        if let Some(v) = currencies_from_json(d) {
            return Ok(v);
        }
    }
    Err(fallback_error(doc, raw))
}

/// The exchange rates in an envelope's `data` member; the document's
/// reported problems, or the failure that carries `raw`, where there are
/// none.
pub fn interpret_exchange_rates(doc: &Json, raw: String) -> (r: Result<ExchangeRates, CBError>)
    ensures
        r is Ok <==> (field(*doc, "data"@) matches Some(d) && exchange_rates_fit(d)),
        r is Ok ==> exchange_rates_read_from(r->Ok_0, field(*doc, "data"@)->0),
        r is Err ==> is_fallback_error(r->Err_0, *doc, raw@),
{
    if let Some(d) = get_field(doc, "data") {
        if let Some(v) = exchange_rates_from_json(d) {
            return Ok(v);
        }
    }
    Err(fallback_error(doc, raw))
}

/// The price in an envelope's `data` member; the document's reported
/// problems, or the failure that carries `raw`, where there is none.
pub fn interpret_currency_price(doc: &Json, raw: String) -> (r: Result<CurrencyPrice, CBError>)
    ensures
        r is Ok <==> (field(*doc, "data"@) matches Some(d) && currency_price_fits(d)),
        r is Ok ==> currency_price_read_from(r->Ok_0, field(*doc, "data"@)->0),
        r is Err ==> is_fallback_error(r->Err_0, *doc, raw@),
{
    if let Some(d) = get_field(doc, "data") {
        if let Some(v) = currency_price_from_json(d) {
            return Ok(v);
        }
    }
    Err(fallback_error(doc, raw))
}

/// The server time in an envelope's `data` member; the document's reported
/// problems, or the failure that carries `raw`, where there is none.
pub fn interpret_current_time(doc: &Json, raw: String) -> (r: Result<UtcTime, CBError>)
    ensures
        r is Ok <==> (field(*doc, "data"@) matches Some(d) && server_time_of(d) is Some),
        r is Ok ==> Some(r->Ok_0) == server_time_of(field(*doc, "data"@)->0),
        r is Err ==> is_fallback_error(r->Err_0, *doc, raw@),
{
    if let Some(d) = get_field(doc, "data") {
        if let Some(v) = server_time_from_json(d) {
            return Ok(v);
        }
    }
    Err(fallback_error(doc, raw))
}

/// What holds of reading any body into a `T`: every failure is reported
/// problems or a decode failure that carries the body's text, and a body
/// that is no JSON (an empty one among them) fails with serde_json's error.
pub open spec fn reads_body<T>(body: Seq<u8>, r: Result<T, CBError>) -> bool {
    &&& r is Err ==> (r->Err_0 is Serde || r->Err_0 is Coinbase)
    &&& r is Ok ==> is_json(body)
    &&& !is_json(body) ==> (r matches Err(CBError::Serde { error: DecodeFault::Syntax(_), .. }))
    &&& body.len() == 0 ==> (r matches Err(CBError::Serde { error: DecodeFault::Syntax(_), .. }))
    &&& (r matches Err(CBError::Serde { data, .. }) ==> keeps_text(body, data@))
}

/// Reads the list of currencies from a response body.
pub fn decode_currencies(body: &[u8]) -> (r: Result<Vec<Currency>, CBError>)
    ensures
        reads_body(body@, r),
{
    match read_envelope(body) {
        Ok(doc) => interpret_currencies(&doc, body_text(body)),
        Err(e) => Err(e),
    }
}

/// Reads exchange rates from a response body.
pub fn decode_exchange_rates(body: &[u8]) -> (r: Result<ExchangeRates, CBError>)
    ensures
        reads_body(body@, r),
{
    match read_envelope(body) {
        Ok(doc) => interpret_exchange_rates(&doc, body_text(body)),
        Err(e) => Err(e),
    }
}

/// Reads a price from a response body.
pub fn decode_currency_price(body: &[u8]) -> (r: Result<CurrencyPrice, CBError>)
    ensures
        reads_body(body@, r),
{
    match read_envelope(body) {
        Ok(doc) => interpret_currency_price(&doc, body_text(body)),
        Err(e) => Err(e),
    }
}

/// Reads the server time from a response body.
pub fn decode_current_time(body: &[u8]) -> (r: Result<UtcTime, CBError>)
    ensures
        reads_body(body@, r),
{
    match read_envelope(body) {
        Ok(doc) => interpret_current_time(&doc, body_text(body)),
        Err(e) => Err(e),
    }
}

/// The pagination member of an envelope, where it has one that fits.
pub fn envelope_pagination(doc: &Json) -> (r: Option<Pagination>)
    ensures
        r is Some <==> (field(*doc, "pagination"@) matches Some(p) && pagination_fits(p)),
        r is Some ==> pagination_read_from(r->0, field(*doc, "pagination"@)->0),
{
    match get_field(doc, "pagination") {
        Some(p) => pagination_from_json(p),
        None => None,
    }
}

} // verus!
