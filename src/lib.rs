//! A typed client for a public JSON/HTTP market-data API: request targets,
//! the envelope decode with its error-shape fallback, and the typed records.
pub mod outside;
pub mod json;
pub mod records;
pub mod error;
pub mod decode;
pub mod public;

pub use decode::{
    classify_body, decode_currencies, fallback_error, decode_current_time, decode_currency_price,
    decode_exchange_rates, envelope_pagination, interpret_currencies, interpret_current_time, interpret_currency_price,
    interpret_exchange_rates, read_envelope, BodyShape,
};
pub use error::{api_errors_from_json, ApiErrorEntry, ApiErrors, CBError, DecodeFault};
pub use json::{parse_json, Json};
pub use public::{Endpoint, PreparedRequest, Public, RequestDescription, MAIN_URL, USER_AGENT};
pub use records::{
    currencies_from_json, currency_from_json, currency_price_from_json, exchange_rates_from_json,
    pagination_from_json, parse_time, read_count, server_time_from_json, Currency, CurrencyPrice,
    ExchangeRates, Order, Pagination, Response, UtcTime,
};
