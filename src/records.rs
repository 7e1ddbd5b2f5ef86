//! The typed records that the API's `data` member holds, and how each is
//! read from a `Json` document.
use vstd::prelude::*;
use bigdecimal::BigDecimal;
use crate::json::{field, get_field, get_text, items_of, text_field, Json};

verus! {

/// The decimal value that `bigdecimal` parses from a text, if it parses.
pub uninterp spec fn decimal_of(s: Seq<char>) -> Option<BigDecimal>;

/// Relies on `BigDecimal`'s `FromStr`: the value, or the failure, depends
/// on the text alone.
#[verifier::external_body]
fn parse_decimal(s: &str) -> (r: Option<BigDecimal>)
    ensures
        r == decimal_of(s@),
{
    s.parse::<BigDecimal>().ok()
}

/// The instant, as whole seconds since the Unix epoch and the nanoseconds
/// past them, that chrono reads from an RFC 3339 timestamp.
pub uninterp spec fn rfc3339_instant(s: Seq<char>) -> Option<(i64, u32)>;

/// Relies on chrono's `FromStr` for `DateTime<Utc>`, read back through
/// `timestamp` and `timestamp_subsec_nanos`.
#[verifier::external_body]
fn parse_instant(s: &str) -> (r: Option<(i64, u32)>)
    ensures
        r == rfc3339_instant(s@),
{
    s.parse::<chrono::DateTime<chrono::Utc>>().ok().map(|t| (t.timestamp(), t.timestamp_subsec_nanos()))
}

/// The text that a decimal member is written in: a JSON string or a number.
pub open spec fn decimal_text(j: Json) -> Option<Seq<char>> {
    match j {
        Json::Str(s) => Some(s@),
        Json::Number(n) => Some(n@),
        _ => None,
    }
}

/// The decimal value of a JSON value.
pub open spec fn decimal_value(j: Json) -> Option<BigDecimal> {
    match decimal_text(j) {
        Some(t) => decimal_of(t),
        None => None,
    }
}

/// The decimal value of the member `key`.
pub open spec fn decimal_field(j: Json, key: Seq<char>) -> Option<BigDecimal> {
    match field(j, key) {
        Some(v) => decimal_value(v),
        None => None,
    }
}

/// Reads the decimal value of a JSON string or number.
pub fn read_decimal(j: &Json) -> (r: Option<BigDecimal>)
    ensures
        r == decimal_value(*j),
{
    match j {
        Json::Str(s) => parse_decimal(s.as_str()),
        Json::Number(n) => parse_decimal(n.as_str()),
        _ => None,
    }
}

/// Reads the decimal value of the member `key`.
pub fn get_decimal(j: &Json, key: &str) -> (r: Option<BigDecimal>)
    ensures
        r == decimal_field(*j, key@),
{
    match get_field(j, key) {
        Some(v) => read_decimal(v),
        None => None,
    }
}

/// A currency the API knows.
#[derive(Debug)]
pub struct Currency {
    pub id: String,
    pub name: String,
    pub min_size: BigDecimal,
}

/// The exchange rates of one unit of a base currency, in the order of the
/// document's members (sorted by currency name, as serde_json hands them
/// out).
#[derive(Debug)]
pub struct ExchangeRates {
    pub currency: String,
    pub rates: Vec<(String, BigDecimal)>,
}

/// An amount of a currency.
#[derive(Debug)]
pub struct CurrencyPrice {
    pub amount: BigDecimal,
    pub currency: String,
}

/// An instant in UTC: whole seconds since the Unix epoch and the
/// nanoseconds past them.
#[derive(Clone, Copy, Debug, PartialEq, Eq, Structural)]
pub struct UtcTime {
    pub seconds: i64,
    pub nanos: u32,
}

impl UtcTime {
    /// Seconds since the Unix epoch.
    pub fn timestamp(&self) -> (r: i64)
        ensures
            r == self.seconds,
    {
        self.seconds
    }
}

/// Whether a document has the members of a `Currency`.
pub open spec fn currency_fits(j: Json) -> bool {
    &&& text_field(j, "id"@) is Some
    &&& text_field(j, "name"@) is Some
    &&& decimal_field(j, "min_size"@) is Some
}

/// `c` holds, member for member, what the document `j` says.
pub open spec fn currency_read_from(c: Currency, j: Json) -> bool {
    &&& text_field(j, "id"@) == Some(c.id@)
    &&& text_field(j, "name"@) == Some(c.name@)
    &&& decimal_field(j, "min_size"@) == Some(c.min_size)
}

/// Reads a `Currency` from its document.
pub fn currency_from_json(j: &Json) -> (r: Option<Currency>)
    ensures
        r is Some <==> currency_fits(*j),
        r is Some ==> currency_read_from(r->0, *j),
{
    let id = match get_text(j, "id") {
        Some(s) => s,
        None => return None,
    };
    let name = match get_text(j, "name") {
        Some(s) => s,
        None => return None,
    };
    let min_size = match get_decimal(j, "min_size") {
        Some(d) => d,
        None => return None,
    };
    Some(Currency { id, name, min_size })
}

/// Whether a document is an array of currencies.
pub open spec fn currencies_fit(j: Json) -> bool {
    match items_of(j) {
        Some(items) => forall|i: int| 0 <= i < items.len() ==> #[trigger] currency_fits(items[i]),
        None => false,
    }
}

/// `cs` holds one currency for each element of the array `j`, in its order.
pub open spec fn currencies_read_from(cs: Seq<Currency>, j: Json) -> bool {
    match items_of(j) {
        Some(items) => {
            &&& cs.len() == items.len()
            &&& forall|i: int| 0 <= i < cs.len() ==> currency_read_from(#[trigger] cs[i], items[i])
        },
        None => false,
    }
}

/// Reads the list of currencies from its document.
pub fn currencies_from_json(j: &Json) -> (r: Option<Vec<Currency>>)
    ensures
        r is Some <==> currencies_fit(*j),
        r is Some ==> currencies_read_from(r->0@, *j),
{
    let items = match j {
        Json::Array(items) => items,
        _ => return None,
    };
    let mut out: Vec<Currency> = Vec::new();
    let mut i: usize = 0;
    while i < items.len()
        invariant
            0 <= i <= items@.len(),
            *j == Json::Array(*items),
            out@.len() == i,
            forall|k: int| 0 <= k < i ==> currency_fits(#[trigger] items@[k]),
            forall|k: int| 0 <= k < i ==> currency_read_from(#[trigger] out@[k], items@[k]),
        decreases items@.len() - i,
    {
        match currency_from_json(&items[i]) {
            Some(c) => out.push(c),
            None => {
                assert(!currencies_fit(*j)) by {
                    let s = items_of(*j)->0;
                    assert(s == items@);
                    assert(!currency_fits(s[i as int]));
                }
                return None;
            },
        }
        i = i + 1;
    }
    Some(out)
}

/// Whether every member of an object has a decimal value.
pub open spec fn rates_fit(members: Seq<(String, Json)>) -> bool {
    forall|i: int| 0 <= i < members.len() ==> (#[trigger] decimal_value(members[i].1)) is Some
}

/// `rates` holds one entry for each member, in its order, with its name and
/// decimal value.
pub open spec fn rates_read_from(rates: Seq<(String, BigDecimal)>, members: Seq<(String, Json)>) -> bool {
    &&& rates.len() == members.len()
    &&& forall|i: int| 0 <= i < rates.len() ==> (#[trigger] rates[i]).0@ == members[i].0@ && Some(rates[i].1) == decimal_value(members[i].1)
}

/// The members of the object member `key`.
pub open spec fn object_field(j: Json, key: Seq<char>) -> Option<Seq<(String, Json)>> {
    match field(j, key) {
        Some(Json::Object(members)) => Some(members@),
        _ => None,
    }
}

/// Whether a document has the members of `ExchangeRates`.
pub open spec fn exchange_rates_fit(j: Json) -> bool {
    &&& text_field(j, "currency"@) is Some
    &&& object_field(j, "rates"@) matches Some(members) && rates_fit(members)
}

/// `x` holds what the document `j` says.
pub open spec fn exchange_rates_read_from(x: ExchangeRates, j: Json) -> bool {
    &&& text_field(j, "currency"@) == Some(x.currency@)
    &&& object_field(j, "rates"@) matches Some(members) && rates_read_from(x.rates@, members)
}

/// Reads `ExchangeRates` from its document.
pub fn exchange_rates_from_json(j: &Json) -> (r: Option<ExchangeRates>)
    ensures
        r is Some <==> exchange_rates_fit(*j),
        r is Some ==> exchange_rates_read_from(r->0, *j),
{
    let currency = match get_text(j, "currency") {
        Some(s) => s,
        None => return None,
    };
    let members = match get_field(j, "rates") {
        Some(Json::Object(members)) => members,
        _ => return None,
    };
    let mut rates: Vec<(String, BigDecimal)> = Vec::new();
    let mut i: usize = 0;
    while i < members.len()
        invariant
            0 <= i <= members@.len(),
            object_field(*j, "rates"@) == Some(members@),
            rates@.len() == i,
            forall|k: int| 0 <= k < i ==> (#[trigger] decimal_value(members@[k].1)) is Some,
            forall|k: int| 0 <= k < i ==> (#[trigger] rates@[k]).0@ == members@[k].0@ && Some(rates@[k].1) == decimal_value(members@[k].1),
        decreases members@.len() - i,
    {
        match read_decimal(&members[i].1) {
            Some(d) => rates.push((members[i].0.clone(), d)),
            None => {
                assert(decimal_value(members@[i as int].1) is None);
                return None;
            },
        }
        i = i + 1;
    }
    Some(ExchangeRates { currency, rates })
}

/// Whether a document has the members of a `CurrencyPrice`.
pub open spec fn currency_price_fits(j: Json) -> bool {
    &&& decimal_field(j, "amount"@) is Some
    &&& text_field(j, "currency"@) is Some
}

/// `p` holds what the document `j` says.
pub open spec fn currency_price_read_from(p: CurrencyPrice, j: Json) -> bool {
    &&& decimal_field(j, "amount"@) == Some(p.amount)
    &&& text_field(j, "currency"@) == Some(p.currency@)
}

/// Reads a `CurrencyPrice` from its document.
pub fn currency_price_from_json(j: &Json) -> (r: Option<CurrencyPrice>)
    ensures
        r is Some <==> currency_price_fits(*j),
        r is Some ==> currency_price_read_from(r->0, *j),
{
    let amount = match get_decimal(j, "amount") {
        Some(d) => d,
        None => return None,
    };
    let currency = match get_text(j, "currency") {
        Some(s) => s,
        None => return None,
    };
    Some(CurrencyPrice { amount, currency })
}

/// The instant that a text gives, as a `UtcTime`.
pub open spec fn instant_of(s: Seq<char>) -> Option<UtcTime> {
    match rfc3339_instant(s) {
        Some((seconds, nanos)) => Some(UtcTime { seconds, nanos }),
        None => None,
    }
}

/// Reads an instant from its RFC 3339 text.
pub fn parse_time(s: &str) -> (r: Option<UtcTime>)
    ensures
        r == instant_of(s@),
{
    match parse_instant(s) {
        Some((seconds, nanos)) => Some(UtcTime { seconds, nanos }),
        None => None,
    }
}

/// The server time that a document gives in its member `iso`.
pub open spec fn server_time_of(j: Json) -> Option<UtcTime> {
    match text_field(j, "iso"@) {
        Some(t) => instant_of(t),
        None => None,
    }
}

/// Reads the server time from its document.
pub fn server_time_from_json(j: &Json) -> (r: Option<UtcTime>)
    ensures
        r == server_time_of(*j),
{
    match get_text(j, "iso") {
        Some(s) => parse_time(s.as_str()),
        None => None,
    }
}

/// The order in which a listing runs.
#[derive(Clone, Copy, Debug, PartialEq, Eq, Structural)]
pub enum Order {
    Ascending,
    Descending,
}

/// The order that a listing's wire text names: `asc` or `desc`.
pub open spec fn order_named(s: Seq<char>) -> Option<Order> {
    if s == "asc"@ {
        Some(Order::Ascending)
    } else if s == "desc"@ {
        Some(Order::Descending)
    } else {
        None
    }
}

impl Order {
    /// Reads an order from its wire text.
    pub fn from_wire(s: &str) -> (r: Option<Order>)
        ensures
            r == order_named(s@),
    {
        let t = String::from_str(s);
        if t == String::from_str("asc") {
            Some(Order::Ascending)
        } else if t == String::from_str("desc") {
            Some(Order::Descending)
        } else {
            None
        }
    }
}

/// Where a page of a listing stands: its cursors, size and order, and the
/// addresses of the pages around it. The client reads it and does not
/// follow it.
#[derive(Debug)]
pub struct Pagination {
    pub ending_before: Option<UtcTime>,
    pub starting_after: Option<UtcTime>,
    pub previous_ending_before: Option<UtcTime>,
    pub next_starting_after: Option<UtcTime>,
    pub limit: usize,
    pub order: Order,
    pub previous_uri: String,
    pub next_uri: String,
}

/// A whole envelope: its `data` member as parsed, and its pagination.
#[derive(Debug)]
pub struct Response {
    pub pagination: Pagination,
    pub data: serde_json::Value,
}

/// The value of a string of decimal digits.
pub open spec fn digits_value(s: Seq<char>) -> nat
    decreases s.len(),
{
    if s.len() == 0 {
        0
    } else {
        digits_value(s.drop_last()) * 10 + (s.last() as nat - '0' as nat) as nat
    }
}

/// A non-empty string of decimal digits.
pub open spec fn is_digits(s: Seq<char>) -> bool {
    s.len() > 0 && forall|i: int| 0 <= i < s.len() ==> '0' <= #[trigger] s[i] && s[i] <= '9'
}

/// A number that is a count: written in digits alone, and small enough for
/// a `usize`.
pub open spec fn count_value(j: Json) -> Option<usize> {
    match j {
        Json::Number(n) => if is_digits(n@) && digits_value(n@) <= usize::MAX {
            Some(digits_value(n@) as usize)
        } else {
            None
        },
        _ => None,
    }
}

/// A longer string of digits is worth at least as much as its prefix.
proof fn lemma_digits_grow(s: Seq<char>, i: int)
    requires
        0 <= i <= s.len(),
        forall|k: int| 0 <= k < s.len() ==> '0' <= #[trigger] s[k] && s[k] <= '9',
    ensures
        digits_value(s.subrange(0, i)) <= digits_value(s),
    decreases s.len() - i,
{
    if i < s.len() {
        lemma_digits_grow(s, i + 1);
        assert(s.subrange(0, i + 1).drop_last() =~= s.subrange(0, i));
    } else {
        assert(s.subrange(0, i) =~= s);
    }
}

/// Reads a count from a JSON number.
pub fn read_count(j: &Json) -> (r: Option<usize>)
    ensures
        r == count_value(*j),
{
    let n = match j {
        Json::Number(n) => n,
        _ => return None,
    };
    let len = n.as_str().unicode_len();
    if len == 0 {
        return None;
    }
    let mut acc: usize = 0;
    let mut i: usize = 0;
    while i < len
        invariant
            len == n@.len(),
            0 <= i <= len,
            *j == Json::Number(*n),
            acc == digits_value(n@.subrange(0, i as int)),
            forall|k: int| 0 <= k < i ==> '0' <= #[trigger] n@[k] && n@[k] <= '9',
        decreases len - i,
    {
        let c = n.as_str().get_char(i);
        assert(n@.subrange(0, i + 1).drop_last() =~= n@.subrange(0, i as int));
        if c < '0' || c > '9' {
            assert(!is_digits(n@));
            return None;
        }
        let d = (c as u32 - '0' as u32) as usize;
        if acc > (usize::MAX - d) / 10 {
            proof {
                assert(forall|k: int| 0 <= k < i + 1 ==> '0' <= #[trigger] n@[k] && n@[k] <= '9');
                if is_digits(n@) {
                    lemma_digits_grow(n@, i + 1);
                }
            }
            return None;
        }
        acc = acc * 10 + d;
        i = i + 1;
    }
    assert(n@.subrange(0, len as int) =~= n@);
    Some(acc)
}

/// An optional instant: absent or `null` is none, a timestamp is read, and
/// anything else does not fit (the outer `None`).
pub open spec fn optional_instant(j: Json, key: Seq<char>) -> Option<Option<UtcTime>> {
    match field(j, key) {
        None => Some(None),
        Some(Json::Null) => Some(None),
        Some(Json::Str(s)) => match instant_of(s@) {
            Some(t) => Some(Some(t)),
            None => None,
        },
        _ => None,
    }
}

/// Reads an optional instant from the member `key`.
fn get_optional_instant(j: &Json, key: &str) -> (r: Option<Option<UtcTime>>)
    ensures
        r == optional_instant(*j, key@),
{
    match get_field(j, key) {
        None => Some(None),
        Some(Json::Null) => Some(None),
        Some(Json::Str(s)) => match parse_time(s.as_str()) {
            Some(t) => Some(Some(t)),
            None => None,
        },
        _ => None,
    }
}

/// The order that the member `key` names.
pub open spec fn order_field(j: Json, key: Seq<char>) -> Option<Order> {
    match text_field(j, key) {
        Some(t) => order_named(t),
        None => None,
    }
}

/// The count in the member `key`.
pub open spec fn count_field(j: Json, key: Seq<char>) -> Option<usize> {
    match field(j, key) {
        Some(v) => count_value(v),
        None => None,
    }
}

/// Whether a document has the members of `Pagination`.
pub open spec fn pagination_fits(j: Json) -> bool {
    &&& optional_instant(j, "ending_before"@) is Some
    &&& optional_instant(j, "starting_after"@) is Some
    &&& optional_instant(j, "previous_ending_before"@) is Some
    &&& optional_instant(j, "next_starting_after"@) is Some
    &&& count_field(j, "limit"@) is Some
    &&& order_field(j, "order"@) is Some
    &&& text_field(j, "previous_uri"@) is Some
    &&& text_field(j, "next_uri"@) is Some
}

/// `p` holds what the document `j` says.
pub open spec fn pagination_read_from(p: Pagination, j: Json) -> bool {
    &&& optional_instant(j, "ending_before"@) == Some(p.ending_before)
    &&& optional_instant(j, "starting_after"@) == Some(p.starting_after)
    &&& optional_instant(j, "previous_ending_before"@) == Some(p.previous_ending_before)
    &&& optional_instant(j, "next_starting_after"@) == Some(p.next_starting_after)
    &&& count_field(j, "limit"@) == Some(p.limit)
    &&& order_field(j, "order"@) == Some(p.order)
    &&& text_field(j, "previous_uri"@) == Some(p.previous_uri@)
    &&& text_field(j, "next_uri"@) == Some(p.next_uri@)
}

/// Reads `Pagination` from its document.
pub fn pagination_from_json(j: &Json) -> (r: Option<Pagination>)
    ensures
        r is Some <==> pagination_fits(*j),
        r is Some ==> pagination_read_from(r->0, *j),
{
    let ending_before = match get_optional_instant(j, "ending_before") {
        Some(t) => t,
        None => return None,
    };
    let starting_after = match get_optional_instant(j, "starting_after") {
        Some(t) => t,
        None => return None,
    };
    let previous_ending_before = match get_optional_instant(j, "previous_ending_before") {
        Some(t) => t,
        None => return None,
    };
    let next_starting_after = match get_optional_instant(j, "next_starting_after") {
        Some(t) => t,
        None => return None,
    };
    let limit = match get_field(j, "limit") {
        Some(v) => match read_count(v) {
            Some(n) => n,
            None => return None,
        },
        None => return None,
    };
    let order = match get_text(j, "order") {
        Some(t) => match Order::from_wire(t.as_str()) {
            Some(o) => o,
            None => return None,
        },
        None => return None,
    };
    let previous_uri = match get_text(j, "previous_uri") {
        Some(s) => s,
        None => return None,
    };
    let next_uri = match get_text(j, "next_uri") {
        Some(s) => s,
        None => return None,
    };
    Some(Pagination {
        ending_before,
        starting_after,
        previous_ending_before,
        next_starting_after,
        limit,
        order,
        previous_uri,
        next_uri,
    })
}

} // verus!
