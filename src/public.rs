//! The client handle and the requests it builds.
use vstd::prelude::*;
use hyper::client::HttpConnector;
use hyper_tls::HttpsConnector;
use crate::error::CBError;

verus! {

/// The address of the API's current version.
pub const MAIN_URL: &'static str = "https://api.coinbase.com/v2";

/// The `User-Agent` that every request carries: the client's name and version.
pub const USER_AGENT: &'static str = "coinbase_public/0.1.0";

/// Whether http accepts a text as a URI.
pub uninterp spec fn is_uri(s: Seq<char>) -> bool;

/// Relies on `hyper::Uri`'s `FromStr`, from the http crate. Every byte before
/// a `#` must be a URI character there, so a text with a space and no `#`
/// is refused.
#[verifier::external_body]
fn parse_uri(s: &str) -> (r: Result<hyper::Uri, hyper::http::uri::InvalidUri>)
    ensures
        r is Ok <==> is_uri(s@),
        s@.contains(' ') && !s@.contains('#') ==> r is Err,
{
    s.parse::<hyper::Uri>()
}

/// A header name made of ASCII letters, digits and dashes, and no longer
/// than http takes one.
pub open spec fn is_plain_header_name(s: Seq<char>) -> bool {
    &&& 0 < s.len() <= 65535
    &&& forall|i: int|
        0 <= i < s.len() ==> {
            let c = #[trigger] s[i];
            ('a' <= c && c <= 'z') || ('A' <= c && c <= 'Z') || ('0' <= c && c <= '9') || c == '-'
        }
}

/// A header value of visible ASCII characters and spaces.
pub open spec fn is_visible_header_value(s: Seq<char>) -> bool {
    forall|i: int| 0 <= i < s.len() ==> ' ' <= #[trigger] s[i] && s[i] <= '~'
}

/// Relies on `Request::get`, `request::Builder::header` and
/// `request::Builder::body` with `Body::empty`: a GET request for `uri` with
/// the one header `name: value` and an empty body. The builder fails only
/// on a header name or value that http refuses, and it takes those written
/// as above.
#[verifier::external_body]
fn get_request(uri: hyper::Uri, name: &str, value: &str) -> (r: Result<hyper::Request<hyper::Body>, hyper::http::Error>)
    ensures
        is_plain_header_name(name@) && is_visible_header_value(value@) ==> r is Ok,
{
    hyper::Request::get(uri).header(name, value).body(hyper::Body::empty())
}

/// Relies on native-tls's `TlsConnector::new`, which fails where the
/// system's TLS cannot be set up, and on `HttpConnector::new`,
/// `HttpsConnector::from` and `Client::builder().build`: a client for HTTP
/// and HTTPS, or nothing where TLS failed.
#[verifier::external_body]
fn https_client() -> Option<hyper::Client<HttpsConnector<HttpConnector>, hyper::Body>> {
    let tls = hyper_tls::native_tls::TlsConnector::new().ok()?;
    let mut http = HttpConnector::new();
    http.enforce_http(false);
    let https = HttpsConnector::from((http, tls.into()));
    Some(hyper::Client::builder().build::<_, hyper::Body>(https))
}

/// What a request holds: its method, target, headers and body.
#[derive(Debug)]
pub struct RequestDescription {
    pub method: String,
    pub target: String,
    pub headers: Vec<(String, String)>,
    pub body: Vec<u8>,
}

/// `d` is a GET of `target` with the `User-Agent` header alone and an
/// empty body.
pub open spec fn is_get_for(d: RequestDescription, target: Seq<char>) -> bool {
    &&& d.method@ == "GET"@
    &&& d.target@ == target
    &&& d.headers@.len() == 1
    &&& d.headers@[0].0@ == "User-Agent"@
    &&& d.headers@[0].1@ == USER_AGENT@
    &&& d.body@.len() == 0
}

/// A request as described, and as built for the transport.
#[derive(Debug)]
pub struct PreparedRequest {
    pub description: RequestDescription,
    pub http: hyper::Request<hyper::Body>,
}

/// A client of the API's public endpoints. After it is made it is only
/// read, so any number of calls may share it.
pub struct Public {
    pub(crate) uri: String,
    client: hyper::Client<HttpsConnector<HttpConnector>, hyper::Body>,
}

impl Public {
    /// The base URI that request paths are appended to.
    pub closed spec fn base(&self) -> Seq<char> {
        self.uri@
    }

    /// The base URI.
    pub fn uri(&self) -> (r: &str)
        ensures
            r@ == self.base(),
    {
        self.uri.as_str()
    }

    /// A client for the API at `uri`; nothing where TLS cannot be set up.
    pub fn new(uri: &str) -> (r: Option<Self>)
        ensures
            r is Some ==> r->0.base() == uri@,
    {
        match https_client() {
            Some(client) => Some(Public { uri: String::from_str(uri), client }),
            None => None,
        }
    }

    /// The transport that sends this client's requests.
    pub fn client(&self) -> &hyper::Client<HttpsConnector<HttpConnector>, hyper::Body> {
        &self.client
    }

    /// The target of a request for `path`: the base URI followed by the path.
    pub fn target(&self, path: &str) -> (r: String)
        ensures
            r@ == self.base() + path@,
    {
        let mut t = self.uri.clone();
        t.append(path);
        t
    }

    /// The request for `path`: a GET of the base URI followed by the path,
    /// with the `User-Agent` header alone and an empty body.
    pub fn describe(&self, path: &str) -> (r: RequestDescription)
        ensures
            is_get_for(r, self.base() + path@),
    {
        let mut headers: Vec<(String, String)> = Vec::new();
        headers.push((String::from_str("User-Agent"), String::from_str(USER_AGENT)));
        RequestDescription {
            method: String::from_str("GET"),
            target: self.target(path),
            headers,
            body: Vec::new(),
        }
    }

    /// The request for `path`, described and built, or `InvalidRequest`
    /// where base URI and path do not make a URI.
    pub fn request(&self, path: &str) -> (r: Result<PreparedRequest, CBError>)
        ensures
            r is Ok <==> is_uri(self.base() + path@),
            (self.base() + path@).contains(' ') && !(self.base() + path@).contains('#') ==> r is Err,
            r is Ok ==> is_get_for(r->Ok_0.description, self.base() + path@),
            r is Err ==> (r->Err_0 matches CBError::InvalidRequest { target } && target@ == self.base() + path@),
    {
        let description = self.describe(path);
        match parse_uri(description.target.as_str()) {
            Ok(uri) => {
                proof {
                    reveal_strlit("User-Agent");
                    reveal_strlit("coinbase_public/0.1.0");
                }
                let name = description.headers[0].0.as_str();
                let value = description.headers[0].1.as_str();
                match get_request(uri, name, value) {
                    Ok(http) => Ok(PreparedRequest { description, http }),
                    Err(_) => Err(CBError::InvalidRequest { target: description.target }),
                }
            },
            Err(_) => Err(CBError::InvalidRequest { target: description.target }),
        }
    }
}

/// The public endpoints, with what each one's path needs.
#[derive(Debug)]
pub enum Endpoint {
    Currencies,
    ExchangeRates,
    /// Exchange rates for one unit of the given base currency.
    ExchangeRatesWithBase(String),
    /// The buy price of the given currency pair, such as `BTC-USD`.
    BuyPrice(String),
    SellPrice(String),
    SpotPrice(String),
    CurrentTime,
}

/// The path, relative to the base URI, of an endpoint.
pub open spec fn endpoint_path(e: Endpoint) -> Seq<char> {
    match e {
        Endpoint::Currencies => "/currencies"@,
        Endpoint::ExchangeRates => "/exchange-rates"@,
        Endpoint::ExchangeRatesWithBase(base) => "/exchange-rates?currency="@ + base@,
        Endpoint::BuyPrice(pair) => "/currency_pair/"@ + pair@ + "/buy"@,
        Endpoint::SellPrice(pair) => "/currency_pair/"@ + pair@ + "/sell"@,
        Endpoint::SpotPrice(pair) => "/currency_pair/"@ + pair@ + "/spot"@,
        Endpoint::CurrentTime => "/current_time"@,
    }
}

/// `prefix`, then `middle`, then `suffix`.
fn joined(prefix: &str, middle: &String, suffix: &str) -> (r: String)
    ensures
        r@ == prefix@ + middle@ + suffix@,
{
    let mut s = String::from_str(prefix);
    s.append(middle.as_str());
    s.append(suffix);
    s
}

impl Endpoint {
    /// The endpoint's path.
    pub fn path(&self) -> (r: String)
        ensures
            r@ == endpoint_path(*self),
    {
        match self {
            Endpoint::Currencies => String::from_str("/currencies"),
            Endpoint::ExchangeRates => String::from_str("/exchange-rates"),
            Endpoint::ExchangeRatesWithBase(base) => {
                let r = joined("/exchange-rates?currency=", base, "");
                proof {
                    reveal_strlit("");
                    assert(r@ =~= "/exchange-rates?currency="@ + base@);
                }
                r
            },
            Endpoint::BuyPrice(pair) => joined("/currency_pair/", pair, "/buy"),
            Endpoint::SellPrice(pair) => joined("/currency_pair/", pair, "/sell"),
            Endpoint::SpotPrice(pair) => joined("/currency_pair/", pair, "/spot"),
            Endpoint::CurrentTime => String::from_str("/current_time"),
        }
    }
}

} // verus!
