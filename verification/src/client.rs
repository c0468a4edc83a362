//! HTTP exchange modelling and response classification for JWKS retrieval.
//!
//! Requests and responses are carried as plain parts: method, URI, status,
//! and a list of lowercase header names with their values. The transport
//! itself lives outside the crate; this module decides what a completed
//! exchange means.

use vstd::prelude::*;

use crate::error::Error;
use crate::error::JwksResult;
use crate::jwks::JwksDoc;
use crate::jwks::jwks_keys_of;
use crate::jwks::utf8_str_of;
use crate::jwks::utf8_to_string;
use crate::strutil::str_eq;

verus! {

/// The first value paired with `name`, if any.
pub open spec fn header_of(hs: Seq<(Seq<char>, Seq<char>)>, name: Seq<char>) -> Option<Seq<char>>
    decreases hs.len(),
{
    if hs.len() == 0 {
        None
    } else if hs[0].0 == name {
        Some(hs[0].1)
    } else {
        header_of(hs.drop_first(), name)
    }
}

/// Look up the first header with the given (lowercase) name.
pub fn header_lookup(headers: &Vec<(String, String)>, name: &str) -> (r: Option<String>)
    ensures
        r.deep_view() == header_of(headers.deep_view(), name@),
{
    let ghost hs = headers.deep_view();
    let mut i: usize = 0;
    proof {
        assert(hs.skip(0) =~= hs);
    }
    while i < headers.len()
        invariant
            0 <= i <= headers.len(),
            hs == headers.deep_view(),
            hs.len() == headers.len(),
            forall|k: int| 0 <= k < hs.len() ==> hs[k] == (headers@[k].0@, headers@[k].1@),
            header_of(hs, name@) == header_of(hs.skip(i as int), name@),
        decreases headers.len() - i,
    {
        assert(hs.skip(i as int)[0] == hs[i as int]);
        if str_eq(headers[i].0.as_str(), name) {
            let value = headers[i].1.clone();
            assert(header_of(hs.skip(i as int), name@) == Some(hs[i as int].1));
            return Some(value);
        }
        assert(hs.skip(i as int).drop_first() =~= hs.skip(i + 1));
        i += 1;
    }
    assert(hs.skip(i as int) =~= Seq::<(Seq<char>, Seq<char>)>::empty());
    None
}

/// Copy a header list.
pub fn clone_headers(headers: &Vec<(String, String)>) -> (r: Vec<(String, String)>)
    ensures
        r@ == headers@,
{
    let mut out: Vec<(String, String)> = Vec::new();
    let mut i: usize = 0;
    while i < headers.len()
        invariant
            0 <= i <= headers.len(),
            out@.len() == i,
            forall|k: int| 0 <= k < i ==> out@[k] == headers@[k],
        decreases headers.len() - i,
    {
        let name = headers[i].0.clone();
        let value = headers[i].1.clone();
        out.push((name, value));
        i += 1;
    }
    assert(out@ =~= headers@);
    out
}

/// Request metadata issued to the upstream JWKS endpoint.
#[derive(Debug)]
pub struct RequestParts {
    /// HTTP method.
    pub method: String,
    /// Absolute request URI.
    pub uri: String,
    /// Header names (lowercase) and values.
    pub headers: Vec<(String, String)>,
}

impl Clone for RequestParts {
    /// Copy preserving every field's contents.
    fn clone(&self) -> (r: Self)
        ensures
            r.method == self.method,
            r.uri == self.uri,
            r.headers@ == self.headers@,
    {
        RequestParts {
            method: self.method.clone(),
            uri: self.uri.clone(),
            headers: clone_headers(&self.headers),
        }
    }
}

/// Response metadata returned from the upstream.
#[derive(Debug)]
pub struct ResponseParts {
    /// HTTP status code.
    pub status: u16,
    /// Header names (lowercase) and values.
    pub headers: Vec<(String, String)>,
}

impl Clone for ResponseParts {
    /// Copy preserving every field's contents.
    fn clone(&self) -> (r: Self)
        ensures
            r.status == self.status,
            r.headers@ == self.headers@,
    {
        ResponseParts { status: self.status, headers: clone_headers(&self.headers) }
    }
}

/// HTTP exchange metadata captured for cache semantics evaluation.
#[derive(Debug)]
pub struct HttpExchange {
    /// HTTP request issued to the upstream JWKS endpoint.
    pub request: RequestParts,
    /// Response metadata returned from the upstream.
    pub response: ResponseParts,
    /// Round-trip duration of the exchange, milliseconds.
    pub elapsed: u64,
}

/// Contents equality between two requests: same method, URI and headers.
pub open spec fn request_like(a: RequestParts, b: RequestParts) -> bool {
    a.method == b.method && a.uri == b.uri && a.headers@ == b.headers@
}

/// Contents equality between two responses: same status and headers.
pub open spec fn response_like(a: ResponseParts, b: ResponseParts) -> bool {
    a.status == b.status && a.headers@ == b.headers@
}

impl Clone for HttpExchange {
    /// Copy preserving every field's contents.
    fn clone(&self) -> (r: Self)
        ensures
            request_like(r.request, self.request),
            response_like(r.response, self.response),
            r.elapsed == self.elapsed,
    {
        HttpExchange {
            request: self.request.clone(),
            response: self.response.clone(),
            elapsed: self.elapsed,
        }
    }
}

impl HttpExchange {
    /// Construct a new header-only exchange instance.
    pub fn new(request: RequestParts, response: ResponseParts, elapsed: u64) -> (r: Self)
        ensures
            r.request == request,
            r.response == response,
            r.elapsed == elapsed,
    {
        HttpExchange { request, response, elapsed }
    }

    /// Response headers helper.
    pub fn headers(&self) -> (r: &Vec<(String, String)>)
        ensures
            r == &self.response.headers,
    {
        &self.response.headers
    }

    /// Response status helper.
    pub fn status(&self) -> (r: u16)
        ensures
            r == self.response.status,
    {
        self.response.status
    }
}

/// Extract the cache-control header as a string for diagnostics.
pub fn cache_control_header(headers: &Vec<(String, String)>) -> (r: Option<String>)
    ensures
        r.deep_view() == header_of(headers.deep_view(), "cache-control"@),
{
    header_lookup(headers, "cache-control")
}

/// The wall-clock milliseconds denoted by an HTTP date string, when valid.
pub uninterp spec fn http_date_of(s: Seq<char>) -> Option<i64>;

/// Relies on `httpdate::parse_http_date`: parsing is a function of the
/// input characters alone; the result is converted to milliseconds since
/// the Unix epoch.
#[verifier::external_body]
pub(crate) fn parse_http_date_ms(s: &str) -> (r: Option<i64>)
    ensures
        r == http_date_of(s@),
{
    let t = httpdate::parse_http_date(s).ok()?;
    match t.duration_since(std::time::UNIX_EPOCH) {
        Ok(d) => i64::try_from(d.as_millis()).ok(),
        Err(e) => i64::try_from(e.duration().as_millis()).ok().map(|v| -v),
    }
}

/// What `httpdate::fmt_http_date` renders for the given epoch
/// milliseconds: a deterministic function of the timestamp.
pub uninterp spec fn http_date_format_of(ms: i64) -> Seq<char>;

/// Relies on `httpdate::fmt_http_date`: renders an HTTP date for the
/// synthetic response used when restoring a persisted snapshot. It panics
/// outside the epoch-to-year-9999 range, which the precondition excludes.
#[verifier::external_body]
pub(crate) fn format_http_date_ms(ms: i64) -> (r: String)
    requires
        0 <= ms <= crate::clock::MAX_WALL_MS,
    ensures
        r@ == http_date_format_of(ms),
{
    httpdate::fmt_http_date(std::time::UNIX_EPOCH + std::time::Duration::from_millis(ms as u64))
}

/// Metadata returned from a JWKS HTTP fetch (200 or 304).
#[derive(Debug)]
pub struct HttpFetch {
    /// Captured HTTP exchange for diagnostics and cache evaluation.
    pub exchange: HttpExchange,
    /// Parsed JWKS payload when the origin returned content.
    pub jwks: Option<JwksDoc>,
    /// Entity tag validator advertised by the origin.
    pub etag: Option<String>,
    /// Last-Modified timestamp advertised by the origin, epoch milliseconds.
    pub last_modified: Option<i64>,
}

/// The Last-Modified timestamp a response advertises, when present and valid.
pub open spec fn last_modified_of(hs: Seq<(Seq<char>, Seq<char>)>) -> Option<i64> {
    match header_of(hs, "last-modified"@) {
        Some(v) => http_date_of(v),
        None => None,
    }
}

/// What classification owes for a success (200 or 304) outcome.
pub open spec fn fetch_meta_ok(
    f: HttpFetch,
    request: RequestParts,
    status: u16,
    resp_headers: Seq<(Seq<char>, Seq<char>)>,
    elapsed: u64,
) -> bool {
    &&& f.exchange.request == request
    &&& f.exchange.response.status == status
    &&& f.exchange.response.headers.deep_view() == resp_headers
    &&& f.exchange.elapsed == elapsed
    &&& f.etag.deep_view() == header_of(resp_headers, "etag"@)
    &&& f.last_modified == last_modified_of(resp_headers)
}

/// Classify a completed upstream response: a 304 preserves the cached
/// document, a success must carry a JWKS body within the size guard, and
/// anything else is surfaced as an error.
pub fn classify_response(
    url: &str,
    request: RequestParts,
    status: u16,
    resp_headers: Vec<(String, String)>,
    body: Option<Vec<u8>>,
    elapsed: u64,
    max_response_bytes: u64,
) -> (r: JwksResult<HttpFetch>)
    ensures
        status == 304 ==> (r matches Ok(f) && f.jwks is None && fetch_meta_ok(
            f,
            request,
            status,
            resp_headers.deep_view(),
            elapsed,
        )),
        status != 304 && !(200 <= status < 300) ==> (r matches Err(e) && (e matches
            Error::HttpStatus { status: s, url: u, body: b } && s == status && u@ == url@ && (match body {
            Some(bytes) => b.deep_view() == utf8_str_of(bytes@),
            None => b is None,
        }))),
        200 <= status < 300 ==> match body {
            Some(bytes) => {
                if bytes@.len() > max_response_bytes {
                    r matches Err(e) && e is Validation
                } else {
                    match jwks_keys_of(bytes@) {
                        Some(_) => r matches Ok(f) && (f.jwks matches Some(doc) && doc@ == bytes@
                            && doc.wf()) && fetch_meta_ok(
                            f,
                            request,
                            status,
                            resp_headers.deep_view(),
                            elapsed,
                        ),
                        None => r matches Err(e) && e is Serde,
                    }
                }
            },
            None => r matches Err(e) && e is Http,
        },
{
    let etag = header_lookup(&resp_headers, "etag");
    let last_modified = match header_lookup(&resp_headers, "last-modified") {
        Some(v) => parse_http_date_ms(v.as_str()),
        None => None,
    };
    if status == 304 {
        let exchange = HttpExchange::new(request, ResponseParts { status, headers: resp_headers }, elapsed);
        return Ok(HttpFetch { exchange, jwks: None, etag, last_modified });
    }
    if !(200 <= status && status < 300) {
        let body_text = match body {
            Some(bytes) => utf8_to_string(&bytes),
            None => None,
        };
        return Err(Error::HttpStatus { status, url: url.to_owned(), body: body_text });
    }
    let bytes = match body {
        Some(bytes) => bytes,
        None => {
            return Err(Error::Http("Response body was not available.".to_owned()));
        },
    };
    if bytes.len() as u64 > max_response_bytes {
        return Err(Error::Validation {
            field: "max_response_bytes".to_owned(),
            reason: "Response size exceeds the configured guard.".to_owned(),
        });
    }
    let doc = JwksDoc::parse(bytes)?;
    let exchange = HttpExchange::new(request, ResponseParts { status, headers: resp_headers }, elapsed);
    Ok(HttpFetch { exchange, jwks: Some(doc), etag, last_modified })
}

} // verus!
