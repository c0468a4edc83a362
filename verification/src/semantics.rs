//! HTTP cache semantics integration: freshness, revalidation, TTL clamping.
//!
//! The `http_cache_semantics::CachePolicy` value is carried opaquely; its
//! decisions enter the verified logic as plain values through trusted
//! wrappers, and everything derived from them (clamping, bounds) is proved.

use vstd::prelude::*;

use crate::client::RequestParts;
use crate::client::ResponseParts;
use crate::client::HttpExchange;
use crate::clock::MAX_WALL_MS;
use crate::error::Error;
use crate::error::JwksResult;
use crate::registry::IdentityProviderRegistration;
use crate::strutil::dec_of;
use crate::strutil::dec_str;
use crate::strutil::lemma_u64_dec_round_trip;
use crate::strutil::lower_seq;
use crate::strutil::parse_u64_dec;
use crate::strutil::str_eq;
use crate::strutil::to_lower;
use crate::strutil::u64_dec_of;

verus! {

#[verifier::external_type_specification]
#[verifier::external_body]
/// The cache-policy value of the `http_cache_semantics` crate, held opaquely.
pub struct ExCachePolicy(http_cache_semantics::CachePolicy);

#[verifier::external_type_specification]
#[verifier::external_body]
#[verifier::reject_recursive_types(T)]
/// The request value of the `http` crate, held opaquely.
pub struct ExHttpRequest<T>(http::Request<T>);

#[verifier::external_type_specification]
#[verifier::external_body]
#[verifier::reject_recursive_types(T)]
/// The response value of the `http` crate, held opaquely.
pub struct ExHttpResponse<T>(http::Response<T>);

/// Whether a request rebuilds from its parts: `http::request::Builder`
/// accepts the method, URI and every header. A deterministic function of
/// the parts alone.
pub uninterp spec fn request_buildable(
    method: Seq<char>,
    uri: Seq<char>,
    headers: Seq<(Seq<char>, Seq<char>)>,
) -> bool;

/// Whether a response rebuilds from its parts: `http::response::Builder`
/// accepts the status and every header. A deterministic function of the
/// parts alone.
pub uninterp spec fn response_buildable(status: u16, headers: Seq<(Seq<char>, Seq<char>)>) -> bool;

/// Relies on `http::request::Builder`: rebuilds a request from its parts;
/// nothing when the method, URI or a header is not well-formed.
#[verifier::external_body]
pub(crate) fn build_http_request(parts: &RequestParts) -> (r: Option<http::Request<()>>)
    ensures
        r is Some <==> request_buildable(
            parts.method@,
            parts.uri@,
            parts.headers.deep_view(),
        ),
{
    let mut b = http::Request::builder().method(parts.method.as_str()).uri(parts.uri.as_str());
    for (k, v) in parts.headers.iter() {
        b = b.header(k.as_str(), v.as_str());
    }
    b.body(()).ok()
}

/// Relies on `http::response::Builder`: rebuilds a response from its parts;
/// nothing when the status or a header is not well-formed. The precondition
/// bounds any `Age` header so that every response value verified code hands
/// to the cache policy keeps its age arithmetic inside `u64` seconds (see
/// `cap_age_headers`); the builder itself accepts any value.
#[verifier::external_body]
pub(crate) fn build_http_response(parts: &ResponseParts) -> (r: Option<http::Response<()>>)
    requires
        age_headers_bounded(parts.headers.deep_view()),
    ensures
        r is Some <==> response_buildable(parts.status, parts.headers.deep_view()),
{
    let mut b = http::Response::builder().status(parts.status);
    for (k, v) in parts.headers.iter() {
        b = b.header(k.as_str(), v.as_str());
    }
    b.body(()).ok()
}

/// Relies on `http_cache_semantics::CachePolicy::new`: derives a policy
/// from a completed request/response pair.
#[verifier::external_body]
pub(crate) fn policy_new(
    req: &http::Request<()>,
    resp: &http::Response<()>,
) -> http_cache_semantics::CachePolicy {
    http_cache_semantics::CachePolicy::new(req, resp)
}

/// Relies on `http_cache_semantics::CachePolicy::is_storable`: whether the
/// response may be stored at all.
#[verifier::external_body]
fn policy_is_storable(p: &http_cache_semantics::CachePolicy) -> bool {
    p.is_storable()
}

/// Relies on `http_cache_semantics::CachePolicy::time_to_live`: how long
/// the response stays fresh from the given wall-clock time, in
/// milliseconds. Its age arithmetic stays in range because every response
/// a policy is built from bounds the `Age` header (`build_http_response`'s
/// precondition) and the precondition here bounds the clock.
#[verifier::external_body]
fn policy_ttl_ms(p: &http_cache_semantics::CachePolicy, now_wall_ms: i64) -> u64
    requires
        0 <= now_wall_ms <= MAX_WALL_MS,
{
    let base = std::time::UNIX_EPOCH;
    let now = if now_wall_ms >= 0 { base + std::time::Duration::from_millis(now_wall_ms as u64) } else { base - std::time::Duration::from_millis(now_wall_ms.unsigned_abs()) };
    u64::try_from(p.time_to_live(now).as_millis()).unwrap_or(u64::MAX)
}

/// Relies on `<http_cache_semantics::CachePolicy as Clone>::clone`.
#[verifier::external_body]
pub(crate) fn policy_clone(p: &http_cache_semantics::CachePolicy) -> http_cache_semantics::CachePolicy {
    p.clone()
}

/// The policy's judgement of a new request against the cached response.
#[derive(Debug)]
pub enum BeforeDecision {
    /// The cached response is still fresh; no request is needed.
    Fresh,
    /// The cached response is stale; send the proposed request.
    Stale {
        /// The request the policy proposes, validators attached.
        request: RequestParts,
        /// Whether the request matches the cached request semantically.
        validators_match: bool,
    },
}

/// Relies on `http_cache_semantics::CachePolicy::before_request`: judges a
/// new request against the cached response at the given wall-clock time.
/// Header values that are not UTF-8 are dropped from the proposed request.
/// The clock bound keeps its date formatting within years 1970 to 9999,
/// and bounded `Age` headers (see `build_http_response`) keep its age
/// arithmetic in range.
#[verifier::external_body]
pub(crate) fn policy_before_request(
    p: &http_cache_semantics::CachePolicy,
    req: &http::Request<()>,
    now_wall_ms: i64,
) -> BeforeDecision
    requires
        0 <= now_wall_ms <= MAX_WALL_MS,
{
    let base = std::time::UNIX_EPOCH;
    let now = if now_wall_ms >= 0 { base + std::time::Duration::from_millis(now_wall_ms as u64) } else { base - std::time::Duration::from_millis(now_wall_ms.unsigned_abs()) };
    match p.before_request(req, now) {
        http_cache_semantics::BeforeRequest::Fresh(_) => BeforeDecision::Fresh,
        http_cache_semantics::BeforeRequest::Stale { request, matches } => {
            let headers = request.headers.iter().filter_map(|(k, v)| v.to_str().ok().map(|s| (k.as_str().to_owned(), s.to_owned()))).collect();
            let parts = RequestParts { method: request.method.as_str().to_owned(), uri: request.uri.to_string(), headers };
            BeforeDecision::Stale { request: parts, validators_match: matches }
        },
    }
}

/// Relies on `http_cache_semantics::CachePolicy::after_response`: combines
/// the cached policy with a revalidation response, yielding the new policy,
/// the synthesized response parts, and whether the body was modified.
/// Header values that are not UTF-8 are dropped from the synthesized parts.
/// The clock bound keeps its date formatting within years 1970 to 9999,
/// and bounded `Age` headers (see `build_http_response`) keep its age
/// arithmetic in range.
#[verifier::external_body]
fn policy_after_response(
    p: &http_cache_semantics::CachePolicy,
    req: &http::Request<()>,
    resp: &http::Response<()>,
    now_wall_ms: i64,
) -> (http_cache_semantics::CachePolicy, ResponseParts, bool)
    requires
        0 <= now_wall_ms <= MAX_WALL_MS,
{
    let base = std::time::UNIX_EPOCH;
    let now = if now_wall_ms >= 0 { base + std::time::Duration::from_millis(now_wall_ms as u64) } else { base - std::time::Duration::from_millis(now_wall_ms.unsigned_abs()) };
    let (policy, parts, modified) = match p.after_response(req, resp, now) {
        http_cache_semantics::AfterResponse::NotModified(pol, parts) => (pol, parts, false),
        http_cache_semantics::AfterResponse::Modified(pol, parts) => (pol, parts, true),
    };
    let headers = parts.headers.iter().filter_map(|(k, v)| v.to_str().ok().map(|s| (k.as_str().to_owned(), s.to_owned()))).collect();
    (policy, ResponseParts { status: parts.status.as_u16(), headers }, modified)
}

/// Largest `Age` header value, in seconds, passed through to the cache
/// semantics: larger values are clamped so the policy's age arithmetic
/// cannot overflow. Far beyond any meaningful age.
pub const MAX_AGE_HEADER_SECS: u64 = 1_000_000_000_000;

/// Whether a header value, read the way the cache semantics read `Age`,
/// stays under the cap (values that do not parse count as zero there).
pub open spec fn bounded_age_value(v: Seq<char>) -> bool {
    match u64_dec_of(v) {
        Some(n) => n <= MAX_AGE_HEADER_SECS,
        None => true,
    }
}

/// Whether every `Age` header in the list is bounded.
pub open spec fn age_headers_bounded(hs: Seq<(Seq<char>, Seq<char>)>) -> bool {
    forall|i: int|
        0 <= i < hs.len() ==> (lower_seq(#[trigger] hs[i].0) == "age"@ ==> bounded_age_value(
            hs[i].1,
        ))
}

/// The header list with every oversized `Age` value clamped to the cap.
pub open spec fn cap_age_spec(hs: Seq<(Seq<char>, Seq<char>)>) -> Seq<(Seq<char>, Seq<char>)> {
    Seq::new(
        hs.len(),
        |i: int|
            if lower_seq(hs[i].0) == "age"@ && !bounded_age_value(hs[i].1) {
                (hs[i].0, dec_of(MAX_AGE_HEADER_SECS as nat))
            } else {
                hs[i]
            },
    )
}

/// Clamp oversized `Age` header values to the cap, leaving everything else
/// untouched.
pub fn cap_age_headers(headers: &Vec<(String, String)>) -> (r: Vec<(String, String)>)
    ensures
        r.deep_view() == cap_age_spec(headers.deep_view()),
        age_headers_bounded(r.deep_view()),
{
    let ghost hs = headers.deep_view();
    let mut out: Vec<(String, String)> = Vec::new();
    let mut i: usize = 0;
    while i < headers.len()
        invariant
            0 <= i <= headers.len(),
            hs == headers.deep_view(),
            hs.len() == headers.len(),
            forall|k: int| 0 <= k < hs.len() ==> hs[k] == (headers@[k].0@, headers@[k].1@),
            out.deep_view() =~= cap_age_spec(hs).subrange(0, i as int),
        decreases headers.len() - i,
    {
        let name = headers[i].0.clone();
        let value = &headers[i].1;
        let lowered = to_lower(name.as_str());
        let clamp = if str_eq(lowered.as_str(), "age") {
            match parse_u64_dec(value.as_str()) {
                Some(n) => n > MAX_AGE_HEADER_SECS,
                None => false,
            }
        } else {
            false
        };
        proof {
            assert(clamp == (lower_seq(hs[i as int].0) == "age"@ && !bounded_age_value(
                hs[i as int].1,
            )));
        }
        let ghost out_before = out.deep_view();
        proof {
            assert(out_before.len() == i as int);
        }
        if clamp {
            out.push((name, dec_str(MAX_AGE_HEADER_SECS)));
        } else {
            out.push((name, value.clone()));
        }
        proof {
            assert(out@.len() == i + 1);
            assert(out.deep_view().len() == i + 1);
            assert forall|k: int| 0 <= k < i + 1 implies out.deep_view()[k] == cap_age_spec(
                hs,
            ).subrange(0, i + 1)[k] by {
                if k < i as int {
                    assert(out.deep_view()[k] == out_before[k]);
                } else {
                    assert(out.deep_view()[k] == (out@[k].0@, out@[k].1@));
                    assert(out@[k].0@ == hs[i as int].0);
                }
            }
            assert(out.deep_view() =~= cap_age_spec(hs).subrange(0, i + 1));
        }
        i += 1;
    }
    proof {
        assert(out.deep_view() =~= cap_age_spec(hs));
        assert forall|k: int|
            0 <= k < cap_age_spec(hs).len() && lower_seq(#[trigger] cap_age_spec(hs)[k].0)
                == "age"@ implies bounded_age_value(cap_age_spec(hs)[k].1) by {
            if lower_seq(hs[k].0) == "age"@ && !bounded_age_value(hs[k].1) {
                lemma_u64_dec_round_trip(MAX_AGE_HEADER_SECS);
            }
        }
    }
    out
}

/// A TTL clamped into `[min, max]`, with `min` winning when they cross.
pub open spec fn clamp_ttl_spec(ttl: u64, min: u64, max: u64) -> u64 {
    if ttl < min {
        min
    } else if ttl > max {
        max
    } else {
        ttl
    }
}

pub(crate) fn clamp_ttl(ttl: u64, min: u64, max: u64) -> (r: u64)
    ensures
        r == clamp_ttl_spec(ttl, min, max),
{
    if ttl < min {
        min
    } else if ttl > max {
        max
    } else {
        ttl
    }
}

/// Freshness evaluation derived from HTTP headers and registration policy.
#[derive(Debug)]
pub struct Freshness {
    /// Effective time-to-live allowed for the JWKS payload, milliseconds,
    /// clamped into the registration's `[min_ttl, max_ttl]`.
    pub ttl: u64,
    /// HTTP cache policy describing future request handling.
    pub policy: http_cache_semantics::CachePolicy,
}

/// Result of applying conditional revalidation.
#[derive(Debug)]
pub struct Revalidation {
    /// Freshness information resulting from the revalidation exchange.
    pub freshness: Freshness,
    /// Response synthesized from the revalidation outcome.
    pub response: ResponseParts,
    /// Flag indicating the upstream representation changed.
    pub modified: bool,
}

/// Build the baseline HTTP request for the provider JWKS endpoint:
/// method GET with an `accept: application/json` header.
pub fn base_request(registration: &IdentityProviderRegistration) -> (r: RequestParts)
    ensures
        r.method@ == "GET"@,
        r.uri == registration.jwks_url.serialized,
        r.headers@.len() == 1,
        r.headers@[0].0@ == "accept"@,
        r.headers@[0].1@ == "application/json"@,
{
    let mut headers: Vec<(String, String)> = Vec::new();
    headers.push(("accept".to_owned(), "application/json".to_owned()));
    RequestParts {
        method: "GET".to_owned(),
        uri: registration.jwks_url.serialized.clone(),
        headers,
    }
}

/// Whether an exchange's parts rebuild into the `http` values the cache
/// policy is derived from, the response's `Age` header capped.
pub open spec fn exchange_buildable(exchange: &HttpExchange) -> bool {
    &&& request_buildable(
        exchange.request.method@,
        exchange.request.uri@,
        exchange.request.headers.deep_view(),
    )
    &&& response_buildable(
        exchange.response.status,
        cap_age_spec(exchange.response.headers.deep_view()),
    )
}

/// Evaluate HTTP cache semantics to determine the TTL for a fetched JWKS
/// document: the policy-derived TTL clamped into the registration's bounds
/// when the response is storable, the minimum TTL otherwise. Succeeds
/// exactly when the exchange's parts rebuild into `http` values.
pub fn evaluate_freshness(
    registration: &IdentityProviderRegistration,
    exchange: &HttpExchange,
    now_wall_ms: i64,
) -> (r: JwksResult<Freshness>)
    requires
        0 <= now_wall_ms <= MAX_WALL_MS,
    ensures
        r is Ok <==> exchange_buildable(exchange),
        registration.min_ttl <= registration.max_ttl ==> (r matches Ok(f) ==> registration.min_ttl
            <= f.ttl <= registration.max_ttl),
        r matches Err(e) ==> e is Http,
{
    let request = match build_http_request(&exchange.request) {
        Some(req) => req,
        None => {
            return Err(Error::Http("Request parts could not be rebuilt.".to_owned()));
        },
    };
    let capped = cap_age_headers(&exchange.response.headers);
    let response_parts = ResponseParts { status: exchange.response.status, headers: capped };
    let response = match build_http_response(&response_parts) {
        Some(resp) => resp,
        None => {
            return Err(Error::Http("Response parts could not be rebuilt.".to_owned()));
        },
    };
    let policy = policy_new(&request, &response);
    let storable = policy_is_storable(&policy);
    let ttl = if storable {
        let raw = policy_ttl_ms(&policy, now_wall_ms);
        clamp_ttl(raw, registration.min_ttl, registration.max_ttl)
    } else {
        registration.min_ttl
    };
    Ok(Freshness { ttl, policy })
}

/// Evaluate cache semantics for a conditional revalidation attempt.
/// Succeeds exactly when the revalidation request and response parts
/// rebuild into `http` values.
pub fn evaluate_revalidation(
    registration: &IdentityProviderRegistration,
    policy: &http_cache_semantics::CachePolicy,
    request: &RequestParts,
    response: &ResponseParts,
    now_wall_ms: i64,
) -> (r: JwksResult<Revalidation>)
    requires
        0 <= now_wall_ms <= MAX_WALL_MS,
    ensures
        r is Ok <==> request_buildable(request.method@, request.uri@, request.headers.deep_view())
            && response_buildable(response.status, cap_age_spec(response.headers.deep_view())),
        registration.min_ttl <= registration.max_ttl ==> (r matches Ok(v) ==> registration.min_ttl
            <= v.freshness.ttl <= registration.max_ttl),
        r matches Err(e) ==> e is Http,
{
    let req = match build_http_request(request) {
        Some(req) => req,
        None => {
            return Err(Error::Http("Request parts could not be rebuilt.".to_owned()));
        },
    };
    let capped = cap_age_headers(&response.headers);
    let response_parts = ResponseParts { status: response.status, headers: capped };
    let resp = match build_http_response(&response_parts) {
        Some(resp) => resp,
        None => {
            return Err(Error::Http("Response parts could not be rebuilt.".to_owned()));
        },
    };
    let (new_policy, parts, modified) = policy_after_response(policy, &req, &resp, now_wall_ms);
    let raw = policy_ttl_ms(&new_policy, now_wall_ms);
    let ttl = clamp_ttl(raw, registration.min_ttl, registration.max_ttl);
    Ok(Revalidation { freshness: Freshness { ttl, policy: new_policy }, response: parts, modified })
}

} // verus!
