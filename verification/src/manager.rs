//! Cache manager core: resolve routing, the refresh pipeline's decisions,
//! payload construction, and commitment into the entry state machine.
//!
//! The suspending work — issuing the HTTP call, sleeping out a backoff,
//! taking the entry guards — happens outside the crate; every decision
//! between those points is made here, with a contract.

use vstd::prelude::*;

use crate::client::HttpFetch;
use crate::client::RequestParts;
use crate::clock::instant_to_wall;
use crate::clock::add_ms;
use crate::clock::sat_add;
use crate::clock::sat_sub;
use crate::clock::sub_ms;
use crate::clock::wall_of_instant;
use crate::entry::CacheEntry;
use crate::error::Error;
use crate::error::JwksResult;
use crate::jwks::JwksDoc;
use crate::metrics::ProviderMetrics;
use crate::client::ResponseParts;
use crate::client::format_http_date_ms;
use crate::client::http_date_format_of;
use crate::clock::MAX_WALL_MS;
use crate::jwks::jwks_keys_of;
use crate::jwks::utf8_str_of;
use crate::jwks::utf8_to_string;
use crate::registry::IdentityProviderRegistration;
use crate::registry::PersistentSnapshot;
use crate::registry::snapshot_valid;
use crate::semantics::build_http_response;
use crate::semantics::exchange_buildable;
use crate::semantics::policy_new;
use crate::semantics::request_buildable;
use crate::semantics::response_buildable;
use crate::strutil::dec_str;
use crate::strutil::lower_seq;
use vstd::string::StringExecFns;
use crate::retry::random_in_range;
use crate::semantics::BeforeDecision;
use crate::semantics::Freshness;
use crate::semantics::base_request;
use crate::semantics::build_http_request;
use crate::semantics::evaluate_freshness;
use crate::semantics::evaluate_revalidation;
use crate::semantics::policy_before_request;
use crate::state::CachePayload;
use crate::state::CacheState;
use crate::state::can_stale;
use crate::state::failed_payload;
use crate::state::payload_like;

verus! {

/// Whether a fetch fills an empty entry or replaces a payload.
#[derive(Clone, Copy, Debug, PartialEq, Eq, Structural)]
pub enum FetchMode {
    /// No payload yet: the entry is loading.
    Initial,
    /// A payload exists: the entry is refreshing.
    Refresh,
}

/// What a completed refresh handed back.
#[derive(Debug)]
pub enum RefreshOutcome {
    /// A payload was published.
    Updated {
        /// The keyset now in the entry.
        jwks: JwksDoc,
        /// Whether it came from the cache without an upstream call.
        from_cache: bool,
    },
    /// The refresh failed but the prior keyset may still be served.
    Stale(JwksDoc),
}

/// The request decision at the head of the refresh pipeline.
#[derive(Debug)]
pub enum PreparedRequest {
    /// The cached representation is still fresh; skip the upstream call.
    UseCached {
        /// The cached keyset to return.
        jwks: JwksDoc,
    },
    /// Send this request upstream.
    Send(RequestParts),
}

/// How a resolve call proceeds, given the observed payload and the time.
#[derive(Clone, Copy, Debug, PartialEq, Eq, Structural)]
pub enum ResolveAction {
    /// No payload: perform the initial fetch in the foreground.
    InitialFetch,
    /// The payload is fresh: serve it, and when `refresh_due`, promote the
    /// entry and spawn a background refresh.
    ServeFresh {
        /// Whether the scheduled refresh instant has passed.
        refresh_due: bool,
    },
    /// The payload expired but stale serving is still permitted: refresh in
    /// the foreground, falling back to the stale keyset on failure.
    StaleRefresh,
    /// The payload expired past the stale window: refresh in the
    /// foreground; failures surface to the caller.
    ExpiredRefresh,
}

/// Decide how a resolve call proceeds (the resolution algorithm's routing).
pub fn resolve_action(snapshot: Option<&CachePayload>, now: u64) -> (r: ResolveAction)
    ensures
        snapshot is None ==> r == ResolveAction::InitialFetch,
        snapshot matches Some(p) ==> r == (if now < p.expires_at {
            ResolveAction::ServeFresh { refresh_due: now >= p.next_refresh_at }
        } else if can_stale(p, now) {
            ResolveAction::StaleRefresh
        } else {
            ResolveAction::ExpiredRefresh
        }),
{
    match snapshot {
        None => ResolveAction::InitialFetch,
        Some(payload) => {
            if !payload.is_expired(now) {
                ResolveAction::ServeFresh { refresh_due: now >= payload.next_refresh_at }
            } else if payload.can_serve_stale(now) {
                ResolveAction::StaleRefresh
            } else {
                ResolveAction::ExpiredRefresh
            }
        },
    }
}

/// Observe the entry and enter the fetch: an entry without a payload moves
/// to `Loading` (initial mode); one with a payload is promoted to
/// `Refreshing` when its refresh is due (refresh mode).
pub fn begin_fetch(entry: &mut CacheEntry, now: u64) -> (r: (Option<CachePayload>, FetchMode))
    ensures
        final(entry).spec_tenant_id() == old(entry).spec_tenant_id(),
        final(entry).spec_provider_id() == old(entry).spec_provider_id(),
        r.1 is Refresh <==> (old(entry).spec_state() is Ready || old(entry).spec_state()
            is Refreshing),
        r.0 is Some <==> r.1 is Refresh,
        r.1 is Initial ==> final(entry).spec_state() is Loading,
        r.1 is Refresh ==> (final(entry).spec_state() is Ready || final(entry).spec_state()
            is Refreshing),
        old(entry).spec_state() matches CacheState::Ready(p) ==> (r.0 matches Some(q)
            && payload_like(&q, &p)),
        old(entry).spec_state() matches CacheState::Refreshing(p) ==> (r.0 matches Some(q)
            && payload_like(&q, &p)),
{
    let snapshot = entry.snapshot();
    match snapshot {
        Some(payload) => {
            entry.begin_refresh(now);
            (Some(payload), FetchMode::Refresh)
        },
        None => {
            entry.begin_load();
            (None, FetchMode::Initial)
        },
    }
}

/// Decide the request for a refresh: when the cached policy still declares
/// the representation fresh and revalidation is not being forced, the
/// cached keyset is used without an upstream call; when it proposes a
/// revalidation of the matching representation, that request is sent; the
/// stored ETag is attached as `if-none-match` whenever the request is
/// conditional.
pub fn prepare_request(
    registration: &IdentityProviderRegistration,
    existing: Option<&CachePayload>,
    force_revalidation: bool,
    now_wall: i64,
) -> (r: PreparedRequest)
    requires
        0 <= now_wall <= MAX_WALL_MS,
    ensures
        r matches PreparedRequest::UseCached { jwks } ==> !force_revalidation && (existing matches
            Some(p) && jwks@ == p.jwks@),
        existing is None ==> (r matches PreparedRequest::Send(req) && req.method@ == "GET"@
            && req.uri == registration.jwks_url.serialized),
        force_revalidation ==> (existing matches Some(p) ==> (p.etag matches Some(e) ==> (r
            matches PreparedRequest::Send(req) && req.headers@.len() >= 1
            && req.headers@.last().0@ == "if-none-match"@ && req.headers@.last().1@ == e@))),
{
    let request = base_request(registration);
    let payload = match existing {
        Some(p) => p,
        None => {
            return PreparedRequest::Send(request);
        },
    };
    let mut request = request;
    let mut send_conditional = force_revalidation;
    match build_http_request(&request) {
        Some(http_req) => {
            match policy_before_request(&payload.policy, &http_req, now_wall) {
                BeforeDecision::Fresh => {
                    if !force_revalidation {
                        return PreparedRequest::UseCached { jwks: payload.jwks.clone() };
                    }
                },
                BeforeDecision::Stale { request: proposed, validators_match } => {
                    if validators_match {
                        request = proposed;
                        send_conditional = true;
                    }
                },
            }
        },
        None => {},
    }
    if send_conditional {
        if let Some(etag) = &payload.etag {
            request.headers.push(("if-none-match".to_owned(), etag.clone()));
        }
    }
    PreparedRequest::Send(request)
}

/// The proactive refresh instant before jitter: `refresh_early` before the
/// expiry, clamped to not precede `now`.
pub open spec fn base_refresh_at(reg: &IdentityProviderRegistration, now: u64, ttl: u64) -> u64 {
    let base = sat_sub(sat_add(now, ttl), reg.refresh_early);
    if base < now {
        now
    } else {
        base
    }
}

/// The refresh instant after a jitter draw `j`: moved `j` earlier, provided
/// that keeps it at or after `now + j`.
pub open spec fn jittered_refresh_at(base: u64, now: u64, j: u64) -> u64 {
    if base > sat_add(now, j) {
        (base - j) as u64
    } else {
        base
    }
}

/// Assemble a payload from a freshness evaluation: expiry at `now + ttl`,
/// the proactive refresh scheduled `refresh_early` before it (jittered),
/// the stale deadline `stale_while_error` past it, failure bookkeeping
/// cleared.
pub fn build_payload(
    registration: &IdentityProviderRegistration,
    jwks: JwksDoc,
    freshness: Freshness,
    etag: Option<String>,
    last_modified: Option<i64>,
    now: u64,
    refreshed_at: i64,
) -> (r: CachePayload)
    ensures
        r.jwks == jwks,
        r.etag == etag,
        r.last_modified == last_modified,
        r.last_refresh_at == refreshed_at,
        r.error_count == 0,
        r.retry_backoff is None,
        r.expires_at == sat_add(now, freshness.ttl),
        r.stale_deadline == (if registration.stale_while_error == 0 {
            Option::<u64>::None
        } else {
            Some(sat_add(sat_add(now, freshness.ttl), registration.stale_while_error))
        }),
        now <= r.next_refresh_at <= r.expires_at,
        registration.prefetch_jitter == 0 ==> r.next_refresh_at == base_refresh_at(
            registration,
            now,
            freshness.ttl,
        ),
        registration.prefetch_jitter > 0 ==> exists|j: u64|
            0 <= j <= registration.prefetch_jitter && r.next_refresh_at == jittered_refresh_at(
                base_refresh_at(registration, now, freshness.ttl),
                now,
                j,
            ),
{
    let ttl = freshness.ttl;
    let expires_at = add_ms(now, ttl);
    let base = sub_ms(expires_at, registration.refresh_early);
    let mut refresh_at = if base < now {
        now
    } else {
        base
    };
    if registration.prefetch_jitter > 0 {
        let jitter = random_in_range(0, registration.prefetch_jitter);
        if refresh_at > add_ms(now, jitter) {
            refresh_at = refresh_at - jitter;
        }
        proof {
            assert(refresh_at == jittered_refresh_at(
                base_refresh_at(registration, now, ttl),
                now,
                jitter,
            ));
        }
    }
    let stale_deadline = if registration.stale_while_error == 0 {
        None
    } else {
        Some(add_ms(expires_at, registration.stale_while_error))
    };
    CachePayload {
        jwks,
        policy: freshness.policy,
        etag,
        last_modified,
        last_refresh_at: refreshed_at,
        expires_at,
        next_refresh_at: refresh_at,
        stale_deadline,
        retry_backoff: None,
        error_count: 0,
    }
}

/// Derive the next payload from a completed fetch: a body is evaluated for
/// freshness and becomes the new keyset; a 304 keeps the previous keyset
/// under revalidated freshness, merging validators; a 304 without a cached
/// payload is a state violation.
pub fn payload_from_fetch(
    registration: &IdentityProviderRegistration,
    existing: Option<&CachePayload>,
    fetch: HttpFetch,
    now: u64,
    now_wall: i64,
) -> (r: JwksResult<CachePayload>)
    requires
        0 <= now_wall <= MAX_WALL_MS,
    ensures
        fetch.jwks matches Some(doc) ==> ((r is Ok <==> exchange_buildable(&fetch.exchange)) && (r
            matches Ok(p) ==> p.jwks@ == doc@ && p.etag == fetch.etag && p.last_modified
            == fetch.last_modified) && (r matches Err(e) ==> e is Http)),
        fetch.jwks is None ==> (existing matches Some(prev) ==> ((r is Ok <==> exchange_buildable(
            &fetch.exchange,
        )) && (r matches Ok(p) ==> p.jwks@ == prev.jwks@) && (r matches Err(e) ==> e is Http))),
        (fetch.jwks is None && existing is None) ==> (r matches Err(e) && e is Cache),
        r matches Ok(p) ==> {
            &&& p.error_count == 0
            &&& p.retry_backoff is None
            &&& p.last_refresh_at == now_wall
            &&& now <= p.next_refresh_at <= p.expires_at
            &&& (registration.min_ttl <= registration.max_ttl ==> exists|ttl: u64|
                registration.min_ttl <= ttl <= registration.max_ttl && p.expires_at == sat_add(
                    now,
                    ttl,
                ))
            &&& p.stale_deadline == (if registration.stale_while_error == 0 {
                Option::<u64>::None
            } else {
                Some(sat_add(p.expires_at, registration.stale_while_error))
            })
        },
{
    match fetch.jwks {
        Some(doc) => {
            let freshness = evaluate_freshness(registration, &fetch.exchange, now_wall)?;
            Ok(
                build_payload(
                    registration,
                    doc,
                    freshness,
                    fetch.etag,
                    fetch.last_modified,
                    now,
                    now_wall,
                ),
            )
        },
        None => {
            match existing {
                Some(previous) => {
                    let revalidation = evaluate_revalidation(
                        registration,
                        &previous.policy,
                        &fetch.exchange.request,
                        &fetch.exchange.response,
                        now_wall,
                    )?;
                    let updated_etag = match crate::client::header_lookup(
                        &revalidation.response.headers,
                        "etag",
                    ) {
                        Some(e) => Some(e),
                        None => match &previous.etag {
                            Some(e) => Some(e.clone()),
                            None => None,
                        },
                    };
                    let updated_last_modified = match crate::client::header_lookup(
                        &revalidation.response.headers,
                        "last-modified",
                    ) {
                        Some(v) => match crate::client::parse_http_date_ms(v.as_str()) {
                            Some(t) => Some(t),
                            None => previous.last_modified,
                        },
                        None => previous.last_modified,
                    };
                    Ok(
                        build_payload(
                            registration,
                            previous.jwks.clone(),
                            revalidation.freshness,
                            updated_etag,
                            updated_last_modified,
                            now,
                            now_wall,
                        ),
                    )
                },
                None => Err(
                    Error::Cache("Received 304 status without a cached payload.".to_owned()),
                ),
            }
        },
    }
}

/// Publish a successful fetch into the entry: the payload becomes `Ready`
/// with its failure bookkeeping reset.
pub fn commit_success(entry: &mut CacheEntry, mode: FetchMode, payload: CachePayload)
    requires
        mode is Initial ==> old(entry).spec_state() is Loading,
        mode is Refresh ==> (old(entry).spec_state() is Ready || old(entry).spec_state()
            is Refreshing),
    ensures
        final(entry).spec_tenant_id() == old(entry).spec_tenant_id(),
        final(entry).spec_provider_id() == old(entry).spec_provider_id(),
        final(entry).spec_state() == CacheState::Ready(
            CachePayload { error_count: 0, retry_backoff: None, ..payload },
        ),
{
    match mode {
        FetchMode::Initial => entry.load_success(payload),
        FetchMode::Refresh => entry.refresh_success(payload),
    }
}

/// Record an exhausted fetch into the entry: an initial load empties the
/// entry; a refresh bumps the failure bookkeeping and keeps the payload
/// only while stale serving is still permitted.
pub fn commit_failure(entry: &mut CacheEntry, mode: FetchMode, now: u64, last_backoff: Option<u64>)
    ensures
        final(entry).spec_tenant_id() == old(entry).spec_tenant_id(),
        final(entry).spec_provider_id() == old(entry).spec_provider_id(),
        mode is Initial ==> final(entry).spec_state() is Empty,
        mode is Refresh ==> ({
            &&& old(entry).spec_state() matches CacheState::Refreshing(p) ==> ({
                let q = failed_payload(p, now, last_backoff);
                if can_stale(&q, now) {
                    final(entry).spec_state() == CacheState::Ready(q)
                } else {
                    final(entry).spec_state() is Empty
                }
            })
            &&& !(old(entry).spec_state() is Refreshing) ==> final(entry).spec_state() == old(
                entry,
            ).spec_state()
        }),
{
    match mode {
        FetchMode::Initial => entry.invalidate(),
        FetchMode::Refresh => entry.refresh_failure(now, last_backoff),
    }
}

/// Decide what an exhausted refresh returns: the prior keyset, stale, when
/// revalidation was not forced and the stale window still admits it; the
/// last error otherwise, or a synthetic exhaustion error when no attempt
/// ever ran.
pub fn stale_fallback(
    existing: Option<CachePayload>,
    force_revalidation: bool,
    now: u64,
    last_error: Option<Error>,
) -> (r: JwksResult<RefreshOutcome>)
    ensures
        existing matches Some(p) ==> ((!force_revalidation && can_stale(&p, now)) ==> (r matches
            Ok(o) && (o matches RefreshOutcome::Stale(doc) && doc@ == p.jwks@))),
        (force_revalidation || existing is None || (existing matches Some(p) && !can_stale(
            &p,
            now,
        ))) ==> (r matches Err(e) && (match last_error {
            Some(le) => e == le,
            None => e is Cache,
        })),
{
    if !force_revalidation {
        if let Some(payload) = existing {
            if payload.can_serve_stale(now) {
                return Ok(RefreshOutcome::Stale(payload.jwks));
            }
        }
    }
    match last_error {
        Some(e) => Err(e),
        None => Err(Error::Cache("Refresh attempts exhausted.".to_owned())),
    }
}

/// Account a resolve outcome: a cache-sourced update is a fresh hit, an
/// upstream update is a miss, a stale fallback is a stale hit.
pub fn observe_outcome(metrics: &mut ProviderMetrics, outcome: &RefreshOutcome)
    ensures
        outcome matches RefreshOutcome::Updated { from_cache: true, .. }
            ==> final(metrics).spec_snapshot() == (crate::metrics::ProviderMetricsSnapshot {
            total_requests: sat_add(old(metrics).spec_snapshot().total_requests, 1),
            cache_hits: sat_add(old(metrics).spec_snapshot().cache_hits, 1),
            ..old(metrics).spec_snapshot()
        }),
        outcome matches RefreshOutcome::Updated { from_cache: false, .. }
            ==> final(metrics).spec_snapshot() == (crate::metrics::ProviderMetricsSnapshot {
            total_requests: sat_add(old(metrics).spec_snapshot().total_requests, 1),
            ..old(metrics).spec_snapshot()
        }),
        outcome is Stale ==> final(metrics).spec_snapshot()
            == (crate::metrics::ProviderMetricsSnapshot {
            total_requests: sat_add(old(metrics).spec_snapshot().total_requests, 1),
            cache_hits: sat_add(old(metrics).spec_snapshot().cache_hits, 1),
            stale_serves: sat_add(old(metrics).spec_snapshot().stale_serves, 1),
            ..old(metrics).spec_snapshot()
        }),
{
    match outcome {
        RefreshOutcome::Updated { from_cache, .. } => {
            if *from_cache {
                metrics.record_hit(false);
            } else {
                metrics.record_miss();
            }
        },
        RefreshOutcome::Stale(_) => {
            metrics.record_hit(true);
        },
    }
}

/// Snapshot of cache state captured for status reporting.
#[derive(Debug)]
pub struct CacheSnapshot {
    /// Monotonic instant when the snapshot was taken, milliseconds.
    pub captured_at: u64,
    /// Wall-clock timestamp that aligns with `captured_at`.
    pub captured_at_wallclock: i64,
    /// Cache state recorded at capture time.
    pub state: CacheState,
}

/// Copy a cache state, preserving the variant and the payload's contents.
pub fn clone_state(state: &CacheState) -> (r: CacheState)
    ensures
        state is Empty <==> r is Empty,
        state is Loading <==> r is Loading,
        state matches CacheState::Ready(p) ==> (r matches CacheState::Ready(q) && payload_like(
            &q,
            &p,
        )),
        state matches CacheState::Refreshing(p) ==> (r matches CacheState::Refreshing(q)
            && payload_like(&q, &p)),
{
    match state {
        CacheState::Empty => CacheState::Empty,
        CacheState::Loading => CacheState::Loading,
        CacheState::Ready(p) => CacheState::Ready(p.clone()),
        CacheState::Refreshing(p) => CacheState::Refreshing(p.clone()),
    }
}

impl CacheSnapshot {
    /// Capture the entry's state together with a monotonic/wall-clock
    /// correspondence point.
    pub fn capture(entry: &CacheEntry, now: u64, now_wall: i64) -> (r: Self)
        ensures
            r.captured_at == now,
            r.captured_at_wallclock == now_wall,
            entry.spec_state() is Empty <==> r.state is Empty,
            entry.spec_state() is Loading <==> r.state is Loading,
            entry.spec_state() matches CacheState::Ready(p) ==> (r.state matches CacheState::Ready(
                q,
            ) && payload_like(&q, &p)),
            entry.spec_state() matches CacheState::Refreshing(p) ==> (r.state matches
                CacheState::Refreshing(q) && payload_like(&q, &p)),
    {
        CacheSnapshot { captured_at: now, captured_at_wallclock: now_wall, state: clone_state(entry.state()) }
    }

    /// Convert a monotonic instant drawn from the cached payload into a
    /// wall-clock timestamp, through the captured correspondence point.
    pub fn to_datetime(&self, instant: u64) -> (r: Option<i64>)
        ensures
            r == wall_of_instant(instant, self.captured_at, self.captured_at_wallclock),
    {
        instant_to_wall(instant, self.captured_at, self.captured_at_wallclock)
    }
}


/// What a produced persistence snapshot owes to the payload it captured.
pub open spec fn snapshot_captures(
    s: &PersistentSnapshot,
    p: &CachePayload,
    registration: &IdentityProviderRegistration,
    captured_at: u64,
    captured_wall: i64,
    now_wall: i64,
) -> bool {
    &&& s.tenant_id == registration.tenant_id
    &&& s.provider_id == registration.provider_id
    &&& utf8_str_of(p.jwks@) == Some(s.jwks_json@)
    &&& vstd::utf8::encode_utf8(s.jwks_json@) == p.jwks@
    &&& s.etag == p.etag
    &&& s.last_modified == p.last_modified
    &&& Some(s.expires_at) == crate::clock::wall_of_instant(
        p.expires_at,
        captured_at,
        captured_wall,
    )
    &&& s.persisted_at == now_wall
}

/// Build a persistence snapshot capturing the current cache contents:
/// nothing when no payload is held or its expiry cannot be translated to
/// wall-clock time; an error when the document is not valid UTF-8.
pub fn persistent_snapshot(
    registration: &IdentityProviderRegistration,
    snapshot: &CacheSnapshot,
    now_wall: i64,
) -> (r: JwksResult<Option<PersistentSnapshot>>)
    ensures
        (snapshot.state is Empty || snapshot.state is Loading) ==> (r matches Ok(o) && o is None),
        snapshot.state matches CacheState::Ready(p) ==> snapshot_outcome(
            r,
            &p,
            registration,
            snapshot,
            now_wall,
        ),
        snapshot.state matches CacheState::Refreshing(p) ==> snapshot_outcome(
            r,
            &p,
            registration,
            snapshot,
            now_wall,
        ),
{
    let payload = match &snapshot.state {
        CacheState::Ready(p) => p,
        CacheState::Refreshing(p) => p,
        _ => {
            return Ok(None);
        },
    };
    let expires_at = match snapshot.to_datetime(payload.expires_at) {
        Some(t) => t,
        None => {
            return Ok(None);
        },
    };
    let jwks_json = match utf8_to_string(payload.jwks.json()) {
        Some(s) => s,
        None => {
            return Err(Error::Serde("Cached JWKS document is not valid UTF-8.".to_owned()));
        },
    };
    let etag = match &payload.etag {
        Some(e) => Some(e.clone()),
        None => None,
    };
    let out = PersistentSnapshot {
        tenant_id: registration.tenant_id.clone(),
        provider_id: registration.provider_id.clone(),
        jwks_json,
        etag,
        last_modified: payload.last_modified,
        expires_at,
        persisted_at: now_wall,
    };
    assert(out.etag == payload.etag);
    Ok(Some(out))
}

/// What `persistent_snapshot` owes for a held payload: nothing when the
/// expiry cannot be translated, an error when the document is not UTF-8,
/// and otherwise a snapshot capturing the payload.
pub open spec fn snapshot_outcome(
    r: JwksResult<Option<PersistentSnapshot>>,
    p: &CachePayload,
    registration: &IdentityProviderRegistration,
    snapshot: &CacheSnapshot,
    now_wall: i64,
) -> bool {
    match crate::clock::wall_of_instant(
        p.expires_at,
        snapshot.captured_at,
        snapshot.captured_at_wallclock,
    ) {
        None => r matches Ok(o) && o is None,
        Some(_) => match utf8_str_of(p.jwks@) {
            None => r matches Err(e) && e is Serde,
            Some(_) => r matches Ok(o) && (o matches Some(s) && snapshot_captures(
                &s,
                p,
                registration,
                snapshot.captured_at,
                snapshot.captured_at_wallclock,
                now_wall,
            )),
        },
    }
}

/// The TTL granted to a restored snapshot: the remaining life at
/// persistence time, floored at `min_ttl` and capped at `max_ttl`.
pub open spec fn restore_ttl(
    s: &PersistentSnapshot,
    registration: &IdentityProviderRegistration,
) -> u64 {
    let delta = (s.expires_at - s.persisted_at) as u64;
    let floored = if delta >= registration.min_ttl {
        delta
    } else {
        registration.min_ttl
    };
    if floored <= registration.max_ttl {
        floored
    } else {
        registration.max_ttl
    }
}

/// What a restored payload owes to the snapshot it came from.
pub open spec fn restored_payload_ok(
    p: &CachePayload,
    s: &PersistentSnapshot,
    registration: &IdentityProviderRegistration,
    now: u64,
) -> bool {
    &&& p.jwks@ == vstd::utf8::encode_utf8(s.jwks_json@)
    &&& p.etag == s.etag
    &&& p.last_modified == s.last_modified
    &&& p.last_refresh_at == s.persisted_at
    &&& p.error_count == 0
    &&& p.retry_backoff is None
    &&& p.expires_at == sat_add(now, restore_ttl(s, registration))
    &&& now <= p.next_refresh_at <= p.expires_at
}

/// The header view of the synthetic response a restored snapshot is
/// evaluated under: a rendered `max-age` directive, the content type, and
/// the snapshot's validators where present and representable.
pub open spec fn restore_headers_view(
    s: &PersistentSnapshot,
    registration: &IdentityProviderRegistration,
) -> Seq<(Seq<char>, Seq<char>)> {
    let ttl = restore_ttl(s, registration);
    let base = seq![
        ("cache-control"@, "public, max-age="@ + crate::strutil::dec_of((ttl / 1000) as nat)),
        ("content-type"@, "application/json"@),
    ];
    let with_etag = match s.etag {
        Some(e) => base.push(("etag"@, e@)),
        None => base,
    };
    match s.last_modified {
        Some(lm) => if 0 <= lm <= MAX_WALL_MS {
            with_etag.push(("last-modified"@, http_date_format_of(lm)))
        } else {
            with_etag
        },
        None => with_etag,
    }
}

/// Rebuild a payload from a persisted snapshot: the snapshot is validated,
/// its document parsed, and the payload assembled under a synthetic
/// cache policy whose lifetime is the snapshot's remaining life clamped
/// into the registration's bounds. A valid, parsable snapshot restores
/// exactly when its synthetic request and response parts rebuild into
/// `http` values.
pub fn restore_payload(
    registration: &IdentityProviderRegistration,
    snapshot: &PersistentSnapshot,
    now: u64,
) -> (r: JwksResult<CachePayload>)
    ensures
        !snapshot_valid(snapshot, registration) ==> (r matches Err(e) && e is Validation),
        snapshot_valid(snapshot, registration) ==> match jwks_keys_of(
            vstd::utf8::encode_utf8(snapshot.jwks_json@),
        ) {
            Option::None => r matches Err(e) && e is Serde,
            Option::Some(_) => {
                &&& (r is Ok <==> request_buildable(
                    "GET"@,
                    registration.jwks_url.serialized@,
                    seq![("accept"@, "application/json"@)],
                ) && response_buildable(200, restore_headers_view(snapshot, registration)))
                &&& (r matches Ok(p) ==> restored_payload_ok(&p, snapshot, registration, now))
                &&& (r matches Err(e) ==> e is Http)
            },
        },
{
    snapshot.validate(registration)?;
    let bytes = snapshot.jwks_json.as_str().as_bytes_vec();
    let doc = JwksDoc::parse(bytes)?;
    let delta = ((snapshot.expires_at as i128) - (snapshot.persisted_at as i128)) as u64;
    let floored = if delta >= registration.min_ttl {
        delta
    } else {
        registration.min_ttl
    };
    let ttl = if floored <= registration.max_ttl {
        floored
    } else {
        registration.max_ttl
    };
    assert(ttl == restore_ttl(snapshot, registration));
    let request = base_request(registration);
    proof {
        assert(request.headers.deep_view() =~= seq![("accept"@, "application/json"@)]);
    }
    let mut headers: Vec<(String, String)> = Vec::new();
    let directive = "public, max-age=".to_owned().concat(dec_str(ttl / 1000).as_str());
    headers.push(("cache-control".to_owned(), directive));
    headers.push(("content-type".to_owned(), "application/json".to_owned()));
    let etag = match &snapshot.etag {
        Some(e) => {
            headers.push(("etag".to_owned(), e.clone()));
            Some(e.clone())
        },
        None => None,
    };
    if let Some(last_modified) = snapshot.last_modified {
        if 0 <= last_modified && last_modified <= MAX_WALL_MS {
            headers.push(("last-modified".to_owned(), format_http_date_ms(last_modified)));
        }
    }
    proof {
        assert(etag == snapshot.etag);
        assert(headers.deep_view() =~= restore_headers_view(snapshot, registration));
        lemma_restore_headers_age_free(headers.deep_view());
    }
    let response = ResponseParts { status: 200, headers };
    let http_req = match build_http_request(&request) {
        Some(req) => req,
        None => {
            return Err(Error::Http("Request parts could not be rebuilt.".to_owned()));
        },
    };
    let http_resp = match build_http_response(&response) {
        Some(resp) => resp,
        None => {
            return Err(Error::Http("Response parts could not be rebuilt.".to_owned()));
        },
    };
    let policy = policy_new(&http_req, &http_resp);
    Ok(
        build_payload(
            registration,
            doc,
            Freshness { ttl, policy },
            etag,
            snapshot.last_modified,
            now,
            snapshot.persisted_at,
        ),
    )
}

/// The synthetic restore headers carry no `Age` header: every name is a
/// fixed word whose length differs from `"age"`.
proof fn lemma_restore_headers_age_free(hs: Seq<(Seq<char>, Seq<char>)>)
    requires
        forall|k: int|
            0 <= k < hs.len() ==> (#[trigger] hs[k].0 == "cache-control"@ || hs[k].0
                == "content-type"@ || hs[k].0 == "etag"@ || hs[k].0 == "last-modified"@),
    ensures
        crate::semantics::age_headers_bounded(hs),
{
    reveal_strlit("age");
    reveal_strlit("cache-control");
    reveal_strlit("content-type");
    reveal_strlit("etag");
    reveal_strlit("last-modified");
    assert forall|k: int|
        0 <= k < hs.len() && lower_seq(#[trigger] hs[k].0) == "age"@
        implies crate::semantics::bounded_age_value(hs[k].1) by {
        assert(lower_seq(hs[k].0).len() == hs[k].0.len());
        assert("age"@.len() == 3);
        assert(hs[k].0.len() != 3);
        assert(false);
    }
}

/// Publish a restored payload into the entry, whatever its state: an empty
/// or loading entry completes its load; a usable entry is refreshed.
pub fn commit_restored(entry: &mut CacheEntry, payload: CachePayload)
    ensures
        final(entry).spec_tenant_id() == old(entry).spec_tenant_id(),
        final(entry).spec_provider_id() == old(entry).spec_provider_id(),
        final(entry).spec_state() == CacheState::Ready(
            CachePayload { error_count: 0, retry_backoff: None, ..payload },
        ),
{
    if entry.state().is_usable() {
        entry.refresh_success(payload);
    } else {
        entry.begin_load();
        entry.load_success(payload);
    }
}

/// Law: at the moment of publication, a payload's lifetime sits within the
/// registration's TTL bounds: when the expiry arithmetic does not
/// saturate, `min_ttl <= expires_at - now <= max_ttl`.
pub proof fn lemma_publication_ttl_bounds(
    registration: &IdentityProviderRegistration,
    ttl: u64,
    p: &CachePayload,
    now: u64,
)
    requires
        registration.min_ttl <= ttl <= registration.max_ttl,
        p.expires_at == sat_add(now, ttl),
        now + ttl <= u64::MAX,
    ensures
        registration.min_ttl <= p.expires_at - now <= registration.max_ttl,
{
}

/// Law: a snapshot taken of a payload and restored reproduces the
/// document bytes, the validators, and the last-modified stamp; restored
/// at an instant corresponding to the persistence time, with the
/// snapshot's remaining life inside the TTL bounds, it also reproduces
/// the wall-clock expiry.
pub proof fn lemma_persist_restore_round_trip(
    registration: &IdentityProviderRegistration,
    original: &CachePayload,
    s: &PersistentSnapshot,
    restored: &CachePayload,
    captured_at: u64,
    captured_wall: i64,
    now_wall: i64,
    now: u64,
)
    requires
        snapshot_captures(s, original, registration, captured_at, captured_wall, now_wall),
        restored_payload_ok(restored, s, registration, now),
        registration.min_ttl <= s.expires_at - s.persisted_at <= registration.max_ttl,
        s.expires_at - s.persisted_at <= i64::MAX,
        now + restore_ttl(s, registration) <= u64::MAX,
    ensures
        restored.jwks@ == original.jwks@,
        restored.etag == original.etag,
        restored.last_modified == original.last_modified,
        crate::clock::wall_of_instant(restored.expires_at, now, s.persisted_at) == Some(
            s.expires_at,
        ),
{
    assert(restore_ttl(s, registration) == (s.expires_at - s.persisted_at) as u64);
    assert(restored.expires_at == now + (s.expires_at - s.persisted_at));
}

} // verus!
