//! The refresh pipeline's decisions, end to end over synthetic exchanges.

use jwks_cache::client::{HttpExchange, RequestParts, ResponseParts, classify_response};
use jwks_cache::entry::CacheEntry;
use jwks_cache::error::Error;
use jwks_cache::jwks::JwksDoc;
use jwks_cache::manager::{
    FetchMode, PreparedRequest, RefreshOutcome, ResolveAction, begin_fetch, build_payload,
    commit_failure, commit_success, payload_from_fetch, prepare_request, resolve_action,
    stale_fallback,
};
use jwks_cache::registry::IdentityProviderRegistration;
use jwks_cache::semantics::evaluate_freshness;
use jwks_cache::state::{CachePayload, CacheState};

const JWKS_BODY: &[u8] = b"{\"keys\": [{\"kty\": \"oct\", \"kid\": \"primary\", \"k\": \"c2VjcmV0\"}]}";

fn now_wall_ms() -> i64 {
    std::time::SystemTime::now()
        .duration_since(std::time::UNIX_EPOCH)
        .expect("clock")
        .as_millis() as i64
}

fn make_registration() -> IdentityProviderRegistration {
    let mut registration = IdentityProviderRegistration::new(
        "tenant-a".to_owned(),
        "auth0".to_owned(),
        "https://example.com/.well-known/jwks.json",
    )
    .expect("registration");
    registration.prefetch_jitter = 0;
    registration
}

/// Simulate one upstream exchange: classify the response and build the
/// payload the pipeline would commit.
fn run_fetch(
    registration: &IdentityProviderRegistration,
    existing: Option<&CachePayload>,
    request: RequestParts,
    status: u16,
    headers: Vec<(String, String)>,
    body: Option<Vec<u8>>,
    now: u64,
    now_wall: i64,
) -> Result<CachePayload, Error> {
    let fetch = classify_response(
        registration.jwks_url.serialized.as_str(),
        request,
        status,
        headers,
        body,
        5,
        registration.max_response_bytes,
    )?;
    payload_from_fetch(registration, existing, fetch, now, now_wall)
}

#[test]
fn first_miss_then_hit() {
    let registration = make_registration();
    let mut entry = CacheEntry::new("tenant-a".to_owned(), "auth0".to_owned());
    let now: u64 = 1_000_000;
    let now_wall = now_wall_ms();

    // First resolve: the entry is empty, so an initial fetch runs.
    assert_eq!(resolve_action(entry.snapshot().as_ref(), now), ResolveAction::InitialFetch);
    let (existing, mode) = begin_fetch(&mut entry, now);
    assert!(existing.is_none());
    assert_eq!(mode, FetchMode::Initial);
    let request = match prepare_request(&registration, existing.as_ref(), true, now_wall) {
        PreparedRequest::Send(req) => req,
        PreparedRequest::UseCached { .. } => panic!("an empty entry cannot serve from cache"),
    };
    let payload = run_fetch(
        &registration,
        existing.as_ref(),
        request,
        200,
        vec![
            ("cache-control".to_owned(), "public, max-age=60".to_owned()),
            ("content-type".to_owned(), "application/json".to_owned()),
        ],
        Some(JWKS_BODY.to_vec()),
        now,
        now_wall,
    )
    .expect("initial fetch");
    commit_success(&mut entry, mode, payload);

    let first = match entry.state() {
        CacheState::Ready(p) => p.jwks.clone(),
        other => panic!("expected Ready state, got {:?}", other),
    };
    assert_eq!(first.key_count(), 1);

    // Second resolve within 30 s: a plain hit, no refresh due.
    let snapshot = entry.snapshot().expect("payload");
    assert_eq!(
        resolve_action(Some(&snapshot), now + 20_000),
        ResolveAction::ServeFresh { refresh_due: false },
    );
    assert!(snapshot.jwks.same_document(&first));
}

#[test]
fn conditional_revalidation_reuses_cached_keyset() {
    let mut registration = make_registration();
    registration.min_ttl = 1_000;
    registration.refresh_early = 55_000;
    registration.stale_while_error = 120_000;

    let mut entry = CacheEntry::new("tenant-a".to_owned(), "auth0".to_owned());
    let now: u64 = 1_000_000;
    let now_wall = now_wall_ms();

    // Initial 200 with a one-second lifetime and a validator.
    let (existing, mode) = begin_fetch(&mut entry, now);
    let request = match prepare_request(&registration, existing.as_ref(), true, now_wall) {
        PreparedRequest::Send(req) => req,
        PreparedRequest::UseCached { .. } => panic!("an empty entry cannot serve from cache"),
    };
    let payload = run_fetch(
        &registration,
        existing.as_ref(),
        request,
        200,
        vec![
            ("cache-control".to_owned(), "public, max-age=1".to_owned()),
            ("etag".to_owned(), "\"v1\"".to_owned()),
        ],
        Some(JWKS_BODY.to_vec()),
        now,
        now_wall,
    )
    .expect("initial fetch");
    assert_eq!(payload.expires_at, now + 1_000);
    commit_success(&mut entry, mode, payload);
    let first = entry.snapshot().expect("payload");

    // Six seconds later: expired, but within the stale window.
    let later = now + 6_000;
    let later_wall = now_wall + 6_000;
    assert_eq!(resolve_action(Some(&first), later), ResolveAction::StaleRefresh);

    let (existing, mode) = begin_fetch(&mut entry, later);
    assert_eq!(mode, FetchMode::Refresh);
    let existing = existing.expect("payload");
    let request = match prepare_request(&registration, Some(&existing), false, later_wall) {
        PreparedRequest::Send(req) => req,
        PreparedRequest::UseCached { .. } => panic!("expired payload cannot be declared fresh"),
    };
    // The conditional validator travels with the request.
    let conditional = jwks_cache::client::header_lookup(&request.headers, "if-none-match");
    assert_eq!(conditional.as_deref(), Some("\"v1\""), "conditional header missing");

    // The origin answers 304: the cached keyset is preserved.
    let revalidated = run_fetch(
        &registration,
        Some(&existing),
        request,
        304,
        vec![
            ("cache-control".to_owned(), "public, max-age=1".to_owned()),
            ("etag".to_owned(), "\"v1\"".to_owned()),
        ],
        None,
        later,
        later_wall,
    )
    .expect("revalidation");
    assert!(revalidated.jwks.same_document(&first.jwks), "304 should reuse cached JWKS");
    assert_eq!(revalidated.etag.as_deref(), Some("\"v1\""));
    commit_success(&mut entry, mode, revalidated);
}

#[test]
fn not_modified_without_cached_payload_is_fatal() {
    let registration = make_registration();
    let now_wall = now_wall_ms();
    let request = RequestParts {
        method: "GET".to_owned(),
        uri: registration.jwks_url.serialized.clone(),
        headers: Vec::new(),
    };
    let r = run_fetch(&registration, None, request, 304, Vec::new(), None, 0, now_wall);
    assert!(matches!(r, Err(Error::Cache(_))));
}

#[test]
fn stale_fallback_serves_prior_keyset_within_window() {
    let mut registration = make_registration();
    registration.min_ttl = 1_000;
    registration.stale_while_error = 120_000;

    let mut entry = CacheEntry::new("tenant-a".to_owned(), "auth0".to_owned());
    let now: u64 = 1_000_000;
    let now_wall = now_wall_ms();

    let (existing, mode) = begin_fetch(&mut entry, now);
    let request = match prepare_request(&registration, existing.as_ref(), true, now_wall) {
        PreparedRequest::Send(req) => req,
        PreparedRequest::UseCached { .. } => panic!("an empty entry cannot serve from cache"),
    };
    let payload = run_fetch(
        &registration,
        existing.as_ref(),
        request,
        200,
        vec![("cache-control".to_owned(), "public, max-age=1".to_owned())],
        Some(JWKS_BODY.to_vec()),
        now,
        now_wall,
    )
    .expect("initial fetch");
    commit_success(&mut entry, mode, payload);

    // The origin starts failing; the refresh exhausts its retries.
    let later = now + 6_000;
    let (existing, mode) = begin_fetch(&mut entry, later);
    let existing = existing.expect("payload");
    let request = RequestParts {
        method: "GET".to_owned(),
        uri: registration.jwks_url.serialized.clone(),
        headers: Vec::new(),
    };
    let err = run_fetch(
        &registration,
        Some(&existing),
        request,
        500,
        Vec::new(),
        Some(b"upstream exploded".to_vec()),
        later,
        now_wall + 6_000,
    )
    .expect_err("upstream failure");
    commit_failure(&mut entry, mode, later, Some(250));

    // Within the stale window the prior keyset is still served and the
    // error count grows.
    match entry.state() {
        CacheState::Ready(p) => {
            assert_eq!(p.error_count, 1);
            assert!(p.jwks.same_document(&existing.jwks), "stale entry retains cached keyset");
        },
        other => panic!("expected Ready state, got {:?}", other),
    }
    match stale_fallback(Some(existing.clone()), false, later, Some(err)) {
        Ok(RefreshOutcome::Stale(doc)) => assert!(doc.same_document(&existing.jwks)),
        other => panic!("expected a stale fallback, got {:?}", other),
    }

    // Past the window the last error surfaces instead.
    let past_window = now + 1_000 + 120_001;
    let err = Error::HttpStatus {
        status: 500,
        url: registration.jwks_url.serialized.clone(),
        body: None,
    };
    match stale_fallback(Some(existing), false, past_window, Some(err)) {
        Err(Error::HttpStatus { status, .. }) => assert_eq!(status, 500),
        other => panic!("expected the upstream error to surface, got {:?}", other),
    }
}

#[test]
fn refresh_failure_past_stale_window_empties_entry() {
    let mut registration = make_registration();
    registration.min_ttl = 1_000;
    registration.stale_while_error = 2_000;

    let mut entry = CacheEntry::new("tenant-a".to_owned(), "auth0".to_owned());
    let now: u64 = 1_000_000;
    let now_wall = now_wall_ms();

    let (existing, mode) = begin_fetch(&mut entry, now);
    let request = match prepare_request(&registration, existing.as_ref(), true, now_wall) {
        PreparedRequest::Send(req) => req,
        PreparedRequest::UseCached { .. } => panic!("an empty entry cannot serve from cache"),
    };
    let payload = run_fetch(
        &registration,
        existing.as_ref(),
        request,
        200,
        vec![("cache-control".to_owned(), "public, max-age=1".to_owned())],
        Some(JWKS_BODY.to_vec()),
        now,
        now_wall,
    )
    .expect("initial fetch");
    commit_success(&mut entry, mode, payload);

    let much_later = now + 600_000;
    let (_, mode) = begin_fetch(&mut entry, much_later);
    commit_failure(&mut entry, mode, much_later, None);
    assert!(matches!(entry.state(), CacheState::Empty));
}

#[test]
fn exhaustion_without_any_error_reports_synthetic_cache_error() {
    match stale_fallback(None, false, 0, None) {
        Err(Error::Cache(_)) => {},
        other => panic!("expected a synthetic exhaustion error, got {:?}", other),
    }
}

#[test]
fn deterministic_refresh_schedule_without_jitter() {
    let mut registration = make_registration();
    registration.min_ttl = 30_000;
    registration.max_ttl = 120_000;
    registration.refresh_early = 30_000;
    registration.prefetch_jitter = 0;

    let now: u64 = 500_000;
    let now_wall = now_wall_ms();
    let request = jwks_cache::semantics::base_request(&registration);
    let response = ResponseParts {
        status: 200,
        headers: vec![("cache-control".to_owned(), "public, max-age=60".to_owned())],
    };
    let exchange = HttpExchange::new(request, response, 4);
    let freshness = evaluate_freshness(&registration, &exchange, now_wall).expect("freshness");
    assert_eq!(freshness.ttl, 60_000);

    let payload = build_payload(
        &registration,
        JwksDoc::parse(JWKS_BODY.to_vec()).expect("jwks"),
        freshness,
        None,
        None,
        now,
        now_wall,
    );
    assert_eq!(payload.expires_at, now + 60_000);
    assert_eq!(payload.next_refresh_at, payload.expires_at - registration.refresh_early);
    assert_eq!(payload.stale_deadline, Some(payload.expires_at + registration.stale_while_error));
    assert_eq!(payload.error_count, 0);
}

#[test]
fn jittered_refresh_schedule_stays_in_window() {
    let mut registration = make_registration();
    registration.min_ttl = 30_000;
    registration.max_ttl = 120_000;
    registration.refresh_early = 30_000;
    registration.prefetch_jitter = 5_000;

    let now: u64 = 500_000;
    let now_wall = now_wall_ms();
    for _ in 0..50 {
        let request = jwks_cache::semantics::base_request(&registration);
        let response = ResponseParts {
            status: 200,
            headers: vec![("cache-control".to_owned(), "public, max-age=60".to_owned())],
        };
        let exchange = HttpExchange::new(request, response, 4);
        let freshness = evaluate_freshness(&registration, &exchange, now_wall).expect("freshness");
        let payload = build_payload(
            &registration,
            JwksDoc::parse(JWKS_BODY.to_vec()).expect("jwks"),
            freshness,
            None,
            None,
            now,
            now_wall,
        );
        let base = payload.expires_at - registration.refresh_early;
        assert!(payload.next_refresh_at <= base);
        assert!(payload.next_refresh_at >= base - registration.prefetch_jitter);
        assert!(payload.next_refresh_at >= now);
    }
}

#[test]
fn publication_ttl_stays_within_bounds() {
    let mut registration = make_registration();
    registration.min_ttl = 30_000;
    registration.max_ttl = 90_000;
    let now: u64 = 42_000;
    let now_wall = now_wall_ms();

    for max_age in ["1", "60", "86400"] {
        let request = jwks_cache::semantics::base_request(&registration);
        let mut header = String::from("public, max-age=");
        header.push_str(max_age);
        let response = ResponseParts {
            status: 200,
            headers: vec![("cache-control".to_owned(), header)],
        };
        let exchange = HttpExchange::new(request, response, 4);
        let freshness = evaluate_freshness(&registration, &exchange, now_wall).expect("freshness");
        let payload = build_payload(
            &registration,
            JwksDoc::parse(JWKS_BODY.to_vec()).expect("jwks"),
            freshness,
            None,
            None,
            now,
            now_wall,
        );
        let lifetime = payload.expires_at - now;
        assert!(lifetime >= registration.min_ttl);
        assert!(lifetime <= registration.max_ttl);
    }
}

#[test]
fn begin_fetch_from_refreshing_state_keeps_single_flight() {
    let registration = make_registration();
    let mut entry = CacheEntry::new("tenant-a".to_owned(), "auth0".to_owned());
    let now: u64 = 1_000_000;
    let now_wall = now_wall_ms();

    let (existing, mode) = begin_fetch(&mut entry, now);
    let request = match prepare_request(&registration, existing.as_ref(), true, now_wall) {
        PreparedRequest::Send(req) => req,
        PreparedRequest::UseCached { .. } => panic!("an empty entry cannot serve from cache"),
    };
    let payload = run_fetch(
        &registration,
        existing.as_ref(),
        request,
        200,
        vec![("cache-control".to_owned(), "public, max-age=60".to_owned())],
        Some(JWKS_BODY.to_vec()),
        now,
        now_wall,
    )
    .expect("initial fetch");
    commit_success(&mut entry, mode, payload);

    // Promote to refreshing, then observe that a second promotion attempt
    // coalesces: the entry stays in a single in-flight refresh.
    assert!(entry.begin_refresh(now + 60_000));
    assert!(matches!(entry.state(), CacheState::Refreshing(_)));
    assert!(!entry.begin_refresh(now + 60_000));
    let (_, mode) = begin_fetch(&mut entry, now + 60_000);
    assert_eq!(mode, FetchMode::Refresh);
    assert!(matches!(entry.state(), CacheState::Refreshing(_)));
}
