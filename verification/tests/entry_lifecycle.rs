//! Lifecycle transitions of the cache entry state machine.

use jwks_cache::client::{HttpExchange, RequestParts, ResponseParts};
use jwks_cache::entry::{CacheEntry, RefreshTrigger};
use jwks_cache::jwks::JwksDoc;
use jwks_cache::registry::IdentityProviderRegistration;
use jwks_cache::semantics::evaluate_freshness;
use jwks_cache::state::{CachePayload, CacheState};

const EMPTY_JWKS: &[u8] = b"{\"keys\": []}";

fn now_wall_ms() -> i64 {
    std::time::SystemTime::now()
        .duration_since(std::time::UNIX_EPOCH)
        .expect("clock")
        .as_millis() as i64
}

fn make_registration() -> IdentityProviderRegistration {
    IdentityProviderRegistration::new(
        "tenant".to_owned(),
        "provider".to_owned(),
        "https://example.com/.well-known/jwks.json",
    )
    .expect("registration")
}

fn sample_payload(now: u64) -> CachePayload {
    let registration = make_registration();
    let request = RequestParts {
        method: "GET".to_owned(),
        uri: registration.jwks_url.serialized.clone(),
        headers: vec![("accept".to_owned(), "application/json".to_owned())],
    };
    let response = ResponseParts { status: 200, headers: Vec::new() };
    let exchange = HttpExchange::new(request, response, 5);
    let freshness = evaluate_freshness(&registration, &exchange, now_wall_ms()).expect("freshness");

    CachePayload {
        jwks: JwksDoc::parse(EMPTY_JWKS.to_vec()).expect("jwks"),
        policy: freshness.policy,
        etag: Some("v1".to_owned()),
        last_modified: None,
        last_refresh_at: now_wall_ms(),
        expires_at: now + 60_000,
        next_refresh_at: now + 30_000,
        stale_deadline: Some(now + 120_000),
        retry_backoff: None,
        error_count: 0,
    }
}

#[test]
fn load_success_moves_entry_into_ready_state() {
    let mut entry = CacheEntry::new("tenant".to_owned(), "provider".to_owned());

    assert!(matches!(entry.state(), CacheState::Empty));
    assert!(entry.begin_load());

    let now: u64 = 1_000_000;
    let payload = sample_payload(now);

    entry.load_success(payload.clone());

    match entry.state() {
        CacheState::Ready(meta) => {
            assert_eq!(meta.etag.as_deref(), Some("v1"));
            assert_eq!(meta.error_count, 0);
            assert!(meta.expires_at > now);
        },
        other => panic!("expected Ready state, got {:?}", other),
    }
}

#[test]
fn begin_refresh_moves_ready_to_refreshing() {
    let mut entry = CacheEntry::new("tenant".to_owned(), "provider".to_owned());

    entry.begin_load();

    let now: u64 = 1_000_000;

    entry.load_success(sample_payload(now));

    assert!(entry.begin_refresh(now + 31_000));
    matches!(entry.state(), CacheState::Refreshing(_));
}

#[test]
fn refresh_failure_without_stale_deadline_clears_entry() {
    let mut entry = CacheEntry::new("tenant".to_owned(), "provider".to_owned());

    entry.begin_load();

    let now: u64 = 1_000_000;
    let mut payload = sample_payload(now);

    payload.stale_deadline = None;
    entry.load_success(payload);

    assert!(entry.begin_refresh(now + 31_000));

    entry.refresh_failure(now + 90_000, None);

    assert!(matches!(entry.state(), CacheState::Empty));
}

#[test]
fn refresh_failure_within_stale_window_keeps_payload_and_bumps_errors() {
    let mut entry = CacheEntry::new("tenant".to_owned(), "provider".to_owned());
    entry.begin_load();

    let now: u64 = 1_000_000;
    entry.load_success(sample_payload(now));
    assert!(entry.begin_refresh(now + 31_000));

    entry.refresh_failure(now + 70_000, Some(500));

    match entry.state() {
        CacheState::Ready(meta) => {
            assert_eq!(meta.error_count, 1);
            assert_eq!(meta.retry_backoff, Some(500));
            assert_eq!(meta.next_refresh_at, now + 70_000 + 500);
        },
        other => panic!("expected Ready state, got {:?}", other),
    }
}

#[test]
fn begin_refresh_refused_before_schedule_and_from_not_ready_states() {
    let mut entry = CacheEntry::new("tenant".to_owned(), "provider".to_owned());
    let now: u64 = 1_000_000;

    assert!(!entry.begin_refresh(now));
    entry.begin_load();
    assert!(!entry.begin_refresh(now));
    entry.load_success(sample_payload(now));
    assert!(!entry.begin_refresh(now + 29_999));
    assert!(entry.begin_refresh(now + 30_000));
    assert!(!entry.begin_refresh(now + 40_000));
}

#[test]
fn trigger_refresh_coalesces_inflight_work() {
    let mut entry = CacheEntry::new("tenant".to_owned(), "provider".to_owned());
    let now: u64 = 1_000_000;

    assert_eq!(entry.trigger_refresh_decision(), RefreshTrigger::Blocking);
    assert!(matches!(entry.state(), CacheState::Loading));
    for _ in 0..9 {
        assert_eq!(entry.trigger_refresh_decision(), RefreshTrigger::Skip);
    }
    assert!(!entry.begin_load());
    assert!(!entry.begin_refresh(now));
    assert!(matches!(entry.state(), CacheState::Loading));

    entry.load_success(sample_payload(now));
    assert_eq!(entry.trigger_refresh_decision(), RefreshTrigger::Background);
    assert!(matches!(entry.state(), CacheState::Refreshing(_)));
    assert_eq!(entry.trigger_refresh_decision(), RefreshTrigger::Skip);
}

#[test]
fn invalidate_empties_from_any_state() {
    let mut entry = CacheEntry::new("tenant".to_owned(), "provider".to_owned());
    let now: u64 = 1_000_000;
    entry.begin_load();
    entry.load_success(sample_payload(now));
    entry.invalidate();
    assert!(matches!(entry.state(), CacheState::Empty));
    assert!(entry.snapshot().is_none());
}
