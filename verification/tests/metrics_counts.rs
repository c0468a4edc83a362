//! Telemetry bookkeeping and the status projection.

use jwks_cache::entry::CacheEntry;
use jwks_cache::jwks::JwksDoc;
use jwks_cache::manager::{RefreshOutcome, observe_outcome};
use jwks_cache::metrics::ProviderMetrics;
use jwks_cache::registry::{IdentityProviderRegistration, ProviderRecord, ProviderState};

const EMPTY_JWKS: &[u8] = b"{\"keys\": []}";

#[test]
fn records_hits_misses_and_stale_counts() {
    let mut metrics = ProviderMetrics::new();
    metrics.record_hit(false);
    metrics.record_hit(true);
    metrics.record_miss();

    let snapshot = metrics.snapshot();
    assert_eq!(snapshot.total_requests, 3);
    assert_eq!(snapshot.cache_hits, 2);
    assert_eq!(snapshot.stale_serves, 1);
}

#[test]
fn records_refresh_success_and_errors() {
    let mut metrics = ProviderMetrics::new();
    metrics.record_refresh_success(20_000);
    metrics.record_refresh_error();

    let snapshot = metrics.snapshot();
    assert_eq!(snapshot.refresh_successes, 1);
    assert_eq!(snapshot.refresh_errors, 1);
    assert_eq!(snapshot.last_refresh_micros, Some(20_000), "refresh duration recorded");
}

#[test]
fn outcome_accounting_maps_to_hit_miss_and_stale() {
    let doc = JwksDoc::parse(EMPTY_JWKS.to_vec()).expect("jwks");

    let mut metrics = ProviderMetrics::new();
    observe_outcome(&mut metrics, &RefreshOutcome::Updated { jwks: doc.clone(), from_cache: true });
    observe_outcome(
        &mut metrics,
        &RefreshOutcome::Updated { jwks: doc.clone(), from_cache: false },
    );
    observe_outcome(&mut metrics, &RefreshOutcome::Stale(doc));

    let snapshot = metrics.snapshot();
    assert_eq!(snapshot.total_requests, 3);
    assert_eq!(snapshot.cache_hits, 2);
    assert_eq!(snapshot.stale_serves, 1);
}

#[test]
fn status_projection_carries_counters_and_state() {
    let registration = IdentityProviderRegistration::new(
        "tenant-b".to_owned(),
        "provider-2".to_owned(),
        "https://keys.example.com/jwks.json",
    )
    .expect("registration");
    let entry = CacheEntry::new("tenant-b".to_owned(), "provider-2".to_owned());
    let mut metrics = ProviderMetrics::new();
    metrics.record_hit(false);
    metrics.record_refresh_error();

    let record = ProviderRecord { registration, entry, metrics };
    let status = record.status(1_000, 1_700_000_000_000);

    assert_eq!(status.tenant_id, "tenant-b");
    assert_eq!(status.provider_id, "provider-2");
    assert_eq!(status.state, ProviderState::Empty);
    assert_eq!(status.total_requests, 1);
    assert_eq!(status.cache_hits, 1);

    let names: Vec<&str> = status.metrics.iter().map(|m| m.name.as_str()).collect();
    assert!(names.contains(&"jwks_cache_requests_total"));
    assert!(names.contains(&"jwks_cache_hits_total"));
    assert!(names.contains(&"jwks_cache_stale_total"));
    assert!(names.contains(&"jwks_cache_refresh_errors_total"));
    let hits = status
        .metrics
        .iter()
        .find(|m| m.name == "jwks_cache_hits_total")
        .expect("hits sample");
    assert_eq!(hits.value, 1);
    assert_eq!(hits.tenant, "tenant-b");
    assert_eq!(hits.provider, "provider-2");
}
