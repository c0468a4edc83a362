//! Persisting a cached payload and restoring it.

use jwks_cache::client::{HttpExchange, ResponseParts, classify_response};
use jwks_cache::entry::CacheEntry;
use jwks_cache::error::Error;
use jwks_cache::manager::{
    CacheSnapshot, begin_fetch, commit_restored, commit_success, payload_from_fetch,
    persistent_snapshot, restore_payload,
};
use jwks_cache::registry::{IdentityProviderRegistration, PersistentSnapshot};
use jwks_cache::semantics::base_request;
use jwks_cache::state::CacheState;

const JWKS_BODY: &[u8] = b"{\"keys\": [{\"kty\": \"oct\", \"kid\": \"primary\", \"k\": \"c2VjcmV0\"}]}";

fn make_registration() -> IdentityProviderRegistration {
    let mut registration = IdentityProviderRegistration::new(
        "tenant-a".to_owned(),
        "primary".to_owned(),
        "https://keys.example.com/jwks.json",
    )
    .expect("registration");
    registration.prefetch_jitter = 0;
    registration
}

#[test]
fn persist_restore_reproduces_payload_fields() {
    let registration = make_registration();
    let mut entry = CacheEntry::new("tenant-a".to_owned(), "primary".to_owned());
    let now: u64 = 1_000_000;
    let now_wall: i64 = 1_700_000_000_000;

    let (existing, mode) = begin_fetch(&mut entry, now);
    let fetch = classify_response(
        registration.jwks_url.serialized.as_str(),
        base_request(&registration),
        200,
        vec![
            ("cache-control".to_owned(), "public, max-age=60".to_owned()),
            ("etag".to_owned(), "\"v7\"".to_owned()),
            ("last-modified".to_owned(), "Wed, 21 Oct 2015 07:28:00 GMT".to_owned()),
        ],
        Some(JWKS_BODY.to_vec()),
        5,
        registration.max_response_bytes,
    )
    .expect("classify");
    let payload = payload_from_fetch(&registration, existing.as_ref(), fetch, now, now_wall)
        .expect("payload");
    let expires_at = payload.expires_at;
    commit_success(&mut entry, mode, payload);

    // Persist.
    let snapshot = CacheSnapshot::capture(&entry, now, now_wall);
    let persisted = persistent_snapshot(&registration, &snapshot, now_wall)
        .expect("snapshot")
        .expect("payload present");
    assert_eq!(persisted.tenant_id, "tenant-a");
    assert_eq!(persisted.provider_id, "primary");
    assert_eq!(persisted.jwks_json.as_bytes(), JWKS_BODY);
    assert_eq!(persisted.etag.as_deref(), Some("\"v7\""));
    assert_eq!(persisted.last_modified, Some(1_445_412_480_000));
    assert_eq!(persisted.expires_at, now_wall + (expires_at - now) as i64);
    assert_eq!(persisted.persisted_at, now_wall);

    // Restore into a fresh entry.
    let restore_now: u64 = 50_000;
    let restored = restore_payload(&registration, &persisted, restore_now).expect("restore");
    assert_eq!(restored.jwks.json().as_slice(), JWKS_BODY);
    assert_eq!(restored.etag.as_deref(), Some("\"v7\""));
    assert_eq!(restored.last_modified, Some(1_445_412_480_000));
    assert_eq!(restored.last_refresh_at, now_wall);
    assert_eq!(restored.error_count, 0);
    // The snapshot's remaining life (60 s) sits inside the TTL bounds, so
    // the restored expiry keeps it exactly.
    assert_eq!(restored.expires_at, restore_now + 60_000);

    let mut fresh = CacheEntry::new("tenant-a".to_owned(), "primary".to_owned());
    commit_restored(&mut fresh, restored);
    assert!(matches!(fresh.state(), CacheState::Ready(_)));
}

#[test]
fn empty_entry_yields_no_snapshot() {
    let registration = make_registration();
    let entry = CacheEntry::new("tenant-a".to_owned(), "primary".to_owned());
    let snapshot = CacheSnapshot::capture(&entry, 1_000, 1_700_000_000_000);
    let persisted = persistent_snapshot(&registration, &snapshot, 1_700_000_000_000)
        .expect("snapshot");
    assert!(persisted.is_none());
}

#[test]
fn restore_clamps_remaining_life_into_ttl_bounds() {
    let registration = make_registration();
    let snapshot = PersistentSnapshot {
        tenant_id: "tenant-a".to_owned(),
        provider_id: "primary".to_owned(),
        jwks_json: String::from_utf8(JWKS_BODY.to_vec()).expect("utf8"),
        etag: None,
        last_modified: None,
        // Only five seconds of life left: floored to min_ttl.
        expires_at: 1_700_000_005_000,
        persisted_at: 1_700_000_000_000,
    };
    let restored = restore_payload(&registration, &snapshot, 10_000).expect("restore");
    assert_eq!(restored.expires_at, 10_000 + registration.min_ttl);
}

#[test]
fn restore_rejects_invalid_snapshots() {
    let registration = make_registration();
    let mismatched = PersistentSnapshot {
        tenant_id: "someone-else".to_owned(),
        provider_id: "primary".to_owned(),
        jwks_json: String::from_utf8(JWKS_BODY.to_vec()).expect("utf8"),
        etag: None,
        last_modified: None,
        expires_at: 2_000,
        persisted_at: 1_000,
    };
    assert!(matches!(
        restore_payload(&registration, &mismatched, 0),
        Err(Error::Validation { .. })
    ));

    let garbage = PersistentSnapshot {
        tenant_id: "tenant-a".to_owned(),
        provider_id: "primary".to_owned(),
        jwks_json: "not json".to_owned(),
        etag: None,
        last_modified: None,
        expires_at: 2_000,
        persisted_at: 1_000,
    };
    assert!(matches!(restore_payload(&registration, &garbage, 0), Err(Error::Serde(_))));
}

#[test]
fn pre_epoch_last_modified_restores_without_a_date_header() {
    let registration = make_registration();
    let snapshot = PersistentSnapshot {
        tenant_id: "tenant-a".to_owned(),
        provider_id: "primary".to_owned(),
        jwks_json: String::from_utf8(JWKS_BODY.to_vec()).expect("utf8"),
        etag: None,
        last_modified: Some(-1),
        expires_at: 1_700_000_060_000,
        persisted_at: 1_700_000_000_000,
    };
    let restored = restore_payload(&registration, &snapshot, 10_000).expect("restore");
    // The unrepresentable timestamp is kept as payload metadata; it simply
    // contributes no last-modified header to the synthetic response.
    assert_eq!(restored.last_modified, Some(-1));
    assert_eq!(restored.expires_at, 10_000 + 60_000);
}
