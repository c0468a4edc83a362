//! Registry operations: registration, allowlist enforcement, status.

use jwks_cache::error::Error;
use jwks_cache::registry::{
    DEFAULT_REFRESH_EARLY, IdentityProviderRegistration, PersistentSnapshot, ProviderState,
    Registry,
};

fn now_wall_ms() -> i64 {
    std::time::SystemTime::now()
        .duration_since(std::time::UNIX_EPOCH)
        .expect("clock")
        .as_millis() as i64
}

fn make_registration(tenant: &str, provider: &str, url: &str) -> IdentityProviderRegistration {
    IdentityProviderRegistration::new(tenant.to_owned(), provider.to_owned(), url)
        .expect("registration")
}

#[test]
fn register_lookup_status_and_unregister() {
    let mut registry = Registry::builder().add_allowed_domain("example.com".to_owned()).build();

    let reg = make_registration("tenant-a", "primary", "https://keys.example.com/jwks.json");
    registry.register(reg).expect("register");

    assert!(registry.find_provider("tenant-a", "primary").is_some());
    assert!(registry.find_provider("tenant-a", "other").is_none());

    let status = registry
        .provider_status("tenant-a", "primary", 1_000, now_wall_ms())
        .expect("status");
    assert_eq!(status.tenant_id, "tenant-a");
    assert_eq!(status.provider_id, "primary");
    assert_eq!(status.state, ProviderState::Empty);
    assert!(status.last_refresh.is_none());
    assert_eq!(status.error_count, 0);
    assert!(status.metrics.iter().any(|m| m.name == "jwks_cache_hits_total"));

    let statuses = registry.all_statuses(1_000, now_wall_ms());
    assert_eq!(statuses.len(), 1, "expected one provider status");

    assert!(registry.unregister("tenant-a", "primary").expect("unregister"));
    assert!(!registry.unregister("tenant-a", "primary").expect("unregister"));
    let err = registry
        .provider_status("tenant-a", "primary", 1_000, now_wall_ms())
        .unwrap_err();
    assert!(matches!(err, Error::NotRegistered { .. }));
}

#[test]
fn allowlist_rejection_leaves_registry_unchanged() {
    let mut registry = Registry::builder().add_allowed_domain("trusted.example".to_owned()).build();

    let blocked = make_registration("tenant-c", "blocked", "https://untrusted.example.com/jwks.json");
    let result = registry.register(blocked);
    assert!(
        matches!(result, Err(Error::Security(_)) | Err(Error::Validation { .. })),
        "registration should fail due to allowlist enforcement"
    );
    assert_eq!(registry.providers.len(), 0, "the registry map must be unchanged");
}

#[test]
fn https_mismatch_with_registry_policy_is_a_security_error() {
    let mut registry = Registry::new();
    let reg = make_registration("tenant-a", "primary", "https://keys.example.com/jwks.json")
        .with_require_https(false);
    let result = registry.register(reg);
    assert!(matches!(result, Err(Error::Security(_))));
    assert_eq!(registry.providers.len(), 0);
}

#[test]
fn refresh_early_must_be_less_than_max_ttl() {
    let mut reg = make_registration("tenant-a", "primary", "https://keys.example.com/jwks.json");
    reg.refresh_early = reg.max_ttl;
    let err = reg.validate();
    assert!(matches!(err, Err(Error::Validation { .. })));
}

#[test]
fn identifier_charset_and_length_are_enforced() {
    let reg = make_registration("bad tenant", "primary", "https://keys.example.com/jwks.json");
    assert!(matches!(reg.validate(), Err(Error::Validation { .. })));
    let reg = make_registration("tenant", "bad provider!", "https://keys.example.com/jwks.json");
    assert!(matches!(reg.validate(), Err(Error::Validation { .. })));
    let long = "x".repeat(65);
    let reg = make_registration(&long, "primary", "https://keys.example.com/jwks.json");
    assert!(matches!(reg.validate(), Err(Error::Validation { .. })));
    let reg = make_registration("tenant", "prov_id-1", "https://keys.example.com/jwks.json");
    assert!(reg.validate().is_ok());
}

#[test]
fn url_without_host_is_rejected() {
    let reg = IdentityProviderRegistration::new(
        "tenant".to_owned(),
        "provider".to_owned(),
        "data:text/plain,hello",
    );
    match reg {
        Ok(reg) => {
            let reg = reg.with_require_https(false);
            assert!(matches!(reg.validate(), Err(Error::Validation { .. })));
        },
        Err(e) => assert!(matches!(e, Error::Url(_))),
    }
}

#[test]
fn reregistration_after_unregister_matches_fresh_manager() {
    let mut registry = Registry::builder().add_allowed_domain("example.com".to_owned()).build();
    let url = "https://keys.example.com/jwks.json";

    registry.register(make_registration("tenant-a", "primary", url)).expect("first register");
    assert!(registry.unregister("tenant-a", "primary").expect("unregister"));
    registry.register(make_registration("tenant-a", "primary", url)).expect("second register");

    let status = registry
        .provider_status("tenant-a", "primary", 1_000, now_wall_ms())
        .expect("status");
    assert_eq!(status.state, ProviderState::Empty);
    assert_eq!(status.total_requests, 0);
    assert_eq!(status.cache_hits, 0);
    assert_eq!(status.error_count, 0);
    assert_eq!(registry.providers.len(), 1);
}

#[test]
fn registration_inherits_registry_defaults() {
    let mut registry = Registry::builder()
        .require_https(false)
        .default_refresh_early(45_000)
        .default_stale_while_error(90_000)
        .add_allowed_domain("example.com".to_owned())
        .build();

    let mut reg = make_registration("tenant-a", "primary", "https://keys.example.com/jwks.json");
    assert_eq!(reg.refresh_early, DEFAULT_REFRESH_EARLY);
    reg.allowed_domains = Vec::new();
    registry.register(reg).expect("register");

    let stored = &registry.providers[0].registration;
    assert_eq!(stored.refresh_early, 45_000);
    assert_eq!(stored.stale_while_error, 90_000);
    assert_eq!(stored.allowed_domains, vec!["example.com".to_owned()]);
}

#[test]
fn replacing_a_registration_keeps_one_record_per_key() {
    let mut registry = Registry::builder().add_allowed_domain("example.com".to_owned()).build();
    let url = "https://keys.example.com/jwks.json";
    registry.register(make_registration("tenant-a", "primary", url)).expect("register");
    let mut second = make_registration("tenant-a", "primary", url);
    second.max_response_bytes = 2048;
    registry.register(second).expect("replace");
    assert_eq!(registry.providers.len(), 1);
    assert_eq!(registry.providers[0].registration.max_response_bytes, 2048);
}

#[test]
fn snapshot_validation_rejects_each_bad_field() {
    let reg = make_registration("tenant-a", "primary", "https://keys.example.com/jwks.json");
    let good = PersistentSnapshot {
        tenant_id: "tenant-a".to_owned(),
        provider_id: "primary".to_owned(),
        jwks_json: "{\"keys\": []}".to_owned(),
        etag: Some("\"v1\"".to_owned()),
        last_modified: None,
        expires_at: 2_000,
        persisted_at: 1_000,
    };
    assert!(good.validate(&reg).is_ok());

    let mut bad = good.clone();
    bad.tenant_id = "someone-else".to_owned();
    assert!(matches!(bad.validate(&reg), Err(Error::Validation { .. })));

    let mut bad = good.clone();
    bad.provider_id = "someone-else".to_owned();
    assert!(matches!(bad.validate(&reg), Err(Error::Validation { .. })));

    let mut bad = good.clone();
    bad.expires_at = 999;
    assert!(matches!(bad.validate(&reg), Err(Error::Validation { .. })));

    let mut bad = good.clone();
    bad.etag = Some("\u{e9}tag".to_owned());
    assert!(matches!(bad.validate(&reg), Err(Error::Validation { .. })));

    let mut small_reg = make_registration("tenant-a", "primary", "https://keys.example.com/jwks.json");
    small_reg.max_response_bytes = 4;
    assert!(matches!(good.validate(&small_reg), Err(Error::Validation { .. })));
}
