//! Provider registrations, their validation, and the tenant/provider
//! registry core.
//!
//! Durations are milliseconds (`u64`); wall-clock timestamps are epoch
//! milliseconds (`i64`).

use vstd::prelude::*;

use crate::clock::wall_of_instant;
use crate::entry::CacheEntry;
use crate::state::CacheState;
use crate::error::Error;
use crate::error::JwksResult;
use crate::metrics::ProviderMetrics;
use crate::metrics::ProviderMetricsSnapshot;
use crate::retry::RetryPolicy;
use crate::security::SpkiFingerprint;
use crate::security::UrlParts;
use crate::security::canonical_dns;
use crate::security::canonicalize_dns_name;
use crate::security::enforce_https;
use crate::security::host_allowed;
use crate::security::host_is_allowed;
use crate::security::normalize_allowlist;
use crate::security::normalize_spec;
use crate::security::parse_url;
use crate::security::url_parse_of;
use crate::strutil::str_eq;

verus! {

/// Default refresh lead time before TTL expiry: 30 s.
pub const DEFAULT_REFRESH_EARLY: u64 = 30_000;

/// Default stale-while-error window: 60 s.
pub const DEFAULT_STALE_WHILE_ERROR: u64 = 60_000;

/// Minimum accepted TTL for upstream responses: 30 s.
pub const MIN_TTL_FLOOR: u64 = 30_000;

/// Default maximum TTL clamp: one day.
pub const DEFAULT_MAX_TTL: u64 = 86_400_000;

/// Default size guard (1 MiB).
pub const DEFAULT_MAX_RESPONSE_BYTES: u64 = 1_048_576;

/// Default prefetch jitter: 5 s.
pub const DEFAULT_PREFETCH_JITTER: u64 = 5_000;

/// Maximum redirect depth.
pub const MAX_REDIRECTS: u8 = 10;

/// Whether a character may appear in a tenant identifier.
pub open spec fn tenant_char(c: char) -> bool {
    ('A' <= c && c <= 'Z') || ('a' <= c && c <= 'z') || ('0' <= c && c <= '9') || c == '-'
}

/// Whether a character may appear in a provider identifier.
pub open spec fn provider_char(c: char) -> bool {
    tenant_char(c) || c == '_'
}

/// Tenant identifiers: 1 to 64 characters from `[A-Za-z0-9-]`.
pub open spec fn valid_tenant_id(s: Seq<char>) -> bool {
    0 < s.len() <= 64 && (forall|i: int| 0 <= i < s.len() ==> tenant_char(s[i]))
}

/// Provider identifiers: 1 to 64 characters from `[A-Za-z0-9_-]`.
pub open spec fn valid_provider_id(s: Seq<char>) -> bool {
    0 < s.len() <= 64 && (forall|i: int| 0 <= i < s.len() ==> provider_char(s[i]))
}

fn validate_tenant_id(value: &str) -> (r: JwksResult<()>)
    ensures
        r is Ok <==> valid_tenant_id(value@),
        r matches Err(e) ==> e is Validation,
{
    let n = value.unicode_len();
    if n == 0 {
        return Err(Error::Validation {
            field: "tenant_id".to_owned(),
            reason: "Must not be empty.".to_owned(),
        });
    }
    if n > 64 {
        return Err(Error::Validation {
            field: "tenant_id".to_owned(),
            reason: "Must be 64 characters or fewer.".to_owned(),
        });
    }
    let mut i: usize = 0;
    while i < n
        invariant
            0 <= i <= n,
            n == value@.len(),
            forall|k: int| 0 <= k < i ==> tenant_char(value@[k]),
        decreases n - i,
    {
        let c = value.get_char(i);
        let ok = ('A' <= c && c <= 'Z') || ('a' <= c && c <= 'z') || ('0' <= c && c <= '9') || c
            == '-';
        if !ok {
            return Err(Error::Validation {
                field: "tenant_id".to_owned(),
                reason: "May only contain ASCII letters, numbers, and '-'.".to_owned(),
            });
        }
        i += 1;
    }
    Ok(())
}

fn validate_provider_id(value: &str) -> (r: JwksResult<()>)
    ensures
        r is Ok <==> valid_provider_id(value@),
        r matches Err(e) ==> e is Validation,
{
    let n = value.unicode_len();
    if n == 0 {
        return Err(Error::Validation {
            field: "provider_id".to_owned(),
            reason: "Must not be empty.".to_owned(),
        });
    }
    if n > 64 {
        return Err(Error::Validation {
            field: "provider_id".to_owned(),
            reason: "Must be 64 characters or fewer.".to_owned(),
        });
    }
    let mut i: usize = 0;
    while i < n
        invariant
            0 <= i <= n,
            n == value@.len(),
            forall|k: int| 0 <= k < i ==> provider_char(value@[k]),
        decreases n - i,
    {
        let c = value.get_char(i);
        let ok = ('A' <= c && c <= 'Z') || ('a' <= c && c <= 'z') || ('0' <= c && c <= '9') || c
            == '-' || c == '_';
        if !ok {
            return Err(Error::Validation {
                field: "provider_id".to_owned(),
                reason: "May only contain ASCII letters, numbers, '-', or '_'.".to_owned(),
            });
        }
        i += 1;
    }
    Ok(())
}

/// Copy a vector of strings, preserving contents.
pub fn clone_strings(v: &Vec<String>) -> (r: Vec<String>)
    ensures
        r@ == v@,
{
    let mut out: Vec<String> = Vec::new();
    let mut i: usize = 0;
    while i < v.len()
        invariant
            0 <= i <= v.len(),
            out@.len() == i,
            forall|k: int| 0 <= k < i ==> out@[k] == v@[k],
        decreases v.len() - i,
    {
        out.push(v[i].clone());
        i += 1;
    }
    assert(out@ =~= v@);
    out
}

/// Copy a vector of fingerprints, preserving each fingerprint's bytes.
pub fn clone_pins(v: &Vec<SpkiFingerprint>) -> (r: Vec<SpkiFingerprint>)
    ensures
        r@.len() == v@.len(),
        forall|i: int| 0 <= i < v@.len() ==> r@[i]@ == v@[i]@,
{
    let mut out: Vec<SpkiFingerprint> = Vec::new();
    let mut i: usize = 0;
    while i < v.len()
        invariant
            0 <= i <= v.len(),
            out@.len() == i,
            forall|k: int| 0 <= k < i ==> out@[k]@ == v@[k]@,
        decreases v.len() - i,
    {
        out.push(v[i].clone());
        i += 1;
    }
    out
}

/// Internal key mapping tenants and providers.
#[derive(Debug)]
pub struct TenantProviderKey {
    /// Tenant identifier.
    pub tenant_id: String,
    /// Provider identifier within the tenant.
    pub provider_id: String,
}

impl Clone for TenantProviderKey {
    /// Field-preserving copy.
    fn clone(&self) -> (r: Self)
        ensures
            r == *self,
    {
        TenantProviderKey {
            tenant_id: self.tenant_id.clone(),
            provider_id: self.provider_id.clone(),
        }
    }
}

impl TenantProviderKey {
    /// Build a key from its parts.
    pub fn new(tenant_id: String, provider_id: String) -> (r: Self)
        ensures
            r.tenant_id == tenant_id,
            r.provider_id == provider_id,
    {
        TenantProviderKey { tenant_id, provider_id }
    }

    /// Whether this key names the given pair.
    pub fn matches_pair(&self, tenant_id: &str, provider_id: &str) -> (r: bool)
        ensures
            r == (self.tenant_id@ == tenant_id@ && self.provider_id@ == provider_id@),
    {
        str_eq(self.tenant_id.as_str(), tenant_id) && str_eq(self.provider_id.as_str(), provider_id)
    }
}

/// Registration describing how to fetch and maintain JWKS for a provider.
#[derive(Debug)]
pub struct IdentityProviderRegistration {
    /// Tenant identifier used for metrics, caching, and persistence scope.
    pub tenant_id: String,
    /// Provider identifier unique within the tenant.
    pub provider_id: String,
    /// Parsed URL of the JWKS endpoint to fetch signing keys from.
    pub jwks_url: UrlParts,
    /// Whether HTTPS is required for JWKS retrieval.
    pub require_https: bool,
    /// Optional suffix allowlist of domains permitted for the JWKS host.
    pub allowed_domains: Vec<String>,
    /// Lead time before expiry to trigger proactive refresh, milliseconds.
    pub refresh_early: u64,
    /// Window past expiry during which stale serving is allowed, milliseconds.
    pub stale_while_error: u64,
    /// Minimum TTL applied to upstream responses, milliseconds.
    pub min_ttl: u64,
    /// Maximum TTL applied to upstream responses, milliseconds.
    pub max_ttl: u64,
    /// Maximum size allowed for JWKS payloads in bytes.
    pub max_response_bytes: u64,
    /// TTL applied when persisting negative cache outcomes, milliseconds.
    pub negative_cache_ttl: u64,
    /// Maximum number of redirects to follow during fetch.
    pub max_redirects: u8,
    /// Optional SPKI fingerprints used for TLS pinning.
    pub pinned_spki: Vec<SpkiFingerprint>,
    /// Random jitter subtracted from scheduled refresh instants, milliseconds.
    pub prefetch_jitter: u64,
    /// Retry policy configuration for JWKS fetch attempts.
    pub retry_policy: RetryPolicy,
}

/// Contents equality of two registrations, field by field.
pub open spec fn same_registration(
    a: &IdentityProviderRegistration,
    b: &IdentityProviderRegistration,
) -> bool {
    &&& a.tenant_id == b.tenant_id
    &&& a.provider_id == b.provider_id
    &&& a.jwks_url == b.jwks_url
    &&& a.require_https == b.require_https
    &&& a.allowed_domains@ == b.allowed_domains@
    &&& a.refresh_early == b.refresh_early
    &&& a.stale_while_error == b.stale_while_error
    &&& a.min_ttl == b.min_ttl
    &&& a.max_ttl == b.max_ttl
    &&& a.max_response_bytes == b.max_response_bytes
    &&& a.negative_cache_ttl == b.negative_cache_ttl
    &&& a.max_redirects == b.max_redirects
    &&& a.pinned_spki@.len() == b.pinned_spki@.len()
    &&& (forall|i: int| 0 <= i < a.pinned_spki@.len() ==> a.pinned_spki@[i]@ == b.pinned_spki@[i]@)
    &&& a.prefetch_jitter == b.prefetch_jitter
    &&& a.retry_policy == b.retry_policy
}

impl Clone for IdentityProviderRegistration {
    /// Copy preserving every field's contents.
    fn clone(&self) -> (r: Self)
        ensures
            same_registration(&r, self),
    {
        IdentityProviderRegistration {
            tenant_id: self.tenant_id.clone(),
            provider_id: self.provider_id.clone(),
            jwks_url: self.jwks_url.clone(),
            require_https: self.require_https,
            allowed_domains: clone_strings(&self.allowed_domains),
            refresh_early: self.refresh_early,
            stale_while_error: self.stale_while_error,
            min_ttl: self.min_ttl,
            max_ttl: self.max_ttl,
            max_response_bytes: self.max_response_bytes,
            negative_cache_ttl: self.negative_cache_ttl,
            max_redirects: self.max_redirects,
            pinned_spki: clone_pins(&self.pinned_spki),
            prefetch_jitter: self.prefetch_jitter,
            retry_policy: self.retry_policy,
        }
    }
}

impl IdentityProviderRegistration {
    /// The documented constraints on a registration.
    pub open spec fn reg_wf(&self) -> bool {
        &&& valid_tenant_id(self.tenant_id@)
        &&& valid_provider_id(self.provider_id@)
        &&& (self.require_https ==> self.jwks_url.scheme@ == "https"@)
        &&& match self.jwks_url.host {
            Some(h) => host_allowed(h@, self.allowed_domains.deep_view()),
            None => false,
        }
        &&& self.refresh_early >= 1000
        &&& self.min_ttl >= MIN_TTL_FLOOR
        &&& self.max_ttl >= self.min_ttl
        &&& self.refresh_early < self.max_ttl
        &&& self.max_response_bytes > 0
        &&& self.max_redirects <= MAX_REDIRECTS
        &&& (self.negative_cache_ttl == 0 || self.negative_cache_ttl >= 1000)
        &&& self.retry_policy.wf()
        &&& (forall|i: int|
            0 <= i < self.allowed_domains.deep_view().len() ==> canonical_dns(
                #[trigger] self.allowed_domains.deep_view()[i],
            ) == Some(self.allowed_domains.deep_view()[i]))
    }

    /// Construct a new registration with default cache settings.
    pub fn new(tenant_id: String, provider_id: String, jwks_url: &str) -> (r: JwksResult<Self>)
        ensures
            r is Ok <==> url_parse_of(jwks_url@) is Some,
            r matches Ok(reg) ==> {
                &&& reg.tenant_id == tenant_id
                &&& reg.provider_id == provider_id
                &&& ({
                    let t = url_parse_of(jwks_url@)->Some_0;
                    &&& reg.jwks_url.serialized@ == t.0
                    &&& reg.jwks_url.scheme@ == t.1
                    &&& (reg.jwks_url.host matches Some(h) ==> t.2 == Some(h@))
                    &&& (reg.jwks_url.host is None <==> t.2 is None)
                })
                &&& reg.require_https == true
                &&& reg.allowed_domains@.len() == 0
                &&& reg.refresh_early == DEFAULT_REFRESH_EARLY
                &&& reg.stale_while_error == DEFAULT_STALE_WHILE_ERROR
                &&& reg.min_ttl == MIN_TTL_FLOOR
                &&& reg.max_ttl == DEFAULT_MAX_TTL
                &&& reg.max_response_bytes == DEFAULT_MAX_RESPONSE_BYTES
                &&& reg.negative_cache_ttl == 0
                &&& reg.max_redirects == 3
                &&& reg.pinned_spki@.len() == 0
                &&& reg.prefetch_jitter == DEFAULT_PREFETCH_JITTER
                &&& reg.retry_policy == RetryPolicy {
                    max_retries: 2,
                    attempt_timeout: 3000,
                    initial_backoff: 250,
                    max_backoff: 2000,
                    deadline: 8000,
                    jitter: crate::retry::JitterStrategy::Full,
                }
            },
            r matches Err(e) ==> e is Url,
    {
        let jwks_url = parse_url(jwks_url)?;
        Ok(IdentityProviderRegistration {
            tenant_id,
            provider_id,
            jwks_url,
            require_https: true,
            allowed_domains: Vec::new(),
            refresh_early: DEFAULT_REFRESH_EARLY,
            stale_while_error: DEFAULT_STALE_WHILE_ERROR,
            min_ttl: MIN_TTL_FLOOR,
            max_ttl: DEFAULT_MAX_TTL,
            max_response_bytes: DEFAULT_MAX_RESPONSE_BYTES,
            negative_cache_ttl: 0,
            max_redirects: 3,
            pinned_spki: Vec::new(),
            prefetch_jitter: DEFAULT_PREFETCH_JITTER,
            retry_policy: RetryPolicy::default(),
        })
    }

    /// Canonicalise the domain allowlist in place.
    pub fn normalize_allowed_domains(&mut self)
        ensures
            final(self).allowed_domains.deep_view() == normalize_spec(
                old(self).allowed_domains.deep_view(),
            ),
            final(self).tenant_id == old(self).tenant_id,
            final(self).provider_id == old(self).provider_id,
            final(self).jwks_url == old(self).jwks_url,
            final(self).require_https == old(self).require_https,
            final(self).refresh_early == old(self).refresh_early,
            final(self).stale_while_error == old(self).stale_while_error,
            final(self).min_ttl == old(self).min_ttl,
            final(self).max_ttl == old(self).max_ttl,
            final(self).max_response_bytes == old(self).max_response_bytes,
            final(self).negative_cache_ttl == old(self).negative_cache_ttl,
            final(self).max_redirects == old(self).max_redirects,
            final(self).pinned_spki == old(self).pinned_spki,
            final(self).prefetch_jitter == old(self).prefetch_jitter,
            final(self).retry_policy == old(self).retry_policy,
    {
        let mut domains: Vec<String> = Vec::new();
        std::mem::swap(&mut domains, &mut self.allowed_domains);
        self.allowed_domains = normalize_allowlist(domains);
    }

    /// Set the HTTPS requirement to the desired value.
    pub fn with_require_https(self, require_https: bool) -> (r: Self)
        ensures
            r.require_https == require_https,
            r.tenant_id == self.tenant_id,
            r.provider_id == self.provider_id,
            r.jwks_url == self.jwks_url,
            r.allowed_domains == self.allowed_domains,
            r.refresh_early == self.refresh_early,
            r.stale_while_error == self.stale_while_error,
            r.min_ttl == self.min_ttl,
            r.max_ttl == self.max_ttl,
            r.max_response_bytes == self.max_response_bytes,
            r.negative_cache_ttl == self.negative_cache_ttl,
            r.max_redirects == self.max_redirects,
            r.pinned_spki == self.pinned_spki,
            r.prefetch_jitter == self.prefetch_jitter,
            r.retry_policy == self.retry_policy,
    {
        IdentityProviderRegistration { require_https, ..self }
    }

    /// Validate the registration against the documented constraints.
    pub fn validate(&self) -> (r: JwksResult<()>)
        ensures
            r is Ok <==> self.reg_wf(),
            r matches Err(e) ==> e is Validation || e is Security,
    {
        validate_tenant_id(self.tenant_id.as_str())?;
        validate_provider_id(self.provider_id.as_str())?;
        if self.require_https {
            enforce_https(&self.jwks_url)?;
        }
        match &self.jwks_url.host {
            Some(host) => {
                if !host_is_allowed(host.as_str(), &self.allowed_domains) {
                    return Err(Error::Validation {
                        field: "jwks_url".to_owned(),
                        reason: "Host is not within the allowed_domains allowlist.".to_owned(),
                    });
                }
            },
            None => {
                return Err(Error::Validation {
                    field: "jwks_url".to_owned(),
                    reason: "Must include a host component.".to_owned(),
                });
            },
        }
        if self.refresh_early < 1000 {
            return Err(Error::Validation {
                field: "refresh_early".to_owned(),
                reason: "Must be at least 1 second.".to_owned(),
            });
        }
        if self.min_ttl < MIN_TTL_FLOOR {
            return Err(Error::Validation {
                field: "min_ttl".to_owned(),
                reason: "Must be at least the 30 second floor.".to_owned(),
            });
        }
        if self.max_ttl < self.min_ttl {
            return Err(Error::Validation {
                field: "max_ttl".to_owned(),
                reason: "Must be greater than or equal to min_ttl.".to_owned(),
            });
        }
        if self.refresh_early >= self.max_ttl {
            return Err(Error::Validation {
                field: "refresh_early".to_owned(),
                reason: "Must be less than max_ttl.".to_owned(),
            });
        }
        if self.max_response_bytes == 0 {
            return Err(Error::Validation {
                field: "max_response_bytes".to_owned(),
                reason: "Must be greater than zero.".to_owned(),
            });
        }
        if self.max_redirects > MAX_REDIRECTS {
            return Err(Error::Validation {
                field: "max_redirects".to_owned(),
                reason: "Must be less than or equal to the redirect cap.".to_owned(),
            });
        }
        if self.negative_cache_ttl != 0 && self.negative_cache_ttl < 1000 {
            return Err(Error::Validation {
                field: "negative_cache_ttl".to_owned(),
                reason: "Must be zero or at least one second.".to_owned(),
            });
        }
        self.retry_policy.validate()?;
        let ghost doms = self.allowed_domains.deep_view();
        let mut i: usize = 0;
        while i < self.allowed_domains.len()
            invariant
                0 <= i <= self.allowed_domains.len(),
                doms == self.allowed_domains.deep_view(),
                doms.len() == self.allowed_domains.len(),
                forall|k: int| 0 <= k < doms.len() ==> doms[k] == self.allowed_domains@[k]@,
                forall|k: int| 0 <= k < i ==> canonical_dns(#[trigger] doms[k]) == Some(doms[k]),
            decreases self.allowed_domains.len() - i,
        {
            let domain = &self.allowed_domains[i];
            match canonicalize_dns_name(domain.as_str()) {
                Some(canonical) => {
                    if !str_eq(canonical.as_str(), domain.as_str()) {
                        proof {
                            assert(canonical_dns(doms[i as int]) == Some(canonical@));
                            assert(canonical_dns(doms[i as int]) != Some(doms[i as int]));
                            assert(!self.reg_wf());
                        }
                        return Err(Error::Validation {
                            field: "allowed_domains".to_owned(),
                            reason: "Entries must be canonical hostnames (lowercase, no trailing dot).".to_owned(),
                        });
                    }
                },
                None => {
                    proof {
                        assert(canonical_dns(doms[i as int]) is None);
                        assert(canonical_dns(doms[i as int]) != Some(doms[i as int]));
                        assert(!self.reg_wf());
                    }
                    return Err(Error::Validation {
                        field: "allowed_domains".to_owned(),
                        reason: "Entries must be non-empty hostnames.".to_owned(),
                    });
                },
            }
            i += 1;
        }
        Ok(())
    }
}


/// Public representation of provider lifecycle state.
#[derive(Clone, Debug, Copy, PartialEq, Eq, Structural)]
pub enum ProviderState {
    /// No JWKS payload has been cached yet.
    Empty,
    /// Initial fetch operation is currently running.
    Loading,
    /// Fresh JWKS payload is available for requests.
    Ready,
    /// Cache is serving while a refresh is in progress.
    Refreshing,
}

/// Metric sample used in provider status responses.
#[derive(Debug)]
pub struct StatusMetric {
    /// Metric name following the monitoring schema.
    pub name: String,
    /// Numeric value captured for the metric.
    pub value: u64,
    /// Tenant label of the sample.
    pub tenant: String,
    /// Provider label of the sample.
    pub provider: String,
}

/// Status projection for a provider.
#[derive(Debug)]
pub struct ProviderStatus {
    /// Tenant identifier that owns the provider.
    pub tenant_id: String,
    /// Provider identifier unique within the tenant.
    pub provider_id: String,
    /// Lifecycle state currently reported for the provider.
    pub state: ProviderState,
    /// Timestamp of the most recent successful refresh, epoch milliseconds.
    pub last_refresh: Option<i64>,
    /// Scheduled timestamp for the next refresh attempt, epoch milliseconds.
    pub next_refresh: Option<i64>,
    /// Expiration timestamp for the active payload, epoch milliseconds.
    pub expires_at: Option<i64>,
    /// Consecutive error count observed during refresh attempts.
    pub error_count: u32,
    /// Total number of cache lookups observed.
    pub total_requests: u64,
    /// Count of lookups served from the cache.
    pub cache_hits: u64,
    /// Count of lookups served from stale payloads.
    pub stale_serves: u64,
    /// Metrics emitted to describe provider performance.
    pub metrics: Vec<StatusMetric>,
}

/// Snapshot of cache payload persisted to external storage.
#[derive(Debug)]
pub struct PersistentSnapshot {
    /// Tenant identifier associated with the snapshot.
    pub tenant_id: String,
    /// Provider identifier within the tenant scope.
    pub provider_id: String,
    /// Serialized JWKS payload captured from the cache.
    pub jwks_json: String,
    /// Entity tag returned by the JWKS endpoint, if present.
    pub etag: Option<String>,
    /// Last-Modified timestamp advertised by the endpoint, epoch milliseconds.
    pub last_modified: Option<i64>,
    /// Wall-clock timestamp when the cached payload expires.
    pub expires_at: i64,
    /// Wall-clock timestamp when the snapshot was persisted.
    pub persisted_at: i64,
}

/// The documented validity of a snapshot against a registration.
pub open spec fn snapshot_valid(s: &PersistentSnapshot, reg: &IdentityProviderRegistration) -> bool {
    &&& vstd::utf8::encode_utf8(s.jwks_json@).len() <= reg.max_response_bytes
    &&& s.tenant_id@ == reg.tenant_id@
    &&& s.provider_id@ == reg.provider_id@
    &&& match s.etag {
        Some(e) => vstd::utf8::is_ascii_chars(e@),
        None => true,
    }
    &&& s.expires_at >= s.persisted_at
}

impl Clone for PersistentSnapshot {
    /// Field-preserving copy.
    fn clone(&self) -> (r: Self)
        ensures
            r.tenant_id == self.tenant_id,
            r.provider_id == self.provider_id,
            r.jwks_json == self.jwks_json,
            r.etag == self.etag,
            r.last_modified == self.last_modified,
            r.expires_at == self.expires_at,
            r.persisted_at == self.persisted_at,
    {
        let etag = match &self.etag {
            Some(e) => Some(e.clone()),
            None => None,
        };
        let r = PersistentSnapshot {
            tenant_id: self.tenant_id.clone(),
            provider_id: self.provider_id.clone(),
            jwks_json: self.jwks_json.clone(),
            etag,
            last_modified: self.last_modified,
            expires_at: self.expires_at,
            persisted_at: self.persisted_at,
        };
        assert(r.etag == self.etag);
        r
    }
}

impl PersistentSnapshot {
    /// Validate snapshot metadata against registration expectations: the
    /// document within the size guard, matching tenant and provider, an
    /// ASCII ETag, and an expiry no earlier than the persistence stamp.
    pub fn validate(&self, registration: &IdentityProviderRegistration) -> (r: JwksResult<()>)
        ensures
            r is Ok <==> snapshot_valid(self, registration),
            r matches Err(e) ==> e is Validation,
    {
        if self.jwks_json.as_str().as_bytes().len() as u64 > registration.max_response_bytes {
            return Err(Error::Validation {
                field: "jwks_json".to_owned(),
                reason: "Snapshot exceeds max_response_bytes.".to_owned(),
            });
        }
        if !str_eq(self.tenant_id.as_str(), registration.tenant_id.as_str()) {
            return Err(Error::Validation {
                field: "tenant_id".to_owned(),
                reason: "Snapshot tenant does not match registration.".to_owned(),
            });
        }
        if !str_eq(self.provider_id.as_str(), registration.provider_id.as_str()) {
            return Err(Error::Validation {
                field: "provider_id".to_owned(),
                reason: "Snapshot provider does not match registration.".to_owned(),
            });
        }
        if let Some(etag) = &self.etag {
            if !etag.as_str().is_ascii() {
                return Err(Error::Validation {
                    field: "etag".to_owned(),
                    reason: "ETag must be ASCII.".to_owned(),
                });
            }
        }
        if self.expires_at < self.persisted_at {
            return Err(Error::Validation {
                field: "expires_at".to_owned(),
                reason: "Cannot be earlier than persisted_at.".to_owned(),
            });
        }
        Ok(())
    }
}

/// One registered provider: its configuration, its cache entry, and its
/// telemetry accumulator.
#[derive(Debug)]
pub struct ProviderRecord {
    /// The validated registration, defaults inherited.
    pub registration: IdentityProviderRegistration,
    /// The lifecycle state machine for the cached keyset.
    pub entry: CacheEntry,
    /// Telemetry counters for the provider.
    pub metrics: ProviderMetrics,
}

/// Whether a record is keyed by the given tenant and provider.
pub open spec fn record_key_is(r: &ProviderRecord, tenant: Seq<char>, provider: Seq<char>) -> bool {
    r.registration.tenant_id@ == tenant && r.registration.provider_id@ == provider
}

/// The records with the given key removed, order kept.
pub open spec fn remove_key(
    s: Seq<ProviderRecord>,
    tenant: Seq<char>,
    provider: Seq<char>,
) -> Seq<ProviderRecord>
    decreases s.len(),
{
    if s.len() == 0 {
        Seq::empty()
    } else {
        let rest = remove_key(s.drop_first(), tenant, provider);
        if record_key_is(&s[0], tenant, provider) {
            rest
        } else {
            seq![s[0]] + rest
        }
    }
}

/// Whether some record in the sequence has the given key.
pub open spec fn has_key(s: Seq<ProviderRecord>, tenant: Seq<char>, provider: Seq<char>) -> bool {
    exists|k: int| 0 <= k < s.len() && record_key_is(&s[k], tenant, provider)
}

/// Every pair of records has distinct keys.
pub open spec fn keys_unique(s: Seq<ProviderRecord>) -> bool {
    forall|i: int, j: int|
        #![trigger s[i], s[j]]
        0 <= i < j < s.len() ==> !record_key_is(
            &s[j],
            s[i].registration.tenant_id@,
            s[i].registration.provider_id@,
        )
}

/// Registry-wide configuration shared by registrations.
#[derive(Debug)]
pub struct RegistryConfig {
    /// Whether HTTPS is demanded of every registration.
    pub require_https: bool,
    /// Default refresh-early offset applied to registrations, milliseconds.
    pub default_refresh_early: u64,
    /// Default stale-while-error window applied to registrations, milliseconds.
    pub default_stale_while_error: u64,
    /// Global domain allowlist, canonical entries.
    pub allowed_domains: Vec<String>,
}

impl Default for RegistryConfig {
    /// HTTPS required, library defaults for the windows, no allowlist.
    fn default() -> (r: Self)
        ensures
            r.require_https == true,
            r.default_refresh_early == DEFAULT_REFRESH_EARLY,
            r.default_stale_while_error == DEFAULT_STALE_WHILE_ERROR,
            r.allowed_domains@.len() == 0,
    {
        RegistryConfig {
            require_https: true,
            default_refresh_early: DEFAULT_REFRESH_EARLY,
            default_stale_while_error: DEFAULT_STALE_WHILE_ERROR,
            allowed_domains: Vec::new(),
        }
    }
}

/// Builder for a registry with multi-tenant configuration.
#[derive(Debug)]
pub struct RegistryBuilder {
    /// The configuration being assembled.
    pub config: RegistryConfig,
}

impl RegistryBuilder {
    /// Create a builder with default configuration.
    pub fn new() -> (r: Self)
        ensures
            r.config.require_https == true,
            r.config.default_refresh_early == DEFAULT_REFRESH_EARLY,
            r.config.default_stale_while_error == DEFAULT_STALE_WHILE_ERROR,
            r.config.allowed_domains@.len() == 0,
    {
        RegistryBuilder { config: RegistryConfig::default() }
    }

    /// Enforce HTTPS for registrations (enabled by default).
    pub fn require_https(self, require_https: bool) -> (r: Self)
        ensures
            r.config.require_https == require_https,
            r.config.default_refresh_early == self.config.default_refresh_early,
            r.config.default_stale_while_error == self.config.default_stale_while_error,
            r.config.allowed_domains == self.config.allowed_domains,
    {
        let mut config = self.config;
        config.require_https = require_https;
        RegistryBuilder { config }
    }

    /// Override the default refresh-early offset applied to registrations.
    pub fn default_refresh_early(self, value: u64) -> (r: Self)
        ensures
            r.config.default_refresh_early == value,
            r.config.require_https == self.config.require_https,
            r.config.default_stale_while_error == self.config.default_stale_while_error,
            r.config.allowed_domains == self.config.allowed_domains,
    {
        let mut config = self.config;
        config.default_refresh_early = value;
        RegistryBuilder { config }
    }

    /// Override the default stale-while-error window applied to registrations.
    pub fn default_stale_while_error(self, value: u64) -> (r: Self)
        ensures
            r.config.default_stale_while_error == value,
            r.config.require_https == self.config.require_https,
            r.config.default_refresh_early == self.config.default_refresh_early,
            r.config.allowed_domains == self.config.allowed_domains,
    {
        let mut config = self.config;
        config.default_stale_while_error = value;
        RegistryBuilder { config }
    }

    /// Add an entry to the global domain allowlist: the entry is
    /// canonicalised, and dropped when empty or already present.
    pub fn add_allowed_domain(self, domain: String) -> (r: Self)
        ensures
            r.config.require_https == self.config.require_https,
            r.config.default_refresh_early == self.config.default_refresh_early,
            r.config.default_stale_while_error == self.config.default_stale_while_error,
            ({
                let doms = self.config.allowed_domains.deep_view();
                match canonical_dns(domain@) {
                    Some(c) => {
                        if doms.contains(c) {
                            r.config.allowed_domains.deep_view() == doms
                        } else {
                            r.config.allowed_domains.deep_view() == doms.push(c)
                        }
                    },
                    None => r.config.allowed_domains.deep_view() == doms,
                }
            }),
    {
        let mut config = self.config;
        let ghost doms = config.allowed_domains.deep_view();
        match canonicalize_dns_name(domain.as_str()) {
            Some(canonical) => {
                if !crate::security::contains_string(&config.allowed_domains, &canonical) {
                    config.allowed_domains.push(canonical);
                    proof {
                        assert(config.allowed_domains.deep_view() =~= doms.push(
                            canonical_dns(domain@)->Some_0,
                        ));
                    }
                } else {
                    proof {
                        assert(config.allowed_domains.deep_view() =~= doms);
                    }
                }
            },
            None => {
                proof {
                    assert(config.allowed_domains.deep_view() =~= doms);
                }
            },
        }
        RegistryBuilder { config }
    }

    /// Replace the global domain allowlist with the normalised form of the
    /// given entries.
    pub fn allowed_domains(self, domains: Vec<String>) -> (r: Self)
        ensures
            r.config.require_https == self.config.require_https,
            r.config.default_refresh_early == self.config.default_refresh_early,
            r.config.default_stale_while_error == self.config.default_stale_while_error,
            r.config.allowed_domains.deep_view() == normalize_spec(domains.deep_view()),
    {
        let mut config = self.config;
        config.allowed_domains = normalize_allowlist(domains);
        RegistryBuilder { config }
    }

    /// Finalise the configuration and construct a registry.
    pub fn build(self) -> (r: Registry)
        ensures
            r.providers@.len() == 0,
            r.config.require_https == self.config.require_https,
            r.config.default_refresh_early == self.config.default_refresh_early,
            r.config.default_stale_while_error == self.config.default_stale_while_error,
            r.config.allowed_domains.deep_view() == normalize_spec(
                self.config.allowed_domains.deep_view(),
            ),
    {
        let mut config = self.config;
        let mut domains: Vec<String> = Vec::new();
        std::mem::swap(&mut domains, &mut config.allowed_domains);
        config.allowed_domains = normalize_allowlist(domains);
        Registry { providers: Vec::new(), config }
    }
}

/// The keyed registry: tenant/provider records and shared configuration.
#[derive(Debug)]
pub struct Registry {
    /// Registered providers; keys are unique together.
    pub providers: Vec<ProviderRecord>,
    /// Registry-wide configuration.
    pub config: RegistryConfig,
}

/// How a registration inherits registry defaults: HTTPS demanded by the
/// registry, allowlist normalised and inherited when empty, default
/// windows substituted for the library defaults.
pub open spec fn inherited(
    orig: &IdentityProviderRegistration,
    config: &RegistryConfig,
    prepared: &IdentityProviderRegistration,
) -> bool {
    &&& prepared.tenant_id == orig.tenant_id
    &&& prepared.provider_id == orig.provider_id
    &&& prepared.jwks_url == orig.jwks_url
    &&& prepared.require_https == (if config.require_https {
        orig.require_https
    } else {
        false
    })
    &&& ({
        let normalized = normalize_spec(orig.allowed_domains.deep_view());
        prepared.allowed_domains.deep_view() == (if normalized.len() == 0
            && config.allowed_domains.deep_view().len() > 0 {
            config.allowed_domains.deep_view()
        } else {
            normalized
        })
    })
    &&& prepared.refresh_early == (if orig.refresh_early == DEFAULT_REFRESH_EARLY {
        config.default_refresh_early
    } else {
        orig.refresh_early
    })
    &&& prepared.stale_while_error == (if orig.stale_while_error == DEFAULT_STALE_WHILE_ERROR {
        config.default_stale_while_error
    } else {
        orig.stale_while_error
    })
    &&& prepared.min_ttl == orig.min_ttl
    &&& prepared.max_ttl == orig.max_ttl
    &&& prepared.max_response_bytes == orig.max_response_bytes
    &&& prepared.negative_cache_ttl == orig.negative_cache_ttl
    &&& prepared.max_redirects == orig.max_redirects
    &&& prepared.pinned_spki@.len() == orig.pinned_spki@.len()
    &&& (forall|i: int|
        0 <= i < orig.pinned_spki@.len() ==> prepared.pinned_spki@[i]@ == orig.pinned_spki@[i]@)
    &&& prepared.prefetch_jitter == orig.prefetch_jitter
    &&& prepared.retry_policy == orig.retry_policy
}

/// Whether the registration's host passes the registry-wide allowlist; a
/// URL without a host defers to registration validation.
pub open spec fn registry_host_ok(
    reg: &IdentityProviderRegistration,
    config: &RegistryConfig,
) -> bool {
    match reg.jwks_url.host {
        Some(h) => host_allowed(h@, config.allowed_domains.deep_view()),
        None => true,
    }
}

/// Two registrations inheriting from the same original under the same
/// configuration are equally well-formed.
proof fn lemma_inherited_wf_congruent(
    orig: &IdentityProviderRegistration,
    config: &RegistryConfig,
    a: &IdentityProviderRegistration,
    b: &IdentityProviderRegistration,
)
    requires
        inherited(orig, config, a),
        inherited(orig, config, b),
    ensures
        a.reg_wf() == b.reg_wf(),
{
    assert(a.tenant_id@ == b.tenant_id@);
    assert(a.provider_id@ == b.provider_id@);
    assert(a.jwks_url == b.jwks_url);
    assert(a.allowed_domains.deep_view() == b.allowed_domains.deep_view());
}

impl ProviderRecord {
    /// Whether this record is keyed by the given pair.
    pub fn matches_pair(&self, tenant: &str, provider: &str) -> (r: bool)
        ensures
            r == record_key_is(self, tenant@, provider@),
    {
        str_eq(self.registration.tenant_id.as_str(), tenant) && str_eq(
            self.registration.provider_id.as_str(),
            provider,
        )
    }

    /// Project this record into a status snapshot at the given time.
    pub fn status(&self, now: u64, now_wall: i64) -> (r: ProviderStatus)
        ensures
            r.tenant_id == self.registration.tenant_id,
            r.provider_id == self.registration.provider_id,
            ({
                let st = self.entry.spec_state();
                match st {
                    CacheState::Empty => r.state == ProviderState::Empty && r.last_refresh is None
                        && r.next_refresh is None && r.expires_at is None && r.error_count == 0,
                    CacheState::Loading => r.state == ProviderState::Loading && r.last_refresh
                        is None && r.next_refresh is None && r.expires_at is None && r.error_count
                        == 0,
                    CacheState::Ready(p) => r.state == ProviderState::Ready && r.last_refresh
                        == Some(p.last_refresh_at) && r.next_refresh == wall_of_instant(
                        p.next_refresh_at,
                        now,
                        now_wall,
                    ) && r.expires_at == wall_of_instant(p.expires_at, now, now_wall)
                        && r.error_count == p.error_count,
                    CacheState::Refreshing(p) => r.state == ProviderState::Refreshing
                        && r.last_refresh == Some(p.last_refresh_at) && r.next_refresh
                        == wall_of_instant(p.next_refresh_at, now, now_wall) && r.expires_at
                        == wall_of_instant(p.expires_at, now, now_wall) && r.error_count
                        == p.error_count,
                }
            }),
            r.total_requests == self.metrics.spec_snapshot().total_requests,
            r.cache_hits == self.metrics.spec_snapshot().cache_hits,
            r.stale_serves == self.metrics.spec_snapshot().stale_serves,
            r.metrics@.len() >= 4,
            r.metrics@[0].name@ == "jwks_cache_requests_total"@ && r.metrics@[0].value
                == self.metrics.spec_snapshot().total_requests,
            r.metrics@[1].name@ == "jwks_cache_hits_total"@ && r.metrics@[1].value
                == self.metrics.spec_snapshot().cache_hits,
            r.metrics@[2].name@ == "jwks_cache_stale_total"@ && r.metrics@[2].value
                == self.metrics.spec_snapshot().stale_serves,
            r.metrics@[3].name@ == "jwks_cache_refresh_errors_total"@ && r.metrics@[3].value
                == self.metrics.spec_snapshot().refresh_errors,
    {
        let snapshot = crate::manager::CacheSnapshot::capture(&self.entry, now, now_wall);
        let counters = self.metrics.snapshot();
        let mut state = ProviderState::Empty;
        let mut last_refresh: Option<i64> = None;
        let mut next_refresh: Option<i64> = None;
        let mut expires_at: Option<i64> = None;
        let mut error_count: u32 = 0;
        match &snapshot.state {
            CacheState::Empty => {
                state = ProviderState::Empty;
            },
            CacheState::Loading => {
                state = ProviderState::Loading;
            },
            CacheState::Ready(payload) => {
                state = ProviderState::Ready;
                last_refresh = Some(payload.last_refresh_at);
                next_refresh = snapshot.to_datetime(payload.next_refresh_at);
                expires_at = snapshot.to_datetime(payload.expires_at);
                error_count = payload.error_count;
            },
            CacheState::Refreshing(payload) => {
                state = ProviderState::Refreshing;
                last_refresh = Some(payload.last_refresh_at);
                next_refresh = snapshot.to_datetime(payload.next_refresh_at);
                expires_at = snapshot.to_datetime(payload.expires_at);
                error_count = payload.error_count;
            },
        }
        let tenant = &self.registration.tenant_id;
        let provider = &self.registration.provider_id;
        let mut status_metrics: Vec<StatusMetric> = Vec::new();
        status_metrics.push(StatusMetric {
            name: "jwks_cache_requests_total".to_owned(),
            value: counters.total_requests,
            tenant: tenant.clone(),
            provider: provider.clone(),
        });
        status_metrics.push(StatusMetric {
            name: "jwks_cache_hits_total".to_owned(),
            value: counters.cache_hits,
            tenant: tenant.clone(),
            provider: provider.clone(),
        });
        status_metrics.push(StatusMetric {
            name: "jwks_cache_stale_total".to_owned(),
            value: counters.stale_serves,
            tenant: tenant.clone(),
            provider: provider.clone(),
        });
        status_metrics.push(StatusMetric {
            name: "jwks_cache_refresh_errors_total".to_owned(),
            value: counters.refresh_errors,
            tenant: tenant.clone(),
            provider: provider.clone(),
        });
        if let Some(last_micros) = counters.last_refresh_micros {
            status_metrics.push(StatusMetric {
                name: "jwks_cache_last_refresh_micros".to_owned(),
                value: last_micros,
                tenant: tenant.clone(),
                provider: provider.clone(),
            });
        }
        ProviderStatus {
            tenant_id: tenant.clone(),
            provider_id: provider.clone(),
            state,
            last_refresh,
            next_refresh,
            expires_at,
            error_count,
            total_requests: counters.total_requests,
            cache_hits: counters.cache_hits,
            stale_serves: counters.stale_serves,
            metrics: status_metrics,
        }
    }
}

impl Registry {
    /// Create a new registry instance with defaults.
    pub fn new() -> (r: Self)
        ensures
            r.providers@.len() == 0,
            r.config.require_https == true,
            r.config.default_refresh_early == DEFAULT_REFRESH_EARLY,
            r.config.default_stale_while_error == DEFAULT_STALE_WHILE_ERROR,
            r.config.allowed_domains.deep_view().len() == 0,
    {
        let r = Self::builder().build();
        proof {
            assert(r.config.allowed_domains.deep_view() =~= Seq::<Seq<char>>::empty());
        }
        r
    }

    /// Create a builder for advanced configuration.
    pub fn builder() -> (r: RegistryBuilder)
        ensures
            r.config.require_https == true,
            r.config.default_refresh_early == DEFAULT_REFRESH_EARLY,
            r.config.default_stale_while_error == DEFAULT_STALE_WHILE_ERROR,
            r.config.allowed_domains@.len() == 0,
    {
        RegistryBuilder::new()
    }

    /// Check the registry invariant: every record's key is unique.
    pub fn check_keys_unique(&self) -> (r: bool)
        ensures
            r == keys_unique(self.providers@),
    {
        let n = self.providers.len();
        let mut i: usize = 0;
        while i < n
            invariant
                0 <= i <= n,
                n == self.providers@.len(),
                forall|a: int, b: int|
                    #![trigger self.providers@[a], self.providers@[b]]
                    0 <= a < b < n && a < i ==> !record_key_is(
                        &self.providers@[b],
                        self.providers@[a].registration.tenant_id@,
                        self.providers@[a].registration.provider_id@,
                    ),
            decreases n - i,
        {
            let mut j: usize = i + 1;
            while j < n
                invariant
                    0 <= i < j <= n,
                    n == self.providers@.len(),
                    forall|b: int|
                        i < b < j ==> !record_key_is(
                            &self.providers@[b],
                            self.providers@[i as int].registration.tenant_id@,
                            self.providers@[i as int].registration.provider_id@,
                        ),
                decreases n - j,
            {
                let same = self.providers[j].matches_pair(
                    self.providers[i].registration.tenant_id.as_str(),
                    self.providers[i].registration.provider_id.as_str(),
                );
                if same {
                    return false;
                }
                j += 1;
            }
            i += 1;
        }
        true
    }

    /// Find the record registered under the given pair.
    pub fn find_provider(&self, tenant: &str, provider: &str) -> (r: Option<usize>)
        ensures
            r matches Some(i) ==> i < self.providers@.len() && record_key_is(
                &self.providers@[i as int],
                tenant@,
                provider@,
            ),
            r is None ==> !has_key(self.providers@, tenant@, provider@),
    {
        let mut i: usize = 0;
        while i < self.providers.len()
            invariant
                0 <= i <= self.providers@.len(),
                forall|k: int|
                    0 <= k < i ==> !record_key_is(&self.providers@[k], tenant@, provider@),
            decreases self.providers@.len() - i,
        {
            if self.providers[i].matches_pair(tenant, provider) {
                return Some(i);
            }
            i += 1;
        }
        None
    }

    /// Register or replace a provider configuration: the registry's HTTPS
    /// demand is enforced, defaults are inherited, the host must pass the
    /// registry allowlist, the prepared registration must validate, and a
    /// fresh record replaces any record under the same key. On error the
    /// registry is unchanged.
    pub fn register(&mut self, registration: IdentityProviderRegistration) -> (r: JwksResult<()>)
        requires
            keys_unique(old(self).providers@),
        ensures
            final(self).config == old(self).config,
            keys_unique(final(self).providers@),
            r is Ok <==> ({
                &&& (old(self).config.require_https ==> registration.require_https)
                &&& registry_host_ok(&registration, &old(self).config)
                &&& exists|prepared: IdentityProviderRegistration|
                    inherited(&registration, &old(self).config, &prepared) && #[trigger] prepared.reg_wf()
            }),
            r is Err ==> final(self).providers == old(self).providers,
            r matches Err(e) ==> e is Security || e is Validation,
            (old(self).config.require_https && !registration.require_https) ==> (r matches Err(e)
                && e is Security),
            ((old(self).config.require_https ==> registration.require_https)
                && !registry_host_ok(&registration, &old(self).config)) ==> (r matches Err(e) && e
                is Security),
            r is Ok ==> ({
                &&& final(self).providers@.len() >= 1
                &&& ({
                    let rec = final(self).providers@.last();
                    &&& inherited(&registration, &old(self).config, &rec.registration)
                    &&& rec.registration.reg_wf()
                    &&& rec.entry.spec_state() is Empty
                    &&& rec.entry.spec_tenant_id() == registration.tenant_id@
                    &&& rec.entry.spec_provider_id() == registration.provider_id@
                    &&& rec.metrics.spec_snapshot() == (ProviderMetricsSnapshot {
                        total_requests: 0,
                        cache_hits: 0,
                        stale_serves: 0,
                        refresh_successes: 0,
                        refresh_errors: 0,
                        last_refresh_micros: None,
                    })
                })
                &&& final(self).providers@.drop_last() == remove_key(
                    old(self).providers@,
                    registration.tenant_id@,
                    registration.provider_id@,
                )
            }),
    {
        let mut registration = registration;
        let ghost orig = registration;
        if self.config.require_https {
            if !registration.require_https {
                return Err(
                    Error::Security(
                        "Registry requires HTTPS for all provider registrations.".to_owned(),
                    ),
                );
            }
        } else {
            registration.require_https = false;
        }
        registration.normalize_allowed_domains();
        if registration.refresh_early == DEFAULT_REFRESH_EARLY {
            registration.refresh_early = self.config.default_refresh_early;
        }
        if registration.stale_while_error == DEFAULT_STALE_WHILE_ERROR {
            registration.stale_while_error = self.config.default_stale_while_error;
        }
        if registration.allowed_domains.len() == 0 && self.config.allowed_domains.len() > 0 {
            registration.allowed_domains = clone_strings(&self.config.allowed_domains);
        }
        proof {
            assert(registration.allowed_domains.deep_view() =~= (
            if normalize_spec(orig.allowed_domains.deep_view()).len() == 0
                && self.config.allowed_domains.deep_view().len() > 0 {
                self.config.allowed_domains.deep_view()
            } else {
                normalize_spec(orig.allowed_domains.deep_view())
            }));
            assert(inherited(&orig, &self.config, &registration));
        }
        match &registration.jwks_url.host {
            Some(host) => {
                if !host_is_allowed(host.as_str(), &self.config.allowed_domains) {
                    return Err(
                        Error::Security("Host is not in the registry allowlist.".to_owned()),
                    );
                }
            },
            None => {},
        }
        match registration.validate() {
            Ok(()) => {},
            Err(e) => {
                proof {
                    assert(!registration.reg_wf());
                    assert forall|prepared: IdentityProviderRegistration|
                        inherited(&orig, &self.config, &prepared) implies !#[trigger] prepared.reg_wf() by {
                        lemma_inherited_wf_congruent(&orig, &self.config, &registration, &prepared);
                    }
                }
                return Err(e);
            },
        }
        let tenant = registration.tenant_id.clone();
        let provider = registration.provider_id.clone();
        let entry = CacheEntry::new(tenant.clone(), provider.clone());
        let metrics = ProviderMetrics::new();
        let record = ProviderRecord { registration, entry, metrics };
        self.remove_records(tenant.as_str(), provider.as_str());
        proof {
            lemma_remove_key_no_key(old(self).providers@, orig.tenant_id@, orig.provider_id@);
            lemma_remove_key_unique(old(self).providers@, orig.tenant_id@, orig.provider_id@);
        }
        self.providers.push(record);
        proof {
            assert(final(self).providers@.drop_last() =~= remove_key(
                old(self).providers@,
                orig.tenant_id@,
                orig.provider_id@,
            ));
            lemma_unique_push(
                remove_key(old(self).providers@, orig.tenant_id@, orig.provider_id@),
                final(self).providers@.last(),
            );
        }
        Ok(())
    }

    /// Remove every record under the given key, keeping the others' order.
    fn remove_records(&mut self, tenant: &str, provider: &str) -> (removed: bool)
        ensures
            final(self).config == old(self).config,
            final(self).providers@ == remove_key(old(self).providers@, tenant@, provider@),
            removed == has_key(old(self).providers@, tenant@, provider@),
    {
        let ghost orig = self.providers@;
        let mut taken: Vec<ProviderRecord> = Vec::new();
        std::mem::swap(&mut taken, &mut self.providers);
        let mut removed = false;
        proof {
            assert(orig.skip(0) =~= orig);
            assert(self.providers@ + remove_key(taken@, tenant@, provider@) =~= remove_key(
                orig,
                tenant@,
                provider@,
            ));
        }
        while taken.len() > 0
            invariant
                self.providers@ + remove_key(taken@, tenant@, provider@) =~= remove_key(
                    orig,
                    tenant@,
                    provider@,
                ),
                removed ==> has_key(orig, tenant@, provider@),
                !removed ==> (has_key(orig, tenant@, provider@) <==> has_key(
                    taken@,
                    tenant@,
                    provider@,
                )),
                self.config == old(self).config,
            decreases taken@.len(),
        {
            let ghost before = taken@;
            let rec = taken.remove(0);
            proof {
                assert(before.drop_first() =~= taken@);
            }
            if rec.matches_pair(tenant, provider) {
                proof {
                    assert(record_key_is(&before[0], tenant@, provider@));
                    assert(has_key(before, tenant@, provider@));
                    if !removed {
                        assert(has_key(orig, tenant@, provider@));
                    }
                }
                removed = true;
            } else {
                proof {
                    assert(remove_key(before, tenant@, provider@) =~= seq![before[0]] + remove_key(
                        taken@,
                        tenant@,
                        provider@,
                    ));
                    if !removed && has_key(before, tenant@, provider@) {
                        let k = choose|k: int|
                            0 <= k < before.len() && record_key_is(&before[k], tenant@, provider@);
                        assert(k >= 1);
                        assert(taken@[k - 1] == before[k]);
                        assert(has_key(taken@, tenant@, provider@));
                    }
                }
                let ghost kept_before = self.providers@;
                self.providers.push(rec);
                proof {
                    assert(self.providers@ =~= kept_before.push(before[0]));
                    assert(self.providers@ + remove_key(taken@, tenant@, provider@) =~= remove_key(
                        orig,
                        tenant@,
                        provider@,
                    ));
                }
            }
        }
        proof {
            assert(remove_key(taken@, tenant@, provider@) =~= Seq::<ProviderRecord>::empty());
            assert(self.providers@ =~= remove_key(orig, tenant@, provider@));
            assert(!has_key(taken@, tenant@, provider@));
        }
        removed
    }

    /// Remove a provider registration if present; reports whether it existed.
    pub fn unregister(&mut self, tenant: &str, provider: &str) -> (r: JwksResult<bool>)
        requires
            keys_unique(old(self).providers@),
        ensures
            final(self).config == old(self).config,
            keys_unique(final(self).providers@),
            final(self).providers@ == remove_key(old(self).providers@, tenant@, provider@),
            r matches Ok(existed) && existed == has_key(old(self).providers@, tenant@, provider@),
    {
        let removed = self.remove_records(tenant, provider);
        proof {
            lemma_remove_key_unique(old(self).providers@, tenant@, provider@);
        }
        Ok(removed)
    }

    /// Fetch status information for a specific provider.
    pub fn provider_status(&self, tenant: &str, provider: &str, now: u64, now_wall: i64) -> (r:
        JwksResult<ProviderStatus>)
        ensures
            r is Ok <==> has_key(self.providers@, tenant@, provider@),
            r matches Err(e) ==> (e matches Error::NotRegistered { tenant: t, provider: p } && t@
                == tenant@ && p@ == provider@),
            r matches Ok(s) ==> s.tenant_id@ == tenant@ && s.provider_id@ == provider@,
    {
        match self.find_provider(tenant, provider) {
            Some(i) => {
                let status = self.providers[i].status(now, now_wall);
                proof {
                    assert(has_key(self.providers@, tenant@, provider@));
                }
                Ok(status)
            },
            None => Err(Error::NotRegistered {
                tenant: tenant.to_owned(),
                provider: provider.to_owned(),
            }),
        }
    }

    /// Fetch status for every registered provider.
    pub fn all_statuses(&self, now: u64, now_wall: i64) -> (r: Vec<ProviderStatus>)
        ensures
            r@.len() == self.providers@.len(),
            forall|k: int|
                0 <= k < r@.len() ==> #[trigger] r@[k].tenant_id
                    == self.providers@[k].registration.tenant_id && r@[k].provider_id
                    == self.providers@[k].registration.provider_id,
    {
        let mut statuses: Vec<ProviderStatus> = Vec::new();
        let mut i: usize = 0;
        while i < self.providers.len()
            invariant
                0 <= i <= self.providers@.len(),
                statuses@.len() == i,
                forall|k: int|
                    0 <= k < i ==> #[trigger] statuses@[k].tenant_id
                        == self.providers@[k].registration.tenant_id && statuses@[k].provider_id
                        == self.providers@[k].registration.provider_id,
            decreases self.providers@.len() - i,
        {
            let status = self.providers[i].status(now, now_wall);
            statuses.push(status);
            i += 1;
        }
        statuses
    }
}

impl Default for Registry {
    /// Same as `Registry::new`.
    fn default() -> (r: Self)
        ensures
            r.providers@.len() == 0,
            r.config.require_https == true,
    {
        Registry::new()
    }
}


/// `remove_key` over a push: the pushed record survives exactly when its
/// key differs.
proof fn lemma_remove_key_push(
    s: Seq<ProviderRecord>,
    tenant: Seq<char>,
    provider: Seq<char>,
    rec: ProviderRecord,
)
    ensures
        remove_key(s.push(rec), tenant, provider) == (if record_key_is(&rec, tenant, provider) {
            remove_key(s, tenant, provider)
        } else {
            remove_key(s, tenant, provider).push(rec)
        }),
    decreases s.len(),
{
    if s.len() == 0 {
        let one = s.push(rec);
        assert(one[0] == rec);
        assert(one.drop_first() =~= Seq::<ProviderRecord>::empty());
        assert(remove_key(one.drop_first(), tenant, provider) =~= Seq::<ProviderRecord>::empty());
        assert(remove_key(one, tenant, provider) == (if record_key_is(&one[0], tenant, provider) {
            remove_key(one.drop_first(), tenant, provider)
        } else {
            seq![one[0]] + remove_key(one.drop_first(), tenant, provider)
        }));
        if record_key_is(&rec, tenant, provider) {
            assert(remove_key(one, tenant, provider) =~= remove_key(s, tenant, provider));
        } else {
            assert(remove_key(one, tenant, provider) =~= remove_key(s, tenant, provider).push(rec));
        }
    } else {
        let pushed = s.push(rec);
        assert(pushed[0] == s[0]);
        assert(pushed.drop_first() =~= s.drop_first().push(rec));
        lemma_remove_key_push(s.drop_first(), tenant, provider, rec);
        if record_key_is(&s[0], tenant, provider) {
            assert(remove_key(pushed, tenant, provider) == remove_key(
                pushed.drop_first(),
                tenant,
                provider,
            ));
        } else {
            if record_key_is(&rec, tenant, provider) {
                assert(remove_key(pushed, tenant, provider) =~= remove_key(s, tenant, provider));
            } else {
                assert(remove_key(pushed, tenant, provider) =~= remove_key(
                    s,
                    tenant,
                    provider,
                ).push(rec));
            }
        }
    }
}

/// `remove_key` leaves a sequence without the key untouched.
proof fn lemma_remove_key_clean(s: Seq<ProviderRecord>, tenant: Seq<char>, provider: Seq<char>)
    requires
        forall|k: int| 0 <= k < s.len() ==> !record_key_is(&s[k], tenant, provider),
    ensures
        remove_key(s, tenant, provider) == s,
    decreases s.len(),
{
    if s.len() > 0 {
        assert(!record_key_is(&s[0], tenant, provider));
        lemma_remove_key_clean(s.drop_first(), tenant, provider);
        assert(remove_key(s, tenant, provider) =~= seq![s[0]] + s.drop_first());
        assert(seq![s[0]] + s.drop_first() =~= s);
    }
}

/// Law: register, unregister, register again on one key is well-defined:
/// the registry after the second registration is exactly the registry a
/// single registration of the new record would have produced, so the
/// second registration starts from a fresh record.
pub proof fn lemma_reregister_matches_fresh(
    s: Seq<ProviderRecord>,
    tenant: Seq<char>,
    provider: Seq<char>,
    rec1: ProviderRecord,
    rec2: ProviderRecord,
)
    requires
        record_key_is(&rec1, tenant, provider),
        record_key_is(&rec2, tenant, provider),
    ensures
        ({
            let after_first = remove_key(s, tenant, provider).push(rec1);
            let after_unregister = remove_key(after_first, tenant, provider);
            let after_second = remove_key(after_unregister, tenant, provider).push(rec2);
            after_second == remove_key(s, tenant, provider).push(rec2)
        }),
{
    let cleaned = remove_key(s, tenant, provider);
    lemma_remove_key_push(cleaned, tenant, provider, rec1);
    lemma_remove_key_no_key(s, tenant, provider);
    lemma_remove_key_clean(cleaned, tenant, provider);
}

/// Membership in `remove_key`: everything kept was present and lacks the key.
proof fn lemma_remove_key_member(
    s: Seq<ProviderRecord>,
    tenant: Seq<char>,
    provider: Seq<char>,
    k: int,
)
    requires
        0 <= k < remove_key(s, tenant, provider).len(),
    ensures
        exists|j: int|
            0 <= j < s.len() && s[j] == remove_key(s, tenant, provider)[k] && !record_key_is(
                &s[j],
                tenant,
                provider,
            ),
    decreases s.len(),
{
    if s.len() > 0 {
        let rest = remove_key(s.drop_first(), tenant, provider);
        if record_key_is(&s[0], tenant, provider) {
            lemma_remove_key_member(s.drop_first(), tenant, provider, k);
            let j = choose|j: int|
                0 <= j < s.drop_first().len() && s.drop_first()[j] == rest[k] && !record_key_is(
                    &s.drop_first()[j],
                    tenant,
                    provider,
                );
            assert(s[j + 1] == rest[k]);
        } else {
            if k == 0 {
                assert(s[0] == remove_key(s, tenant, provider)[0]);
            } else {
                lemma_remove_key_member(s.drop_first(), tenant, provider, k - 1);
                let j = choose|j: int|
                    0 <= j < s.drop_first().len() && s.drop_first()[j] == rest[k - 1]
                        && !record_key_is(&s.drop_first()[j], tenant, provider);
                assert(s[j + 1] == rest[k - 1]);
                assert(remove_key(s, tenant, provider)[k] == rest[k - 1]);
            }
        }
    }
}

/// Nothing in `remove_key` carries the removed key.
proof fn lemma_remove_key_no_key(s: Seq<ProviderRecord>, tenant: Seq<char>, provider: Seq<char>)
    ensures
        forall|k: int|
            0 <= k < remove_key(s, tenant, provider).len() ==> !record_key_is(
                &remove_key(s, tenant, provider)[k],
                tenant,
                provider,
            ),
{
    assert forall|k: int|
        0 <= k < remove_key(s, tenant, provider).len() implies !record_key_is(
        &remove_key(s, tenant, provider)[k],
        tenant,
        provider,
    ) by {
        lemma_remove_key_member(s, tenant, provider, k);
    }
}

/// `remove_key` keeps keys unique.
proof fn lemma_remove_key_unique(s: Seq<ProviderRecord>, tenant: Seq<char>, provider: Seq<char>)
    requires
        keys_unique(s),
    ensures
        keys_unique(remove_key(s, tenant, provider)),
    decreases s.len(),
{
    if s.len() > 0 {
        let rest = s.drop_first();
        assert(keys_unique(rest)) by {
            assert forall|i: int, j: int| 0 <= i < j < rest.len() implies !record_key_is(
                &rest[j],
                rest[i].registration.tenant_id@,
                rest[i].registration.provider_id@,
            ) by {
                assert(s[i + 1] == rest[i]);
                assert(s[j + 1] == rest[j]);
            }
        }
        lemma_remove_key_unique(rest, tenant, provider);
        if !record_key_is(&s[0], tenant, provider) {
            let out = remove_key(s, tenant, provider);
            let rest_out = remove_key(rest, tenant, provider);
            assert(out =~= seq![s[0]] + rest_out);
            assert forall|i: int, j: int| 0 <= i < j < out.len() implies !record_key_is(
                &out[j],
                out[i].registration.tenant_id@,
                out[i].registration.provider_id@,
            ) by {
                if i == 0 {
                    lemma_remove_key_member(rest, tenant, provider, j - 1);
                    let m = choose|m: int|
                        0 <= m < rest.len() && rest[m] == rest_out[j - 1] && !record_key_is(
                            &rest[m],
                            tenant,
                            provider,
                        );
                    assert(s[m + 1] == rest[m]);
                    assert(!record_key_is(
                        &s[m + 1],
                        s[0].registration.tenant_id@,
                        s[0].registration.provider_id@,
                    ));
                } else {
                    assert(out[i] == rest_out[i - 1]);
                    assert(out[j] == rest_out[j - 1]);
                }
            }
        }
    }
}

/// Pushing a record whose key was removed keeps keys unique.
proof fn lemma_unique_push(s: Seq<ProviderRecord>, rec: ProviderRecord)
    requires
        keys_unique(s),
        forall|k: int|
            0 <= k < s.len() ==> !record_key_is(
                &s[k],
                rec.registration.tenant_id@,
                rec.registration.provider_id@,
            ),
    ensures
        keys_unique(s.push(rec)),
{
    let out = s.push(rec);
    assert forall|i: int, j: int| 0 <= i < j < out.len() implies !record_key_is(
        &out[j],
        out[i].registration.tenant_id@,
        out[i].registration.provider_id@,
    ) by {
        if j < s.len() {
        } else {
            assert(out[j] == rec);
            assert(out[i] == s[i]);
            if record_key_is(&rec, s[i].registration.tenant_id@, s[i].registration.provider_id@) {
                assert(record_key_is(
                    &s[i],
                    rec.registration.tenant_id@,
                    rec.registration.provider_id@,
                ));
            }
        }
    }
}

} // verus!
