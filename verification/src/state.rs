//! Cache state machine modelling the JWKS lifecycle.

use vstd::prelude::*;

use crate::clock::sat_add;
use crate::jwks::JwksDoc;
use crate::semantics::policy_clone;

verus! {

/// Metadata captured for a cached JWKS payload. Monotonic deadlines are
/// `u64` milliseconds; wall-clock stamps are `i64` epoch milliseconds.
#[derive(Debug)]
pub struct CachePayload {
    /// JWKS document retained for the provider.
    pub jwks: JwksDoc,
    /// HTTP cache policy derived from the last response.
    pub policy: http_cache_semantics::CachePolicy,
    /// Strong or weak validator supplied by the origin.
    pub etag: Option<String>,
    /// Last-Modified timestamp advertised by the origin.
    pub last_modified: Option<i64>,
    /// Wall-clock timestamp when the payload was most recently refreshed.
    pub last_refresh_at: i64,
    /// Monotonic deadline after which the payload is considered expired.
    pub expires_at: u64,
    /// Monotonic schedule for the next proactive refresh.
    ///
    /// On refresh failures this doubles as the cooldown deadline: the
    /// computed retry backoff is added to the failure instant.
    pub next_refresh_at: u64,
    /// Optional window permitting stale serving past expiry.
    pub stale_deadline: Option<u64>,
    /// Backoff recorded after the most recent failed refresh, diagnostic.
    pub retry_backoff: Option<u64>,
    /// Count of consecutive refresh errors.
    pub error_count: u32,
}

/// Contents equality of two payloads, the opaque policy excluded.
pub open spec fn payload_like(a: &CachePayload, b: &CachePayload) -> bool {
    &&& a.jwks@ == b.jwks@
    &&& a.jwks.spec_key_count() == b.jwks.spec_key_count()
    &&& a.etag == b.etag
    &&& a.last_modified == b.last_modified
    &&& a.last_refresh_at == b.last_refresh_at
    &&& a.expires_at == b.expires_at
    &&& a.next_refresh_at == b.next_refresh_at
    &&& a.stale_deadline == b.stale_deadline
    &&& a.retry_backoff == b.retry_backoff
    &&& a.error_count == b.error_count
}

/// Whether stale serving is still permitted at the given time.
pub open spec fn can_stale(p: &CachePayload, now: u64) -> bool {
    match p.stale_deadline {
        Some(deadline) => now <= deadline,
        None => false,
    }
}

/// The payload after failure bookkeeping: error count bumped (saturating),
/// the backoff recorded, and the next refresh pushed out by it.
pub open spec fn failed_payload(p: CachePayload, now: u64, backoff: Option<u64>) -> CachePayload {
    CachePayload {
        error_count: if p.error_count == u32::MAX {
            u32::MAX
        } else {
            (p.error_count + 1) as u32
        },
        retry_backoff: backoff,
        next_refresh_at: match backoff {
            Some(delay) => sat_add(now, delay),
            None => p.next_refresh_at,
        },
        ..p
    }
}

impl Clone for CachePayload {
    /// Copy preserving every field's contents; the policy is cloned opaquely.
    fn clone(&self) -> (r: Self)
        ensures
            payload_like(&r, self),
    {
        let etag = match &self.etag {
            Some(e) => Some(e.clone()),
            None => None,
        };
        let r = CachePayload {
            jwks: self.jwks.clone(),
            policy: policy_clone(&self.policy),
            etag,
            last_modified: self.last_modified,
            last_refresh_at: self.last_refresh_at,
            expires_at: self.expires_at,
            next_refresh_at: self.next_refresh_at,
            stale_deadline: self.stale_deadline,
            retry_backoff: self.retry_backoff,
            error_count: self.error_count,
        };
        assert(r.etag == self.etag);
        r
    }
}

impl CachePayload {
    /// Whether the payload has exceeded its freshness window.
    pub fn is_expired(&self, now: u64) -> (r: bool)
        ensures
            r == (now >= self.expires_at),
    {
        now >= self.expires_at
    }

    /// Whether stale serving is still permitted at the given time.
    pub fn can_serve_stale(&self, now: u64) -> (r: bool)
        ensures
            r == can_stale(self, now),
    {
        match self.stale_deadline {
            Some(deadline) => now <= deadline,
            None => false,
        }
    }

    /// Update retry bookkeeping after a failed refresh.
    pub fn bump_error(&mut self, backoff: Option<u64>)
        ensures
            *final(self) == (CachePayload {
                error_count: if old(self).error_count == u32::MAX {
                    u32::MAX
                } else {
                    (old(self).error_count + 1) as u32
                },
                retry_backoff: backoff,
                ..*old(self)
            }),
    {
        self.error_count = self.error_count.saturating_add(1);
        self.retry_backoff = backoff;
    }

    /// Reset failure bookkeeping after a successful refresh.
    pub fn reset_failures(&mut self)
        ensures
            *final(self) == (CachePayload { error_count: 0, retry_backoff: None, ..*old(self) }),
    {
        self.error_count = 0;
        self.retry_backoff = None;
    }
}

/// Cache lifecycle states.
#[derive(Debug)]
pub enum CacheState {
    /// Cache has no payload and no work in progress.
    Empty,
    /// Initial fetch is underway and no payload is yet available.
    Loading,
    /// Fresh payload is ready for use.
    Ready(CachePayload),
    /// Payload is in use while a background refresh is running.
    Refreshing(CachePayload),
}

impl CacheState {
    /// Retrieve the current payload if available.
    pub fn payload(&self) -> (r: Option<&CachePayload>)
        ensures
            self is Ready ==> r == Some(&self->Ready_0),
            self is Refreshing ==> r == Some(&self->Refreshing_0),
            (self is Empty || self is Loading) ==> r is None,
    {
        match self {
            CacheState::Ready(payload) => Some(payload),
            CacheState::Refreshing(payload) => Some(payload),
            _ => None,
        }
    }

    /// Whether the cached payload is immediately usable.
    pub fn is_usable(&self) -> (r: bool)
        ensures
            r == (self is Ready || self is Refreshing),
    {
        match self {
            CacheState::Ready(_) => true,
            CacheState::Refreshing(_) => true,
            _ => false,
        }
    }
}

} // verus!
