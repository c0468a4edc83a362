//! Per-provider telemetry bookkeeping.

use vstd::prelude::*;

use crate::clock::sat_add;

verus! {

/// Telemetry accumulator for a single provider registration. Counters
/// saturate rather than wrap.
#[derive(Debug)]
pub struct ProviderMetrics {
    total_requests: u64,
    cache_hits: u64,
    stale_serves: u64,
    refresh_successes: u64,
    refresh_errors: u64,
    last_refresh_micros: u64,
}

/// Read-only snapshot of per-provider telemetry counters.
#[derive(Clone, Copy, Debug, PartialEq, Eq, Structural)]
pub struct ProviderMetricsSnapshot {
    /// Total number of cache lookups observed.
    pub total_requests: u64,
    /// Count of lookups served from the cache.
    pub cache_hits: u64,
    /// Count of lookups served from stale payloads.
    pub stale_serves: u64,
    /// Count of successful refresh operations.
    pub refresh_successes: u64,
    /// Count of refresh attempts that resulted in errors.
    pub refresh_errors: u64,
    /// Microsecond latency of the most recent refresh.
    pub last_refresh_micros: Option<u64>,
}

impl ProviderMetrics {
    /// The counters as a snapshot value.
    pub closed spec fn spec_snapshot(&self) -> ProviderMetricsSnapshot {
        ProviderMetricsSnapshot {
            total_requests: self.total_requests,
            cache_hits: self.cache_hits,
            stale_serves: self.stale_serves,
            refresh_successes: self.refresh_successes,
            refresh_errors: self.refresh_errors,
            last_refresh_micros: if self.last_refresh_micros == 0 {
                None
            } else {
                Some(self.last_refresh_micros)
            },
        }
    }

    /// Create a new metrics accumulator with every counter at zero.
    pub fn new() -> (r: Self)
        ensures
            r.spec_snapshot() == (ProviderMetricsSnapshot {
                total_requests: 0,
                cache_hits: 0,
                stale_serves: 0,
                refresh_successes: 0,
                refresh_errors: 0,
                last_refresh_micros: None,
            }),
    {
        ProviderMetrics {
            total_requests: 0,
            cache_hits: 0,
            stale_serves: 0,
            refresh_successes: 0,
            refresh_errors: 0,
            last_refresh_micros: 0,
        }
    }

    /// Record a hit outcome, stale or fresh.
    pub fn record_hit(&mut self, stale: bool)
        ensures
            final(self).spec_snapshot() == (ProviderMetricsSnapshot {
                total_requests: sat_add(old(self).spec_snapshot().total_requests, 1),
                cache_hits: sat_add(old(self).spec_snapshot().cache_hits, 1),
                stale_serves: if stale {
                    sat_add(old(self).spec_snapshot().stale_serves, 1)
                } else {
                    old(self).spec_snapshot().stale_serves
                },
                ..old(self).spec_snapshot()
            }),
    {
        self.total_requests = self.total_requests.saturating_add(1);
        self.cache_hits = self.cache_hits.saturating_add(1);
        if stale {
            self.stale_serves = self.stale_serves.saturating_add(1);
        }
    }

    /// Record a miss outcome.
    pub fn record_miss(&mut self)
        ensures
            final(self).spec_snapshot() == (ProviderMetricsSnapshot {
                total_requests: sat_add(old(self).spec_snapshot().total_requests, 1),
                ..old(self).spec_snapshot()
            }),
    {
        self.total_requests = self.total_requests.saturating_add(1);
    }

    /// Record a successful refresh and its latency in microseconds.
    pub fn record_refresh_success(&mut self, duration_micros: u64)
        ensures
            final(self).spec_snapshot() == (ProviderMetricsSnapshot {
                refresh_successes: sat_add(old(self).spec_snapshot().refresh_successes, 1),
                last_refresh_micros: if duration_micros == 0 {
                    None
                } else {
                    Some(duration_micros)
                },
                ..old(self).spec_snapshot()
            }),
    {
        self.refresh_successes = self.refresh_successes.saturating_add(1);
        self.last_refresh_micros = duration_micros;
    }

    /// Record a refresh failure.
    pub fn record_refresh_error(&mut self)
        ensures
            final(self).spec_snapshot() == (ProviderMetricsSnapshot {
                refresh_errors: sat_add(old(self).spec_snapshot().refresh_errors, 1),
                ..old(self).spec_snapshot()
            }),
    {
        self.refresh_errors = self.refresh_errors.saturating_add(1);
    }

    /// Take a point-in-time snapshot for status reporting.
    pub fn snapshot(&self) -> (r: ProviderMetricsSnapshot)
        ensures
            r == self.spec_snapshot(),
    {
        ProviderMetricsSnapshot {
            total_requests: self.total_requests,
            cache_hits: self.cache_hits,
            stale_serves: self.stale_serves,
            refresh_successes: self.refresh_successes,
            refresh_errors: self.refresh_errors,
            last_refresh_micros: if self.last_refresh_micros == 0 {
                None
            } else {
                Some(self.last_refresh_micros)
            },
        }
    }
}

} // verus!
