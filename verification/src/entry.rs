//! Cache entry: guarded transitions over the lifecycle state machine.

use vstd::prelude::*;

use crate::clock::add_ms;
use crate::clock::sat_add;
use crate::state::CachePayload;
use crate::state::CacheState;
use crate::state::can_stale;
use crate::state::failed_payload;
use crate::state::payload_like;

verus! {

/// What a manual refresh trigger decided.
#[derive(Clone, Copy, Debug, PartialEq, Eq, Structural)]
pub enum RefreshTrigger {
    /// A background refresh task should be spawned.
    Background,
    /// The refresh must run in the foreground (initial load).
    Blocking,
    /// A fetch is already in flight elsewhere; nothing to do.
    Skip,
}

/// One legal move of the entry state machine.
pub open spec fn entry_step(pre: CacheState, post: CacheState) -> bool {
    ||| post == pre
    ||| (pre is Empty && post is Loading)
    ||| (pre is Loading && post is Ready)
    ||| ((pre is Ready || pre is Refreshing) && (post is Ready || post is Refreshing))
    ||| post is Empty
}

/// Represents a cached JWKS entry for a tenant/provider pair.
#[derive(Debug)]
pub struct CacheEntry {
    tenant_id: String,
    provider_id: String,
    state: CacheState,
}

impl CacheEntry {
    /// The tenant identifier, as a sequence of characters.
    pub closed spec fn spec_tenant_id(&self) -> Seq<char> {
        self.tenant_id@
    }

    /// The provider identifier, as a sequence of characters.
    pub closed spec fn spec_provider_id(&self) -> Seq<char> {
        self.provider_id@
    }

    /// The current state of the entry.
    pub closed spec fn spec_state(&self) -> CacheState {
        self.state
    }

    /// Create a new empty cache entry.
    pub fn new(tenant_id: String, provider_id: String) -> (r: Self)
        ensures
            r.spec_tenant_id() == tenant_id@,
            r.spec_provider_id() == provider_id@,
            r.spec_state() is Empty,
    {
        CacheEntry { tenant_id, provider_id, state: CacheState::Empty }
    }

    /// Tenant identifier for this cache entry.
    pub fn tenant_id(&self) -> (r: &str)
        ensures
            r@ == self.spec_tenant_id(),
    {
        self.tenant_id.as_str()
    }

    /// Provider identifier for this cache entry.
    pub fn provider_id(&self) -> (r: &str)
        ensures
            r@ == self.spec_provider_id(),
    {
        self.provider_id.as_str()
    }

    /// Inspect the current cache state.
    pub fn state(&self) -> (r: &CacheState)
        ensures
            r == &self.spec_state(),
    {
        &self.state
    }

    /// Attempt to begin an initial load; refused when the entry is not
    /// empty (a load or payload already exists).
    pub fn begin_load(&mut self) -> (r: bool)
        ensures
            final(self).spec_tenant_id() == old(self).spec_tenant_id(),
            final(self).spec_provider_id() == old(self).spec_provider_id(),
            old(self).spec_state() is Empty ==> final(self).spec_state() is Loading && r,
            !(old(self).spec_state() is Empty) ==> final(self).spec_state() == old(
                self,
            ).spec_state() && !r,
            entry_step(old(self).spec_state(), final(self).spec_state()),
    {
        match self.state {
            CacheState::Empty => {
                self.state = CacheState::Loading;
                true
            },
            _ => false,
        }
    }

    /// Record a successful initial load, moving `Loading` to `Ready` with
    /// failure bookkeeping reset.
    pub fn load_success(&mut self, payload: CachePayload)
        requires
            old(self).spec_state() is Loading,
        ensures
            final(self).spec_tenant_id() == old(self).spec_tenant_id(),
            final(self).spec_provider_id() == old(self).spec_provider_id(),
            final(self).spec_state() == CacheState::Ready(
                CachePayload { error_count: 0, retry_backoff: None, ..payload },
            ),
            entry_step(old(self).spec_state(), final(self).spec_state()),
    {
        let mut payload = payload;
        payload.reset_failures();
        self.state = CacheState::Ready(payload);
    }

    /// Attempt to transition into the refreshing state when the scheduled
    /// refresh is due; refused otherwise.
    pub fn begin_refresh(&mut self, now: u64) -> (r: bool)
        ensures
            final(self).spec_tenant_id() == old(self).spec_tenant_id(),
            final(self).spec_provider_id() == old(self).spec_provider_id(),
            (old(self).spec_state() matches CacheState::Ready(p) && now >= p.next_refresh_at)
                ==> final(self).spec_state() == CacheState::Refreshing(
                old(self).spec_state()->Ready_0,
            ) && r,
            (old(self).spec_state() matches CacheState::Ready(p) && now < p.next_refresh_at)
                ==> final(self).spec_state() == old(self).spec_state() && !r,
            !(old(self).spec_state() is Ready) ==> final(self).spec_state() == old(
                self,
            ).spec_state() && !r,
            entry_step(old(self).spec_state(), final(self).spec_state()),
    {
        let mut taken = CacheState::Empty;
        std::mem::swap(&mut taken, &mut self.state);
        match taken {
            CacheState::Ready(payload) => {
                if now >= payload.next_refresh_at {
                    self.state = CacheState::Refreshing(payload);
                    true
                } else {
                    self.state = CacheState::Ready(payload);
                    false
                }
            },
            other => {
                self.state = other;
                false
            },
        }
    }

    /// Record a successful refresh, publishing the new payload with failure
    /// bookkeeping reset.
    pub fn refresh_success(&mut self, payload: CachePayload)
        requires
            old(self).spec_state() is Ready || old(self).spec_state() is Refreshing,
        ensures
            final(self).spec_tenant_id() == old(self).spec_tenant_id(),
            final(self).spec_provider_id() == old(self).spec_provider_id(),
            final(self).spec_state() == CacheState::Ready(
                CachePayload { error_count: 0, retry_backoff: None, ..payload },
            ),
            entry_step(old(self).spec_state(), final(self).spec_state()),
    {
        let mut payload = payload;
        payload.reset_failures();
        self.state = CacheState::Ready(payload);
    }

    /// Record a refresh failure and decide whether stale data stays active.
    ///
    /// When a backoff is provided, the next refresh instant moves to
    /// `now + backoff`, a cooldown on top of the scheduled refresh window.
    /// When the failed payload can no longer be served stale, the entry
    /// empties.
    pub fn refresh_failure(&mut self, now: u64, next_backoff: Option<u64>)
        ensures
            final(self).spec_tenant_id() == old(self).spec_tenant_id(),
            final(self).spec_provider_id() == old(self).spec_provider_id(),
            old(self).spec_state() matches CacheState::Refreshing(p) ==> ({
                let q = failed_payload(p, now, next_backoff);
                if can_stale(&q, now) {
                    final(self).spec_state() == CacheState::Ready(q)
                } else {
                    final(self).spec_state() is Empty
                }
            }),
            !(old(self).spec_state() is Refreshing) ==> final(self).spec_state() == old(
                self,
            ).spec_state(),
            entry_step(old(self).spec_state(), final(self).spec_state()),
    {
        let mut taken = CacheState::Empty;
        std::mem::swap(&mut taken, &mut self.state);
        match taken {
            CacheState::Refreshing(mut payload) => {
                payload.bump_error(next_backoff);
                if let Some(delay) = next_backoff {
                    payload.next_refresh_at = add_ms(now, delay);
                }
                if payload.can_serve_stale(now) {
                    self.state = CacheState::Ready(payload);
                } else {
                    self.state = CacheState::Empty;
                }
            },
            other => {
                self.state = other;
            },
        }
    }

    /// Invalidate the cached payload, returning to the empty state.
    pub fn invalidate(&mut self)
        ensures
            final(self).spec_tenant_id() == old(self).spec_tenant_id(),
            final(self).spec_provider_id() == old(self).spec_provider_id(),
            final(self).spec_state() is Empty,
            entry_step(old(self).spec_state(), final(self).spec_state()),
    {
        self.state = CacheState::Empty;
    }

    /// Retrieve a copy of the cached payload if present.
    pub fn snapshot(&self) -> (r: Option<CachePayload>)
        ensures
            r is Some <==> (self.spec_state() is Ready || self.spec_state() is Refreshing),
            self.spec_state() matches CacheState::Ready(p) ==> (r matches Some(q)
                && payload_like(&q, &p)),
            self.spec_state() matches CacheState::Refreshing(p) ==> (r matches Some(q)
                && payload_like(&q, &p)),
    {
        match &self.state {
            CacheState::Ready(payload) => Some(payload.clone()),
            CacheState::Refreshing(payload) => Some(payload.clone()),
            _ => None,
        }
    }

    /// Decide how an explicit admin refresh proceeds: an empty entry loads
    /// in the foreground; an in-flight fetch coalesces; a ready payload is
    /// promoted to refreshing for a background task, regardless of the
    /// scheduled refresh instant.
    pub fn trigger_refresh_decision(&mut self) -> (r: RefreshTrigger)
        ensures
            final(self).spec_tenant_id() == old(self).spec_tenant_id(),
            final(self).spec_provider_id() == old(self).spec_provider_id(),
            old(self).spec_state() is Empty ==> final(self).spec_state() is Loading && r
                == RefreshTrigger::Blocking,
            (old(self).spec_state() is Loading || old(self).spec_state() is Refreshing)
                ==> final(self).spec_state() == old(self).spec_state() && r
                == RefreshTrigger::Skip,
            old(self).spec_state() matches CacheState::Ready(p) ==> final(self).spec_state()
                == CacheState::Refreshing(p) && r == RefreshTrigger::Background,
            entry_step(old(self).spec_state(), final(self).spec_state()),
    {
        let mut taken = CacheState::Empty;
        std::mem::swap(&mut taken, &mut self.state);
        match taken {
            CacheState::Empty => {
                self.state = CacheState::Loading;
                RefreshTrigger::Blocking
            },
            CacheState::Ready(payload) => {
                self.state = CacheState::Refreshing(payload);
                RefreshTrigger::Background
            },
            other => {
                self.state = other;
                RefreshTrigger::Skip
            },
        }
    }
}

/// Law: one legal step out of an empty entry reaches only `Empty` or
/// `Loading`; a usable payload never appears in a single move.
pub proof fn lemma_empty_step_never_ready(pre: CacheState, post: CacheState)
    requires
        entry_step(pre, post),
        pre is Empty,
    ensures
        post is Empty || post is Loading,
{
}

/// Law: along any legal run from `Empty` to `Ready`, some intermediate
/// state is `Loading`: a payload is always preceded by a load in flight.
pub proof fn lemma_loading_precedes_ready(states: Seq<CacheState>)
    requires
        states.len() >= 1,
        states[0] is Empty,
        states.last() is Ready,
        forall|k: int| 0 <= k < states.len() - 1 ==> entry_step(#[trigger] states[k], states[k + 1]),
    ensures
        exists|i: int| 0 <= i < states.len() && states[i] is Loading,
    decreases states.len(),
{
    assert(states.len() >= 2);
    assert(entry_step(states[0], states[1]));
    if states[1] is Loading {
        assert(states[1] is Loading);
    } else {
        assert(states[1] is Empty);
        let rest = states.drop_first();
        assert(rest[0] is Empty);
        assert(rest.last() == states.last());
        assert(forall|k: int|
            0 <= k < rest.len() - 1 ==> entry_step(#[trigger] rest[k], rest[k + 1]));
        lemma_loading_precedes_ready(rest);
        let i = choose|i: int| 0 <= i < rest.len() && rest[i] is Loading;
        assert(states[i + 1] is Loading);
    }
}

} // verus!
