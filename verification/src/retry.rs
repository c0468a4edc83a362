//! Retry policy and executor: attempt budgeting inside a wall-clock
//! deadline, with jittered exponential backoff.

use vstd::prelude::*;

use crate::clock::add_ms;
use crate::clock::sat_add;
use crate::clock::sat_sub;
use crate::clock::sub_ms;
use crate::error::Error;
use crate::error::JwksResult;
use vstd::arithmetic::power2::lemma2_to64;
use vstd::arithmetic::power2::lemma_pow2_adds;
use vstd::arithmetic::power2::lemma_pow2_strictly_increases;
use vstd::arithmetic::power2::pow2;

verus! {

/// Relies on `rand::random_range`: the result lies in the inclusive range;
/// the call panics on an empty range, which the precondition excludes.
/// Nothing more can be promised of a random draw.
#[verifier::external_body]
pub(crate) fn random_in_range(lo: u64, hi: u64) -> (r: u64)
    requires
        lo <= hi,
    ensures
        lo <= r <= hi,
{
    rand::random_range(lo..=hi)
}

/// Supported jitter strategies for retry policies.
#[derive(Clone, Debug, Copy, PartialEq, Eq, Structural)]
pub enum JitterStrategy {
    /// No jitter; deterministic backoff schedule.
    NoJitter,
    /// Full jitter; randomize delay near the current backoff.
    Full,
    /// Decorrelated jitter per common architecture guidance.
    Decorrelated,
}

/// Retry configuration for HTTP fetch operations. Durations are in
/// milliseconds.
#[derive(Clone, Debug, Copy, PartialEq, Eq, Structural)]
pub struct RetryPolicy {
    /// Maximum number of retry attempts after the initial request.
    pub max_retries: u32,
    /// Timeout applied to each individual HTTP attempt.
    pub attempt_timeout: u64,
    /// Initial delay before retrying after a failure.
    pub initial_backoff: u64,
    /// Upper bound applied to exponential backoff growth.
    pub max_backoff: u64,
    /// Overall deadline that bounds the entire retry sequence.
    pub deadline: u64,
    /// Strategy used to randomize the computed backoff.
    pub jitter: JitterStrategy,
}

impl RetryPolicy {
    /// The documented invariants of a retry configuration.
    pub open spec fn wf(&self) -> bool {
        &&& self.attempt_timeout >= 100
        &&& self.initial_backoff > 0
        &&& self.max_backoff >= self.initial_backoff
        &&& self.deadline >= self.attempt_timeout
    }

    /// Exponential backoff before jitter: `initial_backoff * 2^min(a, 32)`,
    /// clamped into `[initial_backoff, max_backoff]`.
    pub open spec fn backoff_clamped(&self, attempt: u32) -> int {
        let e = if attempt > 32 {
            32nat
        } else {
            attempt as nat
        };
        let raw = self.initial_backoff * pow2(e);
        let capped = if raw <= self.max_backoff {
            raw as int
        } else {
            self.max_backoff as int
        };
        if capped >= self.initial_backoff {
            capped
        } else {
            self.initial_backoff as int
        }
    }

    /// Lower bound of the full-jitter window.
    pub open spec fn full_jitter_lo(&self, bounded: int) -> int {
        let scaled = (4 * bounded) / 5;
        if scaled >= self.initial_backoff {
            scaled
        } else {
            self.initial_backoff as int
        }
    }

    /// Upper bound of the full-jitter window.
    pub open spec fn full_jitter_hi(&self, bounded: int) -> int {
        if bounded <= self.max_backoff {
            bounded
        } else {
            self.max_backoff as int
        }
    }

    /// Upper bound of the decorrelated-jitter window.
    pub open spec fn decorrelated_hi(&self, attempt: u32, bounded: int) -> int {
        let prev = if attempt == 0 {
            self.initial_backoff as int
        } else {
            bounded
        };
        let three = if 3 * prev > u64::MAX {
            u64::MAX as int
        } else {
            3 * prev
        };
        let ceiling = if three <= self.max_backoff {
            three
        } else {
            self.max_backoff as int
        };
        if ceiling >= self.initial_backoff {
            ceiling
        } else {
            self.initial_backoff as int
        }
    }

    /// What a drawn backoff may be, for a given attempt index: exact without
    /// jitter, within the strategy's window otherwise.
    pub open spec fn backoff_in_range(&self, attempt: u32, d: u64) -> bool {
        let bounded = self.backoff_clamped(attempt);
        match self.jitter {
            JitterStrategy::NoJitter => d == bounded,
            JitterStrategy::Full => {
                let lo = self.full_jitter_lo(bounded);
                let hi = self.full_jitter_hi(bounded);
                if hi <= lo {
                    d == hi
                } else {
                    lo <= d <= hi
                }
            },
            JitterStrategy::Decorrelated => {
                let hi = self.decorrelated_hi(attempt, bounded);
                if hi <= self.initial_backoff {
                    d == hi
                } else {
                    self.initial_backoff <= d <= hi
                }
            },
        }
    }

    /// Validate invariants for retry configuration.
    pub fn validate(&self) -> (r: JwksResult<()>)
        ensures
            r is Ok <==> self.wf(),
            r matches Err(e) ==> e is Validation,
    {
        if self.attempt_timeout < 100 {
            return Err(Error::Validation {
                field: "retry_policy.attempt_timeout".to_owned(),
                reason: "Must be at least 100 ms.".to_owned(),
            });
        }
        if self.initial_backoff == 0 {
            return Err(Error::Validation {
                field: "retry_policy.initial_backoff".to_owned(),
                reason: "Must be greater than zero.".to_owned(),
            });
        }
        if self.max_backoff < self.initial_backoff {
            return Err(Error::Validation {
                field: "retry_policy.max_backoff".to_owned(),
                reason: "Must be greater than or equal to initial_backoff.".to_owned(),
            });
        }
        if self.deadline < self.attempt_timeout {
            return Err(Error::Validation {
                field: "retry_policy.deadline".to_owned(),
                reason: "Must be greater than or equal to attempt_timeout.".to_owned(),
            });
        }
        Ok(())
    }

    /// Compute backoff for a retry attempt using the selected jitter strategy.
    pub fn compute_backoff(&self, attempt: u32) -> (r: u64)
        ensures
            self.backoff_in_range(attempt, r),
            self.initial_backoff <= self.max_backoff ==> r <= self.max_backoff,
    {
        self.default_backoff(attempt)
    }

    /// Exponential backoff with jitter.
    pub fn default_backoff(&self, attempt: u32) -> (r: u64)
        ensures
            self.backoff_in_range(attempt, r),
            self.initial_backoff <= self.max_backoff ==> r <= self.max_backoff,
    {
        let exponent: u32 = if attempt > 32 {
            32
        } else {
            attempt
        };
        let mut factor: u64 = 1;
        let mut i: u32 = 0;
        proof {
            lemma2_to64();
        }
        while i < exponent
            invariant
                0 <= i <= exponent <= 32,
                factor == pow2(i as nat),
            decreases exponent - i,
        {
            proof {
                lemma2_to64();
                lemma_pow2_adds(i as nat, 1);
                if i + 1 < 32 {
                    lemma_pow2_strictly_increases((i + 1) as nat, 32);
                }
            }
            factor = factor * 2;
            i += 1;
        }
        let capped = match self.initial_backoff.checked_mul(factor) {
            Some(v) => {
                if v <= self.max_backoff {
                    v
                } else {
                    self.max_backoff
                }
            },
            None => self.max_backoff,
        };
        let bounded = if capped >= self.initial_backoff {
            capped
        } else {
            self.initial_backoff
        };
        assert(bounded == self.backoff_clamped(attempt));
        self.apply_jitter(bounded, attempt)
    }

    fn apply_jitter(&self, bounded: u64, attempt: u32) -> (r: u64)
        requires
            bounded == self.backoff_clamped(attempt),
        ensures
            self.backoff_in_range(attempt, r),
            self.initial_backoff <= self.max_backoff ==> r <= self.max_backoff,
    {
        match self.jitter {
            JitterStrategy::NoJitter => bounded,
            JitterStrategy::Full => {
                let scaled = ((bounded as u128 * 4) / 5) as u64;
                assert(scaled == (4 * bounded) / 5);
                let lower = if scaled >= self.initial_backoff {
                    scaled
                } else {
                    self.initial_backoff
                };
                let upper = if bounded <= self.max_backoff {
                    bounded
                } else {
                    self.max_backoff
                };
                random_within(lower, upper)
            },
            JitterStrategy::Decorrelated => {
                let prev = if attempt == 0 {
                    self.initial_backoff
                } else {
                    bounded
                };
                let three = match prev.checked_mul(3) {
                    Some(v) => v,
                    None => u64::MAX,
                };
                let ceiling = if three <= self.max_backoff {
                    three
                } else {
                    self.max_backoff
                };
                let hi = if ceiling >= self.initial_backoff {
                    ceiling
                } else {
                    self.initial_backoff
                };
                random_within(self.initial_backoff, hi)
            },
        }
    }
}

impl Default for RetryPolicy {
    /// Two retries, 3 s attempt timeout, 250 ms initial backoff capped at
    /// 2 s, 8 s overall deadline, full jitter.
    fn default() -> (r: Self)
        ensures
            r == (RetryPolicy {
                max_retries: 2,
                attempt_timeout: 3000,
                initial_backoff: 250,
                max_backoff: 2000,
                deadline: 8000,
                jitter: JitterStrategy::Full,
            }),
    {
        RetryPolicy {
            max_retries: 2,
            attempt_timeout: 3000,
            initial_backoff: 250,
            max_backoff: 2000,
            deadline: 8000,
            jitter: JitterStrategy::Full,
        }
    }
}

/// A random draw in `[lo, hi]`; when the window is inverted the upper end
/// is returned as-is.
fn random_within(lo: u64, hi: u64) -> (r: u64)
    ensures
        hi <= lo ==> r == hi,
        lo < hi ==> lo <= r <= hi,
{
    if hi <= lo {
        hi
    } else {
        random_in_range(lo, hi)
    }
}

/// Result of budgeting a retry attempt.
#[derive(Clone, Copy, Debug, PartialEq, Eq, Structural)]
pub enum AttemptBudget {
    /// Additional attempt is permitted with the provided per-attempt timeout.
    Granted {
        /// Timeout window allocated for the upcoming attempt, milliseconds.
        timeout: u64,
    },
    /// Retry window exhausted; no further attempts allowed.
    Exhausted,
}

/// Controls retry backoff progression and attempt budgeting. The deadline
/// is snapshotted at construction; methods take the current monotonic time.
#[derive(Clone, Copy, Debug, PartialEq, Eq, Structural)]
pub struct RetryExecutor {
    policy: RetryPolicy,
    deadline: u64,
    retries_used: u32,
}

impl RetryExecutor {
    /// The policy this executor follows.
    pub closed spec fn spec_policy(&self) -> RetryPolicy {
        self.policy
    }

    /// The absolute monotonic deadline of the whole retry sequence.
    pub closed spec fn spec_deadline(&self) -> u64 {
        self.deadline
    }

    /// How many retries have been consumed.
    pub closed spec fn spec_retries_used(&self) -> u32 {
        self.retries_used
    }

    /// Create a new executor respecting the supplied retry policy; the
    /// wall-clock deadline is `now + policy.deadline`.
    pub fn new(policy: &RetryPolicy, now: u64) -> (r: Self)
        ensures
            r.spec_policy() == *policy,
            r.spec_deadline() == sat_add(now, policy.deadline),
            r.spec_retries_used() == 0,
    {
        RetryExecutor { policy: *policy, deadline: add_ms(now, policy.deadline), retries_used: 0 }
    }

    /// What `attempt_budget` grants: the lesser of the remaining wall-clock
    /// budget and the per-attempt timeout; exhausted when either is zero.
    pub open spec fn spec_attempt_budget(&self, now: u64) -> AttemptBudget {
        let remaining = sat_sub(self.spec_deadline(), now);
        let timeout = if remaining <= self.spec_policy().attempt_timeout {
            remaining
        } else {
            self.spec_policy().attempt_timeout
        };
        if timeout == 0 {
            AttemptBudget::Exhausted
        } else {
            AttemptBudget::Granted { timeout }
        }
    }

    /// Budget the next attempt, returning either the permitted timeout or
    /// exhaustion.
    pub fn attempt_budget(&self, now: u64) -> (r: AttemptBudget)
        ensures
            r == self.spec_attempt_budget(now),
    {
        let remaining = sub_ms(self.deadline, now);
        if remaining == 0 {
            AttemptBudget::Exhausted
        } else {
            let timeout = if remaining <= self.policy.attempt_timeout {
                remaining
            } else {
                self.policy.attempt_timeout
            };
            if timeout == 0 {
                AttemptBudget::Exhausted
            } else {
                AttemptBudget::Granted { timeout }
            }
        }
    }

    /// Whether another retry is permitted under the policy.
    pub fn can_retry(&self) -> (r: bool)
        ensures
            r == (self.spec_retries_used() < self.spec_policy().max_retries),
    {
        self.retries_used < self.policy.max_retries
    }

    /// Remaining wall-clock budget for the overall retry window.
    pub fn remaining_budget(&self, now: u64) -> (r: u64)
        ensures
            r == sat_sub(self.spec_deadline(), now),
    {
        sub_ms(self.deadline, now)
    }

    /// Number of retries that have already been consumed.
    pub fn attempts_used(&self) -> (r: u32)
        ensures
            r == self.spec_retries_used(),
    {
        self.retries_used
    }

    /// Advance retry state and compute the backoff delay before the next
    /// attempt: a jittered draw for the current attempt index, clamped by
    /// the remaining wall-clock budget; nothing when retries are exhausted.
    pub fn next_backoff(&mut self, now: u64) -> (r: Option<u64>)
        ensures
            old(self).spec_retries_used() >= old(self).spec_policy().max_retries ==> r is None
                && *final(self) == *old(self),
            old(self).spec_retries_used() < old(self).spec_policy().max_retries ==> {
                &&& final(self).spec_policy() == old(self).spec_policy()
                &&& final(self).spec_deadline() == old(self).spec_deadline()
                &&& final(self).spec_retries_used() == old(self).spec_retries_used() + 1
                &&& r matches Some(d) && ({
                    let remaining = sat_sub(old(self).spec_deadline(), now);
                    if remaining == 0 {
                        d == 0
                    } else {
                        exists|b: u64|
                            #[trigger] old(self).spec_policy().backoff_in_range(
                                old(self).spec_retries_used(),
                                b,
                            ) && d == (if b <= remaining {
                                b
                            } else {
                                remaining
                            })
                    }
                })
            },
    {
        if !self.can_retry() {
            return None;
        }
        let attempt = self.retries_used;
        self.retries_used = self.retries_used + 1;
        let drawn = self.policy.compute_backoff(attempt);
        let remaining = sub_ms(self.deadline, now);
        let delay = if remaining == 0 {
            0
        } else if drawn <= remaining {
            drawn
        } else {
            remaining
        };
        Some(delay)
    }
}

} // verus!
