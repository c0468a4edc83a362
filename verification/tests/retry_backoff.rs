//! Retry budgeting and jittered exponential backoff.

use jwks_cache::error::Error;
use jwks_cache::retry::{AttemptBudget, JitterStrategy, RetryExecutor, RetryPolicy};

fn base_policy() -> RetryPolicy {
    RetryPolicy {
        max_retries: 5,
        attempt_timeout: 3_000,
        initial_backoff: 250,
        max_backoff: 2_000,
        deadline: 8_000,
        jitter: JitterStrategy::Full,
    }
}

#[test]
fn deterministic_backoff_doubles_and_clamps() {
    let policy = RetryPolicy { jitter: JitterStrategy::NoJitter, ..base_policy() };
    assert_eq!(policy.compute_backoff(0), 250);
    assert_eq!(policy.compute_backoff(1), 500);
    assert_eq!(policy.compute_backoff(2), 1_000);
    assert_eq!(policy.compute_backoff(3), 2_000);
    assert_eq!(policy.compute_backoff(4), 2_000);
    assert_eq!(policy.compute_backoff(60), 2_000);
}

#[test]
fn full_jitter_stays_within_window() {
    let policy = base_policy();
    for attempt in 0..6 {
        for _ in 0..50 {
            let d = policy.compute_backoff(attempt);
            assert!(d <= policy.max_backoff);
            assert!(d >= policy.initial_backoff);
        }
    }
}

#[test]
fn decorrelated_jitter_stays_within_window() {
    let policy = RetryPolicy { jitter: JitterStrategy::Decorrelated, ..base_policy() };
    for attempt in 0..6 {
        for _ in 0..50 {
            let d = policy.compute_backoff(attempt);
            assert!(d >= policy.initial_backoff);
            assert!(d <= policy.max_backoff);
        }
    }
}

#[test]
fn backoff_clamping_terminates_before_deadline() {
    // Five consecutive transport errors: every delay is at most the 2 s cap,
    // and the whole sequence ends on or before the 8 s deadline.
    let policy = base_policy();
    let mut executor = RetryExecutor::new(&policy, 0);
    let mut now: u64 = 0;

    for _ in 0..5 {
        match executor.attempt_budget(now) {
            AttemptBudget::Granted { timeout } => {
                assert!(timeout <= policy.attempt_timeout);
                now += 100; // the failed attempt itself took a moment
            },
            AttemptBudget::Exhausted => break,
        }
        match executor.next_backoff(now) {
            Some(delay) => {
                assert!(delay <= policy.max_backoff);
                assert!(delay <= executor.remaining_budget(now));
                now += delay;
            },
            None => break,
        }
    }
    assert!(now <= policy.deadline);
    assert_eq!(executor.attempt_budget(8_000), AttemptBudget::Exhausted);
}

#[test]
fn attempt_budget_grants_lesser_of_remaining_and_timeout() {
    let policy = base_policy();
    let executor = RetryExecutor::new(&policy, 1_000);
    assert_eq!(executor.attempt_budget(1_000), AttemptBudget::Granted { timeout: 3_000 });
    assert_eq!(executor.attempt_budget(7_500), AttemptBudget::Granted { timeout: 1_500 });
    assert_eq!(executor.attempt_budget(9_000), AttemptBudget::Exhausted);
    assert_eq!(executor.remaining_budget(5_000), 4_000);
}

#[test]
fn next_backoff_respects_retry_count() {
    let policy = RetryPolicy { max_retries: 2, ..base_policy() };
    let mut executor = RetryExecutor::new(&policy, 0);
    assert!(executor.can_retry());
    assert_eq!(executor.attempts_used(), 0);
    assert!(executor.next_backoff(10).is_some());
    assert!(executor.next_backoff(20).is_some());
    assert_eq!(executor.attempts_used(), 2);
    assert!(!executor.can_retry());
    assert!(executor.next_backoff(30).is_none());
}

#[test]
fn retry_policy_validation_rejects_each_bad_field() {
    let good = base_policy();
    assert!(good.validate().is_ok());

    let bad = RetryPolicy { attempt_timeout: 50, ..good };
    assert!(matches!(bad.validate(), Err(Error::Validation { .. })));
    let bad = RetryPolicy { initial_backoff: 0, ..good };
    assert!(matches!(bad.validate(), Err(Error::Validation { .. })));
    let bad = RetryPolicy { max_backoff: 100, ..good };
    assert!(matches!(bad.validate(), Err(Error::Validation { .. })));
    let bad = RetryPolicy { deadline: 2_000, ..good };
    assert!(matches!(bad.validate(), Err(Error::Validation { .. })));
}

#[test]
fn default_retry_policy_matches_documented_values() {
    let policy = RetryPolicy::default();
    assert_eq!(policy.max_retries, 2);
    assert_eq!(policy.attempt_timeout, 3_000);
    assert_eq!(policy.initial_backoff, 250);
    assert_eq!(policy.max_backoff, 2_000);
    assert_eq!(policy.deadline, 8_000);
    assert_eq!(policy.jitter, JitterStrategy::Full);
}
