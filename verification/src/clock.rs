//! Saturating arithmetic over millisecond timestamps.
//!
//! Monotonic instants and durations are `u64` milliseconds; wall-clock
//! timestamps are `i64` milliseconds since the Unix epoch.

use vstd::prelude::*;

verus! {

/// The largest wall-clock timestamp, in epoch milliseconds, that the HTTP
/// date machinery can render: the last millisecond of year 9999.
pub const MAX_WALL_MS: i64 = 253_402_300_799_999;

/// Saturating addition on `u64` milliseconds.
pub open spec fn sat_add(a: u64, b: u64) -> u64 {
    if a + b > u64::MAX {
        u64::MAX
    } else {
        (a + b) as u64
    }
}

/// Saturating subtraction on `u64` milliseconds.
pub open spec fn sat_sub(a: u64, b: u64) -> u64 {
    if a >= b {
        (a - b) as u64
    } else {
        0
    }
}

/// Saturating addition, executable form.
pub fn add_ms(a: u64, b: u64) -> (r: u64)
    ensures
        r == sat_add(a, b),
{
    if b > u64::MAX - a {
        u64::MAX
    } else {
        a + b
    }
}

/// Saturating subtraction, executable form.
pub fn sub_ms(a: u64, b: u64) -> (r: u64)
    ensures
        r == sat_sub(a, b),
{
    if a >= b {
        a - b
    } else {
        0
    }
}

/// A monotonic instant translated to wall-clock time through a captured
/// correspondence point, when the translation stays within `i64` range.
pub open spec fn wall_of_instant(instant: u64, captured_at: u64, captured_wall: i64) -> Option<
    i64,
> {
    if instant >= captured_at {
        let delta = instant - captured_at;
        if delta > i64::MAX || captured_wall + delta > i64::MAX {
            None
        } else {
            Some((captured_wall + delta) as i64)
        }
    } else {
        let delta = captured_at - instant;
        if delta > i64::MAX || captured_wall - delta < i64::MIN {
            None
        } else {
            Some((captured_wall - delta) as i64)
        }
    }
}

/// Translate a monotonic instant to wall-clock time through a captured
/// correspondence point.
pub fn instant_to_wall(instant: u64, captured_at: u64, captured_wall: i64) -> (r: Option<i64>)
    ensures
        r == wall_of_instant(instant, captured_at, captured_wall),
{
    if instant >= captured_at {
        let delta = instant - captured_at;
        if delta > i64::MAX as u64 {
            return None;
        }
        captured_wall.checked_add(delta as i64)
    } else {
        let delta = captured_at - instant;
        if delta > i64::MAX as u64 {
            return None;
        }
        captured_wall.checked_sub(delta as i64)
    }
}

} // verus!
