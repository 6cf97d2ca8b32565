//! Elapsed-time gating shared by the per-metric, per-table and name-cache
//! refresh cadences. Times are milliseconds on a monotonic scale supplied by
//! the caller; a fixed interval is the whole retry policy, there is no
//! backoff.

use vstd::prelude::*;

verus! {

/// Holds when at least `interval_ms` has passed between `stamp_ms` and
/// `now_ms`. A clock that moved backwards reads as "not yet elapsed".
pub open spec fn spec_elapsed_at_least(stamp_ms: u64, now_ms: u64, interval_ms: u64) -> bool {
    now_ms >= stamp_ms && now_ms - stamp_ms >= interval_ms
}

/// Holds when a refresh stamped `last_ms` is due again at `now_ms`: either
/// nothing was ever refreshed, or the interval has fully elapsed.
pub open spec fn spec_due(last_ms: Option<u64>, now_ms: u64, interval_ms: u64) -> bool {
    match last_ms {
        None => true,
        Some(stamp) => spec_elapsed_at_least(stamp, now_ms, interval_ms),
    }
}

/// Decides whether a refresh is due, per `spec_due`.
pub fn refresh_due(last_ms: Option<u64>, now_ms: u64, interval_ms: u64) -> (r: bool)
    ensures
        r == spec_due(last_ms, now_ms, interval_ms),
{
    match last_ms {
        None => true,
        Some(stamp) => now_ms >= stamp && now_ms - stamp >= interval_ms,
    }
}

} // verus!
