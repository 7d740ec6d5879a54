//! Time keeping: the tick counter that timer interrupts advance, and the
//! arithmetic of one-shot timers.

use core::sync::atomic::{AtomicU64, Ordering};
use vstd::prelude::*;

verus! {

/// Advances the tick counter that timer interrupts keep by one (wrapping
/// at the top of `u64`), atomically, with relaxed ordering.
pub fn increment_global_ticks(ticks: &AtomicU64) {
    ticks.fetch_add(1, Ordering::Relaxed);
}

/// The epoch offset in nanoseconds (wall time offset to the start of the
/// monotonic clock): this platform has no wall clock, so it is 0.
pub fn epochoffset_nanos() -> (offset: u64)
    ensures
        offset == 0,
{
    0
}

/// The ticks from `now_ticks` until a one-shot timer fires at
/// `deadline_ticks`: none when the deadline has passed.
pub fn oneshot_interval(now_ticks: u64, deadline_ticks: u64) -> (interval: u64)
    ensures
        interval == (if now_ticks < deadline_ticks {
            deadline_ticks - now_ticks
        } else {
            0
        }),
        now_ticks < deadline_ticks ==> now_ticks + interval == deadline_ticks,
{
    if now_ticks < deadline_ticks {
        deadline_ticks - now_ticks
    } else {
        0
    }
}

} // verus!
