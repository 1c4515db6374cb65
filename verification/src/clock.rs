//! Time as the library sees it.
//!
//! Instants of the monotonic clock are counted in nanoseconds from a moment
//! that the embedding program picks. Wall-clock times, which are compared with
//! those of other machines, are counted from the Unix epoch.

use vstd::prelude::*;

verus! {

/// One second of the monotonic clock.
pub const SECOND: u64 = 1_000_000_000;

/// The time from `since` until `now`, or zero if `now` is the earlier one.
pub open spec fn spec_elapsed(since: u64, now: u64) -> int {
    if now >= since {
        now - since
    } else {
        0
    }
}

/// The time from `since` until `now`, or zero if `now` is the earlier one.
pub fn elapsed(since: u64, now: u64) -> (nanos: u64)
    ensures
        nanos == spec_elapsed(since, now),
{
    if now >= since {
        now - since
    } else {
        0
    }
}

/// A wall-clock time, as the whole seconds since the Unix epoch (negative
/// before it) and the nanoseconds past that second.
#[derive(Clone, Copy, Debug, PartialEq, Eq, Structural)]
pub struct WallTime {
    pub secs: i64,
    pub nanos: u32,
}

impl WallTime {
    /// Nanoseconds since the Unix epoch.
    pub open spec fn spec_total_nanos(self) -> int {
        self.secs * 1_000_000_000 + self.nanos
    }

    /// Nanoseconds since the Unix epoch.
    pub fn total_nanos(&self) -> (total: i128)
        ensures
            total == self.spec_total_nanos(),
    {
        (self.secs as i128) * 1_000_000_000 + (self.nanos as i128)
    }
}

/// Time that passes counts in full. Time that did not pass is none.
pub proof fn law_elapsed(since: u64, duration: u64, before: u64)
    requires
        since + duration <= u64::MAX,
        before <= since,
    ensures
        spec_elapsed(since, (since + duration) as u64) == duration,
        spec_elapsed(since, before) == 0,
{
}

/// Wall-clock times are as far apart as their seconds and nanoseconds say.
pub proof fn law_wall_times_are_far_apart(a: WallTime, b: WallTime)
    ensures
        a.secs == b.secs ==> a.spec_total_nanos() - b.spec_total_nanos() == a.nanos - b.nanos,
        a.nanos == b.nanos ==> a.spec_total_nanos() - b.spec_total_nanos() == (a.secs - b.secs)
            * 1_000_000_000,
        a.secs == 0 && a.nanos == 0 ==> a.spec_total_nanos() == 0,
{
}

} // verus!
