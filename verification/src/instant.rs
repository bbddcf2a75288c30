//! Points in time.

use vstd::prelude::*;

verus! {

/// A point in time: whole seconds since the epoch, and the nanoseconds past them.
#[derive(Debug, Clone, Copy, PartialEq, Eq, Structural)]
pub struct Instant {
    pub seconds: i64,
    pub nanos: u32,
}

impl Instant {
    /// Nanoseconds since the epoch.
    pub open spec fn since_epoch(self) -> int {
        self.seconds * 1_000_000_000 + self.nanos
    }

    /// Whether more than `seconds` seconds lie between `earlier` and this instant.
    pub fn is_later_by_more_than(&self, earlier: &Instant, seconds: u32) -> (r: bool)
        ensures
            r == (self.since_epoch() - earlier.since_epoch() > seconds * 1_000_000_000),
    {
        let here: i128 = self.seconds as i128 * 1_000_000_000 + self.nanos as i128;
        let there: i128 = earlier.seconds as i128 * 1_000_000_000 + earlier.nanos as i128;
        here - there > seconds as i128 * 1_000_000_000
    }

    /// Whether this instant comes after `other`.
    pub fn is_after(&self, other: &Instant) -> (r: bool)
        ensures
            r == (self.since_epoch() > other.since_epoch()),
    {
        self.is_later_by_more_than(other, 0)
    }
}

/// Instants are counted from the epoch. A later second is a thousand million nanoseconds
/// later, and within a second an instant is later by the nanoseconds.
pub proof fn law_instants_are_counted_in_nanoseconds(a: Instant, b: Instant)
    ensures
        a.seconds == 0 && a.nanos == 0 ==> a.since_epoch() == 0,
        a.seconds == b.seconds ==> a.since_epoch() - b.since_epoch() == a.nanos - b.nanos,
        a.nanos == b.nanos ==> a.since_epoch() - b.since_epoch() == (a.seconds - b.seconds)
            * 1_000_000_000,
{
}

} // verus!
