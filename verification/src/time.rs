//! Points in time.

use vstd::prelude::*;

verus! {

/// A point in time, as whole seconds since the Unix epoch and the nanoseconds
/// into that second.
///
/// A leap second counts its nanoseconds on from those of the second before it,
/// so `nanos` may exceed one thousand million.
#[derive(Debug, Clone, Copy, PartialEq, Eq, PartialOrd, Ord, Structural)]
pub struct Timestamp {
    pub secs: i64,
    pub nanos: u32,
}

impl Timestamp {
    /// `self` is not after `other`.
    pub open spec fn at_or_before(self, other: Timestamp) -> bool {
        self.secs < other.secs || (self.secs == other.secs && self.nanos <= other.nanos)
    }

    /// A point in time that the clock can show: it does not lie before the epoch, and
    /// within its second.
    pub open spec fn is_clock_reading(self) -> bool {
        self.secs >= 0 && self.nanos < 1_000_000_000
    }

    /// The earlier of two points in time.
    pub open spec fn earlier_of(self, other: Timestamp) -> Timestamp {
        if self.at_or_before(other) {
            self
        } else {
            other
        }
    }

    /// The later of two points in time.
    pub open spec fn later_of(self, other: Timestamp) -> Timestamp {
        if self.at_or_before(other) {
            other
        } else {
            self
        }
    }

    /// Returns the earlier of two points in time.
    pub fn earlier(self, other: Timestamp) -> (first: Timestamp)
        ensures
            first == self.earlier_of(other),
    {
        if self.secs < other.secs || (self.secs == other.secs && self.nanos <= other.nanos) {
            self
        } else {
            other
        }
    }

    /// Returns the later of two points in time.
    pub fn later(self, other: Timestamp) -> (last: Timestamp)
        ensures
            last == self.later_of(other),
    {
        if self.secs < other.secs || (self.secs == other.secs && self.nanos <= other.nanos) {
            other
        } else {
            self
        }
    }
}

/// Points in time are totally ordered: of two one is not after the other, two
/// that are not after each other are the same, and the order is transitive.
pub proof fn timestamps_are_ordered(a: Timestamp, b: Timestamp, c: Timestamp)
    ensures
        a.at_or_before(b) || b.at_or_before(a),
        a.at_or_before(b) && b.at_or_before(a) ==> a == b,
        a.at_or_before(b) && b.at_or_before(c) ==> a.at_or_before(c),
{
}

/// The earlier and the later of two points in time are those two, in order,
/// whichever of them comes first.
pub proof fn earlier_and_later_sort_a_pair(a: Timestamp, b: Timestamp)
    ensures
        a.earlier_of(b).at_or_before(a.later_of(b)),
        a.earlier_of(b) == b.earlier_of(a),
        a.later_of(b) == b.later_of(a),
        a.earlier_of(b).at_or_before(a) && a.earlier_of(b).at_or_before(b),
        a.at_or_before(a.later_of(b)) && b.at_or_before(a.later_of(b)),
{
}

/// Reads the system clock with `chrono::Utc::now`.
///
/// `Utc::now` builds its result from the time that has passed since the Unix
/// epoch, in whole seconds and the nanoseconds within the second. So the
/// seconds are not negative and the nanoseconds stay below one second.
/// Nothing else is claimed: two readings need not differ, nor be in order.
/// (`Utc::now` panics where the system clock is set before the epoch.)
#[verifier::external_body]
pub(crate) fn utc_now() -> (now: Timestamp)
    ensures
        now.is_clock_reading(),
{
    let now = chrono::Utc::now();
    Timestamp { secs: now.timestamp(), nanos: now.timestamp_subsec_nanos() }
}

} // verus!
