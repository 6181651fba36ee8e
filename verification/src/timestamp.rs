//! The canonical absolute time value.
//!
//! Both capture formats resolve to the same representation: whole seconds
//! since a fixed epoch plus nanoseconds within the second. Timestamps of one
//! stream are only ever compared with each other, through their total
//! nanosecond value.

use vstd::prelude::*;

verus! {

/// Seconds since the epoch plus nanoseconds within the second.
#[derive(Clone, Copy, Debug, PartialEq, Eq, Structural)]
pub struct AbsoluteTimestamp {
    pub secs: i64,
    pub nanos: u32,
}

/// The difference of two timestamps, in nanoseconds.
pub open spec fn diff_nanos(a: AbsoluteTimestamp, b: AbsoluteTimestamp) -> int {
    a.as_nanos() - b.as_nanos()
}

impl AbsoluteTimestamp {
    /// A well-formed timestamp keeps the sub-second part below one second.
    pub open spec fn wf(self) -> bool {
        self.nanos < 1_000_000_000
    }

    /// The timestamp as a single nanosecond count since the epoch.
    pub open spec fn as_nanos(self) -> int {
        self.secs * 1_000_000_000 + self.nanos
    }

    /// The epoch itself: the sentinel the aggregator starts from.
    pub fn epoch() -> (r: AbsoluteTimestamp)
        ensures
            r == (AbsoluteTimestamp { secs: 0, nanos: 0 }),
            r.wf(),
    {
        AbsoluteTimestamp { secs: 0, nanos: 0 }
    }

    /// Exact signed difference `self - other` in nanoseconds; 128-bit, so it
    /// cannot overflow for any pair of timestamps.
    pub fn sub_nanos(self, other: AbsoluteTimestamp) -> (r: i128)
        ensures
            r == diff_nanos(self, other),
    {
        (self.secs as i128 - other.secs as i128) * 1_000_000_000
            + (self.nanos as i128 - other.nanos as i128)
    }
}

} // verus!
