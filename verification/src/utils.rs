//! The byte-counter value type and its interval-delta arithmetic.

use vstd::prelude::*;

verus! {

/// Number of columns a rendered counter occupies; purely cosmetic,
/// used by display layers for columnar formatting.
pub const NUM_BYTES_DISPLAY_WIDTH: usize = 10;

/// The interval between two readings of one counter: the elapsed bytes
/// when the counter did not decrease, and zero when it did (a device
/// reset, or a narrow hardware counter that wrapped).
pub open spec fn counter_delta(cur: u64, prev: u64) -> u64 {
    if cur >= prev {
        (cur - prev) as u64
    } else {
        0
    }
}

/// A byte counter: a count of bytes reported by the OS for one
/// interface since some reference point.
#[derive(Clone, Copy, Debug, PartialEq, Eq, Structural)]
pub struct NumBytes {
    pub bytes: u64,
}

impl NumBytes {
    /// Wraps a raw count.
    pub fn from_u64(bytes: u64) -> (r: NumBytes)
        ensures
            r.bytes == bytes,
    {
        NumBytes { bytes }
    }

    /// The traffic during the interval between a previous reading
    /// `prev` and this reading. Counters are monotone in principle, but
    /// a device reset or a narrow hardware counter can make a reading
    /// decrease; such an interval is reported as zero traffic rather
    /// than as a huge wrapped value.
    pub fn delta(&self, prev: &NumBytes) -> (r: NumBytes)
        ensures
            r.bytes == counter_delta(self.bytes, prev.bytes),
    {
        if self.bytes >= prev.bytes {
            NumBytes { bytes: self.bytes - prev.bytes }
        } else {
            NumBytes { bytes: 0 }
        }
    }
}

/// A counter observed at two ticks as `a` then `b` with `b >= a` yields
/// an interval of exactly `b - a`.
pub proof fn lemma_counter_delta_exact(a: u64, b: u64)
    requires
        b >= a,
    ensures
        counter_delta(b, a) == b - a,
{
}

} // verus!
