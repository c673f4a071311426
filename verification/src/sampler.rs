//! Per-tick deltas from cumulative disk counters.
//!
//! The OS reports monotonic totals (bytes read, bytes written since
//! boot). The monitor charges each tick only with the bytes that arrived
//! since the previous tick, by keeping the previous reading and
//! subtracting. Subtraction saturates: a counter reset yields a delta of
//! zero, never an underflow or a panic.

use vstd::prelude::*;

verus! {

/// Change between two consecutive cumulative counter readings: the
/// difference when the later reading `curr` is at least the earlier
/// `prev`, and zero when the counter has reset below `prev`.
pub open spec fn saturating_delta(prev: nat, curr: nat) -> nat {
    if curr >= prev {
        (curr - prev) as nat
    } else {
        0
    }
}

/// Sum of two byte counts, clamped at the largest representable value.
pub open spec fn clamped_sum(a: nat, b: nat) -> nat {
    if a + b <= u64::MAX {
        a + b
    } else {
        u64::MAX as nat
    }
}

/// The per-tick delta of one cumulative counter: `curr - prev` when the
/// second reading is at least the first, else zero (counter reset).
pub fn counter_delta(prev: u64, curr: u64) -> (d: u64)
    ensures
        d == saturating_delta(prev as nat, curr as nat),
        curr >= prev ==> d == curr - prev,
        curr < prev ==> d == 0,
{
    if curr >= prev {
        curr - prev
    } else {
        0
    }
}

/// The previous tick's cumulative read and write counters for a disk,
/// kept so that the next tick is charged only with the bytes that
/// arrived in between. Overwritten on every tick.
pub struct DiskCounterState {
    pub prev_read: u64,
    pub prev_written: u64,
}

impl DiskCounterState {
    /// Starts from zeroed counters, so the first tick reports the whole
    /// cumulative total as its delta.
    pub fn new() -> (s: Self)
        ensures
            s.prev_read == 0,
            s.prev_written == 0,
    {
        DiskCounterState { prev_read: 0, prev_written: 0 }
    }

    /// Takes freshly read cumulative counters, stores them in place of
    /// the previous reading, and returns the bytes transferred since that
    /// reading: the read and write deltas (each saturating at zero on a
    /// counter reset) summed with a clamp at the representable maximum.
    pub fn advance(&mut self, read: u64, written: u64) -> (delta: u64)
        ensures
            final(self).prev_read == read,
            final(self).prev_written == written,
            delta == clamped_sum(
                saturating_delta(old(self).prev_read as nat, read as nat),
                saturating_delta(old(self).prev_written as nat, written as nat),
            ),
    {
        let rd = counter_delta(self.prev_read, read);
        let wd = counter_delta(self.prev_written, written);
        self.prev_read = read;
        self.prev_written = written;
        if rd <= u64::MAX - wd {
            rd + wd
        } else {
            u64::MAX
        }
    }
}

} // verus!
