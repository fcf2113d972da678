//! Register-port primitives.
//!
//! Peripheral registers are modelled as plain data. A hardware status bit
//! whose value settles some time after the operation that changes it (a
//! software-reset bit, a channel-enable bit, an oscillator-ready bit) is a
//! [`SyncFlag`]: reads report the stale value for `lag` further reads before
//! the bit settles on its target value. Busy-wait loops in the drivers are
//! proved to terminate by consuming that lag, and the read/write counters
//! let a test capture exactly how often the hardware was touched.

use vstd::prelude::*;

verus! {

/// Saturating increment used for the port's read/write capture counters.
pub open spec fn sat_add(c: u64, n: nat) -> u64 {
    if c + n <= u64::MAX {
        (c + n) as u64
    } else {
        u64::MAX
    }
}

/// A status bit with cross-clock-domain settling delay.
///
/// `observed` is what a read reports right now; `target` is the value the
/// hardware is settling towards; `lag` is the number of further reads that
/// still see the stale value. `reads` and `writes` count accesses so that a
/// test can capture the traffic on the bit.
#[derive(Clone, Copy, PartialEq, Eq, Structural, Debug)]
pub struct SyncFlag {
    pub observed: bool,
    pub target: bool,
    pub lag: u8,
    pub reads: u64,
    pub writes: u64,
}

impl SyncFlag {
    /// A settled bit holding `v`, with fresh capture counters.
    pub open spec fn spec_new(v: bool) -> SyncFlag {
        SyncFlag { observed: v, target: v, lag: 0, reads: 0, writes: 0 }
    }

    pub fn new(v: bool) -> (r: SyncFlag)
        ensures
            r == Self::spec_new(v),
    {
        SyncFlag { observed: v, target: v, lag: 0, reads: 0, writes: 0 }
    }

    /// The settled (architectural) value of the bit.
    pub open spec fn value(self) -> bool {
        self.target
    }

    /// State after one read: the stale value is reported while `lag` lasts,
    /// then the bit settles.
    pub open spec fn spec_read(self) -> SyncFlag {
        if self.lag > 0 {
            SyncFlag { lag: (self.lag - 1) as u8, reads: sat_add(self.reads, 1), ..self }
        } else {
            SyncFlag { observed: self.target, reads: sat_add(self.reads, 1), ..self }
        }
    }

    /// What that read reports.
    pub open spec fn spec_read_value(self) -> bool {
        if self.lag > 0 {
            self.observed
        } else {
            self.target
        }
    }

    /// Read the bit, advancing the settling model by one step.
    pub fn read(&mut self) -> (b: bool)
        ensures
            *final(self) == old(self).spec_read(),
            b == old(self).spec_read_value(),
    {
        if self.reads < u64::MAX {
            self.reads = self.reads + 1;
        }
        if self.lag > 0 {
            self.lag = self.lag - 1;
            self.observed
        } else {
            self.observed = self.target;
            self.observed
        }
    }

    /// What a read would report right now, without advancing the settling
    /// model.
    pub fn peek(&self) -> (b: bool)
        ensures
            b == self.spec_read_value(),
    {
        if self.lag > 0 {
            self.observed
        } else {
            self.target
        }
    }

    /// State after a write of `v` that takes `lag` reads to settle.
    pub open spec fn spec_write(self, v: bool, lag: u8) -> SyncFlag {
        SyncFlag {
            observed: if lag == 0 { v } else { self.observed },
            target: v,
            lag,
            reads: self.reads,
            writes: sat_add(self.writes, 1),
        }
    }

    /// Write `v`; the new value becomes observable after `lag` reads.
    pub fn write(&mut self, v: bool, lag: u8)
        ensures
            *final(self) == old(self).spec_write(v, lag),
    {
        if lag == 0 {
            self.observed = v;
        }
        self.target = v;
        self.lag = lag;
        if self.writes < u64::MAX {
            self.writes = self.writes + 1;
        }
    }

    /// State after a self-clearing pulse (a software-reset style bit): the
    /// bit reads as set for `lag` reads, then the hardware deasserts it.
    pub open spec fn spec_pulse(self, lag: u8) -> SyncFlag {
        SyncFlag {
            observed: lag > 0,
            target: false,
            lag,
            reads: self.reads,
            writes: sat_add(self.writes, 1),
        }
    }

    /// Assert the bit momentarily; the hardware deasserts it after `lag`
    /// reads.
    pub fn pulse(&mut self, lag: u8)
        ensures
            *final(self) == old(self).spec_pulse(lag),
    {
        self.observed = lag > 0;
        self.target = false;
        self.lag = lag;
        if self.writes < u64::MAX {
            self.writes = self.writes + 1;
        }
    }

    /// State once every pending read of the stale value has been consumed.
    pub open spec fn spec_settled(self, extra_reads: nat) -> SyncFlag {
        SyncFlag {
            observed: self.target,
            target: self.target,
            lag: 0,
            reads: sat_add(self.reads, extra_reads),
            writes: self.writes,
        }
    }

    /// State after spinning on the bit until a read reports `v`.
    ///
    /// If the stale value already reads as `v` a single read suffices and
    /// the remaining lag is left in place; otherwise every pending stale
    /// read is consumed and the bit settles.
    pub open spec fn spec_wait(self, v: bool) -> SyncFlag {
        if self.lag > 0 && self.observed == v {
            SyncFlag { lag: (self.lag - 1) as u8, reads: sat_add(self.reads, 1), ..self }
        } else {
            self.spec_settled((self.lag + 1) as nat)
        }
    }

    /// Spin until the bit reads as `v`.
    ///
    /// Terminates because each read consumes one unit of lag; once the lag
    /// is exhausted the bit reports its target value, which must be `v`.
    #[verifier::loop_isolation(false)]
    pub fn wait_until(&mut self, v: bool)
        requires
            old(self).target == v,
        ensures
            *final(self) == old(self).spec_wait(v),
    {
        let mut current = self.read();
        while current != v
            invariant
                self.target == v,
                self.writes == old(self).writes,
                self.lag <= old(self).lag,
                current == v ==> *self == old(self).spec_wait(v),
                current != v ==> self.observed == old(self).observed
                    && self.observed != v
                    && self.reads == sat_add(old(self).reads, (old(self).lag - self.lag) as nat),
            decreases self.lag, (if current != v { 1int } else { 0int }),
        {
            current = self.read();
        }
    }
}

} // verus!
