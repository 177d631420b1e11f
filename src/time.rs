//! Wall-clock instants as seconds and nanoseconds since the Unix epoch.
use vstd::prelude::*;

verus! {

/// Nanoseconds in one second.
pub const NANOS_PER_SEC: u64 = 1_000_000_000;

/// An instant, as whole seconds since the Unix epoch and the nanoseconds
/// past that second.
#[derive(Clone, Copy, Debug, PartialEq, Eq, Structural)]
pub struct Timestamp {
    pub secs: u64,
    pub nanos: u32,
}

/// Largest number of nanoseconds since the epoch that a [`Timestamp`] can hold, plus one.
pub open spec fn timestamp_limit() -> int {
    (u64::MAX as int + 1) * NANOS_PER_SEC as int
}

impl Timestamp {
    /// The nanosecond part is below one second.
    pub open spec fn wf(&self) -> bool {
        self.nanos < NANOS_PER_SEC
    }

    /// Nanoseconds since the epoch.
    pub open spec fn total_nanos(&self) -> int {
        self.secs as int * NANOS_PER_SEC as int + self.nanos as int
    }

    /// The instant `ns` nanoseconds later, if it can be represented.
    pub fn checked_add_nanos(&self, ns: u64) -> (r: Option<Timestamp>)
        requires
            self.wf(),
        ensures
            r is Some <==> self.total_nanos() + ns < timestamp_limit(),
            r matches Some(t) ==> t.wf() && t.total_nanos() == self.total_nanos() + ns,
    {
        let whole = ns / NANOS_PER_SEC;
        let part = (ns % NANOS_PER_SEC) as u32;
        let sum = self.nanos + part;
        let (carry, nanos) = if sum >= NANOS_PER_SEC as u32 {
            (1u64, sum - NANOS_PER_SEC as u32)
        } else {
            (0u64, sum)
        };
        proof {
            let g = NANOS_PER_SEC as int;
            assert(ns as int == whole as int * g + part as int) by (nonlinear_arith)
                requires
                    whole == ns / NANOS_PER_SEC,
                    part == ns % NANOS_PER_SEC,
                    g == NANOS_PER_SEC,
            ;
            assert(self.total_nanos() + ns == (self.secs as int + whole as int + carry as int) * g
                + nanos as int) by (nonlinear_arith)
                requires
                    ns as int == whole as int * g + part as int,
                    sum == self.nanos + part,
                    carry as int * g + nanos as int == sum as int,
                    self.total_nanos() == self.secs as int * g + self.nanos as int,
            ;
            let s = self.secs as int + whole as int + carry as int;
            assert(s <= u64::MAX <==> s * g + (nanos as int) < timestamp_limit()) by (nonlinear_arith)
                requires
                    0 <= nanos < g,
                    g == NANOS_PER_SEC,
            ;
        }
        match self.secs.checked_add(whole) {
            Some(s) => match s.checked_add(carry) {
                Some(secs) => Some(Timestamp { secs, nanos }),
                None => None,
            },
            None => None,
        }
    }
}

} // verus!
