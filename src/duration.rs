//! Wall-clock durations as whole seconds plus sub-second nanoseconds.

use vstd::prelude::*;

verus! {

/// Nanoseconds in one second.
pub const NANOSEC_PER_SEC: u64 = 1_000_000_000;

/// A span of time: `secs` whole seconds and `nanos` nanoseconds.
///
/// A normalized duration (`wf`) keeps `nanos` below one second; every
/// duration this library produces is normalized. Its value is `total_nanos`.
#[derive(Clone, Copy, Debug, PartialEq, Eq, Structural)]
pub struct Duration {
    pub secs: u64,
    pub nanos: u32,
}

impl Duration {
    /// The sub-second part is below one second.
    pub open spec fn wf(self) -> bool {
        self.nanos < NANOSEC_PER_SEC
    }

    /// The length of the duration in nanoseconds.
    pub open spec fn total_nanos(self) -> nat {
        self.secs as nat * NANOSEC_PER_SEC as nat + self.nanos as nat
    }

    /// The duration of `secs` seconds plus `nanos` nanoseconds, with any
    /// whole seconds held in `nanos` carried into the seconds.
    pub fn new(secs: u64, nanos: u32) -> (r: Duration)
        requires
            secs as int + nanos as int / NANOSEC_PER_SEC as int <= u64::MAX,
        ensures
            r.wf(),
            r.total_nanos() == secs as nat * NANOSEC_PER_SEC as nat + nanos as nat,
    {
        let carry: u64 = (nanos as u64) / NANOSEC_PER_SEC;
        let rest: u64 = (nanos as u64) % NANOSEC_PER_SEC;
        Duration { secs: secs + carry, nanos: rest as u32 }
    }

    /// The empty duration.
    pub fn zero() -> (r: Duration)
        ensures
            r.wf(),
            r.secs == 0,
            r.nanos == 0,
            r.total_nanos() == 0,
    {
        Duration { secs: 0, nanos: 0 }
    }

    /// The duration of `millis` milliseconds.
    pub fn from_millis(millis: u64) -> (r: Duration)
        ensures
            r.wf(),
            r.total_nanos() == millis as nat * 1_000_000,
    {
        let secs: u64 = millis / 1000;
        let sub: u64 = millis % 1000;
        Duration { secs, nanos: (sub * 1_000_000) as u32 }
    }

    /// The length of the duration in nanoseconds; it always fits in 128 bits.
    pub fn as_nanos(&self) -> (r: u128)
        ensures
            r == self.total_nanos(),
    {
        let whole: u128 = self.secs as u128 * NANOSEC_PER_SEC as u128;
        assert(whole <= u64::MAX as u128 * NANOSEC_PER_SEC as u128) by (nonlinear_arith)
            requires
                whole == self.secs as u128 * NANOSEC_PER_SEC as u128,
        ;
        whole + self.nanos as u128
    }
}

} // verus!
