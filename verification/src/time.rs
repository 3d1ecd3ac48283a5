//! Wall-clock instants with nanosecond resolution.

use vstd::prelude::*;

verus! {

/// Nanoseconds in one second.
pub const NANOS_PER_SEC: u32 = 1_000_000_000;

/// Nanoseconds in one millisecond.
pub const NANOS_PER_MILLI: u32 = 1_000_000;

/// An instant of wall-clock time, counted from the Unix epoch.
///
/// The instant denoted is `secs` whole seconds plus `nanos` nanoseconds; two
/// values with the same total denote the same instant.
#[derive(Clone, Copy, Debug, PartialEq, Eq)]
pub struct Timestamp {
    pub secs: u64,
    pub nanos: u32,
}

impl Timestamp {
    /// The instant as a number of nanoseconds since the epoch.
    pub open spec fn as_nanos(self) -> int {
        self.secs as int * (NANOS_PER_SEC as int) + self.nanos as int
    }

    /// The instant `secs` seconds and `nanos` nanoseconds after the epoch.
    pub fn new(secs: u64, nanos: u32) -> (t: Timestamp)
        ensures
            t == (Timestamp { secs, nanos }),
    {
        Timestamp { secs, nanos }
    }

    /// The instant as a number of nanoseconds since the epoch.
    pub fn total_nanos(&self) -> (n: u128)
        ensures
            n as int == self.as_nanos(),
    {
        let secs: u128 = self.secs as u128;
        let nanos: u128 = self.nanos as u128;
        assert(secs * 1_000_000_000 <= 0xffff_ffff_ffff_ffff * 1_000_000_000) by (nonlinear_arith)
            requires
                secs <= 0xffff_ffff_ffff_ffff,
        ;
        secs * 1_000_000_000 + nanos
    }

    /// Whether at most `millis` milliseconds lie between `earlier` and this
    /// instant. An `earlier` that is not before this instant counts as no
    /// time elapsed.
    pub fn within(&self, earlier: &Timestamp, millis: u64) -> (r: bool)
        ensures
            r == within_millis(*self, *earlier, millis),
    {
        let now: u128 = self.total_nanos();
        let then: u128 = earlier.total_nanos();
        if now <= then {
            true
        } else {
            let limit: u128 = millis as u128;
            assert(limit * 1_000_000 <= 0xffff_ffff_ffff_ffff * 1_000_000) by (nonlinear_arith)
                requires
                    limit <= 0xffff_ffff_ffff_ffff,
            ;
            now - then <= limit * 1_000_000
        }
    }
}

/// Whether `now - earlier` is at most `millis` milliseconds.
pub open spec fn within_millis(now: Timestamp, earlier: Timestamp, millis: u64) -> bool {
    now.as_nanos() - earlier.as_nanos() <= millis as int * (NANOS_PER_MILLI as int)
}

} // verus!
