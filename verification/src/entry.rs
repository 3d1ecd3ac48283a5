//! The record kept for one cache key.

use crate::fingerprint::same_fingerprint;
use crate::time::{within_millis, Timestamp};
use vstd::prelude::*;

verus! {

/// What is stored for one cache key: the payload, the fingerprint of the
/// inputs it was produced for, and the instant it was produced.
///
/// The payload is opaque here: nothing in this crate looks inside it.
#[derive(Clone, Debug, PartialEq, Eq)]
pub struct Entry<P> {
    pub fingerprint: [u8; 20],
    pub refreshed_at: Timestamp,
    pub payload: P,
}

impl<P> Entry<P> {
    /// An entry is fresh for a request when it was produced for the same
    /// fingerprint and no more than `interval_ms` milliseconds have passed
    /// since. An entry stamped later than `now` has not aged at all.
    pub open spec fn fresh_for(self, fingerprint: Seq<u8>, now: Timestamp, interval_ms: u64) -> bool {
        &&& self.fingerprint@ == fingerprint
        &&& within_millis(now, self.refreshed_at, interval_ms)
    }

    /// Whether the entry can be served for `fingerprint` at `now` without a
    /// refresh.
    pub fn is_fresh(&self, fingerprint: &[u8; 20], now: &Timestamp, interval_ms: u64) -> (fresh: bool)
        ensures
            fresh == self.fresh_for(fingerprint@, *now, interval_ms),
    {
        same_fingerprint(&self.fingerprint, fingerprint) && now.within(
            &self.refreshed_at,
            interval_ms,
        )
    }

    /// Whether serving the entry for `fingerprint` at `now` has to be
    /// accompanied by a refresh: the fingerprint differs, or the interval has
    /// run out.
    pub fn needs_refresh(&self, fingerprint: &[u8; 20], now: &Timestamp, interval_ms: u64) -> (stale: bool)
        ensures
            stale == !self.fresh_for(fingerprint@, *now, interval_ms),
            stale == (self.fingerprint@ != fingerprint@ || now.as_nanos()
                - self.refreshed_at.as_nanos() > interval_ms * 1_000_000),
    {
        !self.is_fresh(fingerprint, now, interval_ms)
    }
}

} // verus!
