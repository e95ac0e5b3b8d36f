//! The activity tracker: a single cell holding the timestamp of the most
//! recently observed input activity. The input reader writes it on every
//! line; the staleness monitor reads it on every tick. The sharing itself
//! (a lock around the cell) is the embedding program's concern; the cell's
//! behaviour is specified here.

use vstd::prelude::*;

verus! {

/// The timestamp of the last observed input activity, in milliseconds
/// since the epoch.
pub struct Tracker {
    last_seen: u128,
}

impl Tracker {
    /// The tracked timestamp, as the contracts see it.
    pub closed spec fn seen(&self) -> u128 {
        self.last_seen
    }

    /// A fresh tracker starts at the current time, so a stream with no
    /// lines at all is measured against process start, never against the
    /// epoch.
    pub fn new(now: u128) -> (t: Tracker)
        ensures
            t.seen() == now,
    {
        Tracker { last_seen: now }
    }

    /// Overwrites the tracked timestamp unconditionally.
    pub fn record(&mut self, t: u128)
        ensures
            final(self).seen() == t,
    {
        self.last_seen = t;
    }

    /// Returns the tracked timestamp without changing it.
    pub fn snapshot(&self) -> (r: u128)
        ensures
            r == self.seen(),
    {
        self.last_seen
    }
}

/// The tracked value after `record` has been called once for each element
/// of `ts`, in order, starting from `init`.
pub open spec fn seen_after_records(init: u128, ts: Seq<u128>) -> u128
    decreases ts.len(),
{
    if ts.len() == 0 {
        init
    } else {
        seen_after_records(ts[0], ts.skip(1))
    }
}

/// Repeated snapshots with no intervening record return the same value:
/// `snapshot` ensures its result equals `seen()`, so any two results read
/// from the same unchanged tracker coincide.
pub proof fn lemma_snapshot_idempotent(t: &Tracker, first: u128, second: u128)
    requires
        first == t.seen(),
        second == t.seen(),
    ensures
        first == second,
{
}

/// A non-decreasing sequence of recorded timestamps leaves the tracker at
/// the last recorded value.
pub proof fn lemma_records_end_at_last(init: u128, ts: Seq<u128>)
    requires
        ts.len() > 0,
        forall|i: int, j: int| 0 <= i <= j < ts.len() ==> ts[i] <= ts[j],
    ensures
        seen_after_records(init, ts) == ts.last(),
    decreases ts.len(),
{
    if ts.len() == 1 {
        assert(seen_after_records(init, ts) == seen_after_records(ts[0], ts.skip(1)));
    } else {
        let rest = ts.skip(1);
        assert(forall|i: int, j: int| 0 <= i <= j < rest.len() ==> rest[i] <= rest[j]);
        lemma_records_end_at_last(ts[0], rest);
        assert(rest.last() == ts.last());
    }
}

} // verus!
