//! The evictor's decisions: how often to sweep, and what one sweep does.
//!
//! The loop itself (sleeping, publishing the gauge) belongs to the caller:
//! it calls [`Evictor::tick`] and acts on what comes back.

use vstd::prelude::*;
use crate::clock::now_nanos;
use crate::store::unexpired;
use crate::store::Store;

verus! {

/// The longest time between two sweeps: ten seconds, in nanoseconds.
pub const MAX_SWEEP_INTERVAL: u128 = 10_000_000_000u128;

/// The time between two sweeps: the time-to-live, capped at ten seconds.
pub open spec fn sweep_interval_of(ttl: u128) -> u128 {
    if ttl < MAX_SWEEP_INTERVAL {
        ttl
    } else {
        MAX_SWEEP_INTERVAL
    }
}

/// The time between two sweeps for a time-to-live of `ttl` nanoseconds.
pub fn sweep_interval(ttl: u128) -> (interval: u128)
    ensures
        interval == sweep_interval_of(ttl),
{
    if ttl < MAX_SWEEP_INTERVAL {
        ttl
    } else {
        MAX_SWEEP_INTERVAL
    }
}

/// What one sweep did and what the caller does next.
#[derive(Clone, Copy, Debug, PartialEq, Eq)]
pub struct Tick {
    /// How many entries the sweep removed.
    pub removed: usize,
    /// The store's size after the sweep: the value to publish on the gauge.
    pub size: usize,
    /// How long to sleep before the next sweep, in nanoseconds.
    pub sleep_for: u128,
}

/// The periodic sweeper's configuration.
#[derive(Clone, Copy, Debug, PartialEq, Eq)]
pub struct Evictor {
    ttl: u128,
    interval: u128,
}

impl Evictor {
    /// The interval is the one that the time-to-live gives.
    #[verifier::type_invariant]
    spec fn interval_fits(self) -> bool {
        self.interval == sweep_interval_of(self.ttl)
    }

    /// The configured time-to-live.
    pub closed spec fn ttl_spec(&self) -> u128 {
        self.ttl
    }

    /// An evictor for a time-to-live of `ttl` nanoseconds. The interval is
    /// computed once, here.
    pub fn new(ttl: u128) -> (e: Evictor)
        ensures
            e.ttl_spec() == ttl,
    {
        Evictor { ttl, interval: sweep_interval(ttl) }
    }

    /// The configured time-to-live.
    pub fn ttl(&self) -> (t: u128)
        ensures
            t == self.ttl_spec(),
    {
        self.ttl
    }

    /// The time between two sweeps: the time-to-live, capped at ten seconds.
    pub fn interval(&self) -> (t: u128)
        ensures
            t == sweep_interval_of(self.ttl_spec()),
    {
        proof {
            use_type_invariant(self);
        }
        self.interval
    }

    /// One sweep at time `now`: removes what has expired, and reports the
    /// count removed, the size that is left and the time to sleep.
    pub fn tick_at(&self, store: &mut Store, now: u128) -> (t: Tick)
        ensures
            final(store)@ == unexpired(old(store)@, now, self.ttl_spec()),
            old(store)@.dom().finite(),
            final(store)@.dom().finite(),
            t.size == final(store)@.dom().len(),
            t.removed == old(store)@.dom().len() - final(store)@.dom().len(),
            t.sleep_for == sweep_interval_of(self.ttl_spec()),
    {
        proof {
            use_type_invariant(self);
        }
        let removed = store.retain_unexpired(now, self.ttl);
        let size = store.size();
        Tick { removed, size, sleep_for: self.interval }
    }

    /// One sweep on the current wall clock. What it does is what `tick_at`
    /// does for some reading of the clock.
    pub fn tick(&self, store: &mut Store) -> (t: Tick)
        ensures
            exists|now: u128| final(store)@ == #[trigger] unexpired(old(store)@, now, self.ttl_spec()),
            final(store)@.dom().subset_of(old(store)@.dom()),
            old(store)@.dom().finite(),
            t.size == final(store)@.dom().len(),
            t.removed == old(store)@.dom().len() - final(store)@.dom().len(),
            t.sleep_for == sweep_interval_of(self.ttl_spec()),
    {
        let now = now_nanos();
        self.tick_at(store, now)
    }
}

} // verus!
