//! A stored value and the moment it was written.

use vstd::prelude::*;
use crate::clock::now_nanos;

verus! {

/// The default time-to-live: sixty seconds, in nanoseconds.
pub const EXPIRE_DURATION: u128 = 60_000_000_000u128;

/// An entry written at `inserted_at` has expired at `now` under `ttl` when its
/// age is strictly greater than `ttl`. An entry stamped in the future has a
/// negative age and has not expired.
pub open spec fn is_expired(inserted_at: u128, now: u128, ttl: u128) -> bool {
    now as int - inserted_at as int > ttl as int
}

/// A cached text and its insertion timestamp (nanoseconds since the epoch).
/// An entry is never changed after it is made; a new write replaces it whole.
#[derive(Clone, Debug)]
pub struct Value {
    s: String,
    time: u128,
}

impl View for Value {
    type V = (Seq<char>, u128);

    closed spec fn view(&self) -> (Seq<char>, u128) {
        (self.s@, self.time)
    }
}

impl Value {
    /// The stored text.
    pub open spec fn text(&self) -> Seq<char> {
        self@.0
    }

    /// The insertion timestamp.
    pub open spec fn inserted_at(&self) -> u128 {
        self@.1
    }

    /// An entry holding `s`, stamped with the given time.
    pub fn at(s: String, time: u128) -> (v: Value)
        ensures
            v@ == (s@, time),
    {
        Value { s, time }
    }

    /// An entry holding `s`, stamped with the current wall-clock time.
    pub fn new(s: String) -> (v: Value)
        ensures
            v.text() == s@,
    {
        let time = now_nanos();
        Value::at(s, time)
    }

    /// A copy of the stored text.
    pub fn to_string(&self) -> (r: String)
        ensures
            r@ == self.text(),
    {
        self.s.clone()
    }

    /// The insertion timestamp.
    pub fn timestamp(&self) -> (t: u128)
        ensures
            t == self.inserted_at(),
    {
        self.time
    }

    /// Whether the entry has outlived `ttl` at time `now`.
    pub fn expired_at(&self, now: u128, ttl: u128) -> (r: bool)
        ensures
            r == is_expired(self.inserted_at(), now, ttl),
    {
        now > self.time && now - self.time > ttl
    }

    /// Whether the entry has outlived the default time-to-live on the
    /// current wall clock. The answer is the one that `expired_at` gives for
    /// some reading of the clock.
    pub fn expired(&self) -> (r: bool)
        ensures
            exists|now: u128| r == #[trigger] is_expired(self.inserted_at(), now, EXPIRE_DURATION),
    {
        let now = now_nanos();
        self.expired_at(now, EXPIRE_DURATION)
    }
}

} // verus!
