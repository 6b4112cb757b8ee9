//! Wall-clock time as plain integers: nanoseconds since the Unix epoch.

use vstd::prelude::*;
use std::time::SystemTime;
use std::time::UNIX_EPOCH;

verus! {

/// Nanoseconds in one second.
pub const NANOS_PER_SECOND: u128 = 1_000_000_000u128;

/// `std::time::SystemTime`, carried through as an opaque value.
#[verifier::external_type_specification]
#[verifier::external_body]
pub struct ExSystemTime(SystemTime);

/// Calls `SystemTime::now`. The reading depends on the machine's clock, so
/// nothing is claimed of it.
#[verifier::external_body]
fn read_system_clock() -> (t: SystemTime) {
    SystemTime::now()
}

/// Calls `SystemTime::duration_since` against `UNIX_EPOCH` and hands the
/// duration out as whole nanoseconds, or `None` where the time lies before
/// the epoch. Nothing is claimed of the number.
#[verifier::external_body]
fn nanos_since_epoch(t: &SystemTime) -> (r: Option<u128>) {
    match t.duration_since(UNIX_EPOCH) {
        Ok(d) => Some(d.as_nanos()),
        Err(_) => None,
    }
}

/// The timestamp that stands for a clock reading: the reading itself, or the
/// epoch where the clock was set before it.
pub open spec fn reading_or_epoch(reading: Option<u128>) -> u128 {
    match reading {
        Some(n) => n,
        None => 0,
    }
}

/// Turns a clock reading into a timestamp.
pub fn timestamp_of(reading: Option<u128>) -> (t: u128)
    ensures
        t == reading_or_epoch(reading),
{
    match reading {
        Some(n) => n,
        None => 0,
    }
}

/// The current wall-clock time in nanoseconds since the Unix epoch. A clock
/// set before the epoch reads as the epoch.
pub fn now_nanos() -> (t: u128) {
    let at = read_system_clock();
    timestamp_of(nanos_since_epoch(&at))
}

/// Whole seconds as nanoseconds.
pub open spec fn seconds(s: u64) -> u128 {
    (s as u128 * NANOS_PER_SECOND) as u128
}

/// Whole seconds as nanoseconds.
pub fn from_seconds(s: u64) -> (n: u128)
    ensures
        n == seconds(s),
        n == s as int * 1_000_000_000,
{
    let wide: u128 = s as u128;
    assert(wide * 1_000_000_000 <= 0xffff_ffff_ffff_ffff * 1_000_000_000) by (nonlinear_arith)
        requires
            wide <= 0xffff_ffff_ffff_ffff,
    ;
    wide * NANOS_PER_SECOND
}

} // verus!
