//! Clock and randomness sources. Their results depend on the time or on chance,
//! so nothing is promised of them beyond their types.
use std::time::{Instant, SystemTime};
use vstd::prelude::*;

verus! {

#[verifier::external_type_specification]
#[verifier::external_body]
pub struct ExSystemTime(SystemTime);

#[verifier::external_type_specification]
#[verifier::external_body]
pub struct ExInstant(Instant);

/// `Instant` is `Copy`: its `clone` gives back the same instant.
pub assume_specification[ <Instant as Clone>::clone ](t: &Instant) -> (r: Instant)
    ensures
        r == *t,
;

/// Calls `std::time::SystemTime::now`; the wall-clock reading is not specified.
#[verifier::external_body]
fn system_time_now() -> SystemTime {
    SystemTime::now()
}

/// Calls `SystemTime::duration_since(UNIX_EPOCH)` and gives the result in
/// nanoseconds, or `None` when the time lies before the epoch. Not specified further.
#[verifier::external_body]
fn nanos_since_unix_epoch(t: &SystemTime) -> Option<u128> {
    match t.duration_since(std::time::UNIX_EPOCH) {
        Ok(d) => Some(d.as_nanos()),
        Err(_) => None,
    }
}

/// Calls `std::time::Instant::now`; the monotonic reading is not specified.
#[verifier::external_body]
pub fn instant_now() -> Instant {
    Instant::now()
}

/// Calls `Instant::duration_since` (which saturates at zero) and gives the
/// result in nanoseconds. Not specified further.
#[verifier::external_body]
pub fn nanos_between(later: &Instant, earlier: &Instant) -> u128 {
    later.duration_since(*earlier).as_nanos()
}

/// Calls `rand::random::<u32>()`; the value is not specified.
#[verifier::external_body]
pub fn random_u32() -> u32 {
    rand::random::<u32>()
}

/// Calls `rand::random::<u64>()`; the value is not specified.
#[verifier::external_body]
pub fn random_u64() -> u64 {
    rand::random::<u64>()
}

/// Current wall-clock time in nanoseconds since the UNIX epoch, truncated to
/// 64 bits; 0 when the clock reads a time before the epoch.
pub fn unix_time_ns() -> u64 {
    let t = system_time_now();
    match nanos_since_unix_epoch(&t) {
        Some(n) => #[verifier::truncate] (n as u64),
        None => 0,
    }
}

/// Nanoseconds elapsed from `earlier` to `later` (0 when `later` is not after
/// `earlier`), truncated to 64 bits.
pub fn elapsed_ns(later: &Instant, earlier: &Instant) -> u64 {
    let n = nanos_between(later, earlier);
    #[verifier::truncate]
    (n as u64)
}

} // verus!
