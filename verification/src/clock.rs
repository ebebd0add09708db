//! The system clock, in whole seconds.

use vstd::prelude::*;

verus! {

/// The bound below which every reading of the clock lies: 2^31 days, in
/// seconds.
pub open spec fn clock_limit() -> int {
    185_542_587_187_200
}

/// Whether `now` can be a reading of the clock.
pub open spec fn is_clock_reading(now: int) -> bool {
    0 <= now < clock_limit()
}

/// Seconds elapsed since 1970-01-01T00:00:00Z.
///
/// Calls `chrono::Utc::now` and `DateTime::timestamp`. Two readings may
/// differ in either direction. `chrono` aborts when the system clock is set
/// before 1970.
///
/// Trusted: the reading is not negative and lies below [`clock_limit`]. In
/// the crate, `Utc::now` takes the whole seconds of the time elapsed since
/// the epoch, which are not negative, and hands them to
/// `DateTime::from_timestamp`, which gives a value only where the day
/// number fits 32 bits; `timestamp` returns those seconds.
#[verifier::external_body]
pub(crate) fn unix_now() -> (now: i64)
    ensures
        is_clock_reading(now as int),
{
    chrono::Utc::now().timestamp()
}

} // verus!
