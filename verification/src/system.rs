//! The system clock, as far as the library reads it. Nothing here is proved, and nothing is
//! claimed of any reading: callers are verified for every value that may come back.

use std::time::{Duration, SystemTime, SystemTimeError, UNIX_EPOCH};
use vstd::prelude::*;

verus! {

/// `std::time::SystemTime`, carried through as an opaque value.
#[verifier::external_type_specification]
#[verifier::external_body]
pub struct ExSystemTime(SystemTime);

/// `std::time::SystemTimeError`, carried through as an opaque value.
#[verifier::external_type_specification]
#[verifier::external_body]
pub struct ExSystemTimeError(SystemTimeError);

/// `SystemTime::now` reads the system clock. No claim is made of the reading.
pub assume_specification[ SystemTime::now ]() -> SystemTime;

/// `SystemTime::duration_since` measures from `earlier` to `this`, and fails where `earlier` is
/// the later of the two. No claim is made of which it is, nor of the distance.
pub assume_specification[ SystemTime::duration_since ](
    this: &SystemTime,
    earlier: SystemTime,
) -> Result<Duration, SystemTimeError>;

/// `SystemTimeError::duration` is the distance that a failed `duration_since` found the other
/// way round. No claim is made of it.
pub assume_specification[ SystemTimeError::duration ](this: &SystemTimeError) -> Duration;

/// `Duration::as_secs` is the whole seconds of a duration. No claim is made of the number.
pub assume_specification[ Duration::as_secs ](this: &Duration) -> u64;

/// `Duration::subsec_nanos` is the part of a duration beyond its whole seconds, in nanoseconds.
/// No claim is made of the number.
pub assume_specification[ Duration::subsec_nanos ](this: &Duration) -> u32;

/// The constant `std::time::UNIX_EPOCH`, the reading that stands for 1970-01-01 00:00:00 UTC.
/// No claim is made of the value.
#[verifier::external_body]
pub(crate) fn unix_epoch() -> SystemTime {
    UNIX_EPOCH
}

} // verus!
