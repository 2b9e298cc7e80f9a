//! The machine's clock, read as whole seconds since the Unix epoch. Nothing
//! is known of a reading, and there may be none: a clock set before the
//! epoch has no such number.

use vstd::prelude::*;

verus! {

/// `std::time::SystemTime`: a point in time as the machine's clock gives
/// it. Opaque here.
#[verifier::external_type_specification]
#[verifier::external_body]
pub struct ExSystemTime(std::time::SystemTime);

/// `std::time::SystemTimeError`: the second of two times lies after the
/// first. Opaque here.
#[verifier::external_type_specification]
#[verifier::external_body]
pub struct ExSystemTimeError(std::time::SystemTimeError);

/// `std::time::SystemTime::now`. Nothing is claimed of the time.
#[verifier::external_body]
fn system_now() -> std::time::SystemTime {
    std::time::SystemTime::now()
}

/// The constant `std::time::UNIX_EPOCH`. Nothing is claimed of it.
#[verifier::external_body]
fn unix_epoch() -> std::time::SystemTime {
    std::time::UNIX_EPOCH
}

/// `std::time::SystemTime::duration_since`, which gives an error where
/// `earlier` lies after `later`. Nothing is claimed of the outcome.
#[verifier::external_body]
fn elapsed_between(later: &std::time::SystemTime, earlier: std::time::SystemTime) -> Result<
    std::time::Duration,
    std::time::SystemTimeError,
> {
    later.duration_since(earlier)
}

/// `std::time::Duration::as_secs`. Nothing is claimed of the number.
#[verifier::external_body]
fn whole_seconds(span: &std::time::Duration) -> u64 {
    span.as_secs()
}

/// The seconds since the Unix epoch, or `None` where the clock stands
/// before it. Any value may come back.
pub fn unix_seconds() -> Option<u64> {
    let now = system_now();
    match elapsed_between(&now, unix_epoch()) {
        Ok(span) => Some(whole_seconds(&span)),
        Err(_) => None,
    }
}

} // verus!
