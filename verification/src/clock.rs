//! Time, in whole seconds since the Unix epoch.

use std::time::{Duration, SystemTime, SystemTimeError, UNIX_EPOCH};
use vstd::prelude::*;

verus! {

/// `std::time::SystemTime`, opaque: it is spoken of as [`epoch_nanos`].
#[verifier::external_type_specification]
#[verifier::external_body]
pub struct ExSystemTime(SystemTime);

/// `std::time::SystemTimeError`, opaque.
#[verifier::external_type_specification]
#[verifier::external_body]
pub struct ExSystemTimeError(SystemTimeError);

/// How many nanoseconds a time lies after the Unix epoch; negative before it.
pub uninterp spec fn epoch_nanos(time: SystemTime) -> int;

/// How many nanoseconds a duration lasts.
pub uninterp spec fn duration_nanos(duration: Duration) -> nat;

/// `std::time::SystemTime::now`. Nothing is claimed of what the clock shows.
#[verifier::external_body]
pub(crate) fn now() -> (time: SystemTime) {
    SystemTime::now()
}

/// `std::time::SystemTime::duration_since`, from the Unix epoch: how long ago it was, or an error
/// if the time lies before it.
#[verifier::external_body]
fn since_epoch(time: SystemTime) -> (since: Result<Duration, SystemTimeError>)
    ensures
        since is Ok <==> epoch_nanos(time) >= 0,
        since matches Ok(duration) ==> duration_nanos(duration) == epoch_nanos(time),
{
    time.duration_since(UNIX_EPOCH)
}

/// `std::time::Duration::as_secs`: the whole seconds of a duration.
#[verifier::external_body]
fn whole_secs(duration: Duration) -> (secs: u64)
    ensures
        secs == duration_nanos(duration) / 1_000_000_000,
{
    duration.as_secs()
}

/// `std::time::Duration::from_secs`: a duration of so many seconds.
#[verifier::external_body]
pub(crate) fn duration_of_secs(secs: u64) -> (duration: Duration)
    ensures
        duration_nanos(duration) == secs * 1_000_000_000,
{
    Duration::from_secs(secs)
}

/// The whole seconds from the Unix epoch to a time; zero before it.
pub open spec fn timestamp(time: SystemTime) -> int {
    if epoch_nanos(time) >= 0 {
        epoch_nanos(time) / 1_000_000_000
    } else {
        0
    }
}

/// The timestamp of a time.
pub fn timestamp_of(time: SystemTime) -> (secs: u64)
    ensures
        secs == timestamp(time),
{
    match since_epoch(time) {
        Ok(duration) => whole_secs(duration),
        Err(_) => 0,
    }
}

} // verus!
