//! The wall clock, in whole seconds since the Unix epoch.
//!
//! A time stamp is made in three steps: the clock is read, the span from the
//! epoch to that moment is taken, and the whole seconds of the span are the
//! stamp. A moment before the epoch has no such span and gives an error.

use vstd::prelude::*;

verus! {

/// The standard library's `SystemTime`: a moment of the system clock, carried
/// through as it is.
#[verifier::external_type_specification]
#[verifier::external_body]
pub struct ExSystemTime(std::time::SystemTime);

/// The standard library's `SystemTimeError`: what `duration_since` fails
/// with.
#[verifier::external_type_specification]
#[verifier::external_body]
pub struct ExSystemTimeError(std::time::SystemTimeError);

/// The clock cannot be read as a time since the Unix epoch.
#[derive(Clone, Copy, Debug, PartialEq, Eq, Structural)]
pub enum ClockError {
    /// The clock is set to a moment before the epoch.
    BeforeEpoch,
}

/// What `SystemTime::duration_since` gives for a moment and the Unix epoch:
/// the span from the epoch to the moment, or its error where the moment lies
/// before the epoch.
pub uninterp spec fn since_epoch(moment: std::time::SystemTime) -> Result<
    std::time::Duration,
    std::time::SystemTimeError,
>;

/// The whole seconds of a span, as `Duration::as_secs` gives them: the
/// fraction of a second is dropped.
pub uninterp spec fn seconds_of(span: std::time::Duration) -> u64;

/// The time stamp that a reading of the clock stands for: the whole seconds
/// of its span, or the error where the reading failed.
pub open spec fn stamp_of(
    elapsed: Result<std::time::Duration, std::time::SystemTimeError>,
) -> Result<u64, ClockError> {
    match elapsed {
        Ok(span) => Ok(seconds_of(span)),
        Err(_) => Err(ClockError::BeforeEpoch),
    }
}

/// Calls `SystemTime::now`. What comes back depends on the moment of the
/// call, so the contract claims nothing of it.
#[verifier::external_body]
fn system_now() -> std::time::SystemTime {
    std::time::SystemTime::now()
}

/// Calls `SystemTime::duration_since` with the Unix epoch, which fails where
/// the moment lies before the epoch. The result depends on the moment alone;
/// the contract only names it.
#[verifier::external_body]
fn since_unix_epoch(moment: &std::time::SystemTime) -> (elapsed: Result<
    std::time::Duration,
    std::time::SystemTimeError,
>)
    ensures
        elapsed == since_epoch(*moment),
{
    moment.duration_since(std::time::UNIX_EPOCH)
}

/// Calls `Duration::as_secs`, the whole seconds of a span. The result depends
/// on the span alone; the contract only names it.
#[verifier::external_body]
fn whole_seconds(span: &std::time::Duration) -> (seconds: u64)
    ensures
        seconds == seconds_of(*span),
{
    span.as_secs()
}

/// The current time in whole seconds since the Unix epoch, or an error where
/// the clock stands before the epoch: the stamp of some moment of the clock.
pub fn get_current_time() -> (stamp: Result<u64, ClockError>)
    ensures
        exists|moment: std::time::SystemTime| stamp == stamp_of(#[trigger] since_epoch(moment)),
{
    let moment = system_now();
    timestamp_of(since_unix_epoch(&moment))
}

/// The time stamp that a reading of the clock gives. A reading that
/// succeeded gives the whole seconds of its span; a reading that failed gives
/// the error, and nothing else does.
pub fn timestamp_of(
    elapsed: Result<std::time::Duration, std::time::SystemTimeError>,
) -> (stamp: Result<u64, ClockError>)
    ensures
        stamp == stamp_of(elapsed),
{
    match elapsed {
        Ok(span) => Ok(whole_seconds(&span)),
        Err(_) => Err(ClockError::BeforeEpoch),
    }
}

} // verus!
