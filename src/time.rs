//! Current time functionality.
//!
//! [`now`] fetches the current time as seconds since the epoch; it fails when the clock reads
//! a time before the epoch.
use std::time::{SystemTime, SystemTimeError, UNIX_EPOCH};
use vstd::prelude::*;

verus! {

#[verifier::external_type_specification]
#[verifier::external_body]
pub struct ExSystemTimeError(SystemTimeError);

/// The error message for when the system time is before the epoch.
pub const CURRENT_TIME_BEFORE_EPOCH: &'static str = "current time is before the epoch";

/// Wraps [`SystemTimeError`]: the system time is before the epoch.
#[derive(Debug)]
pub struct Error(pub SystemTimeError);

/// Returns the current time as seconds since the epoch.
///
/// Relies on `SystemTime::now` and `SystemTime::duration_since(UNIX_EPOCH)`; nothing is known
/// of the value read.
///
/// # Errors
///
/// Returns [`struct@Error`] if the system time is before the epoch.
#[verifier::external_body]
pub fn now() -> (r: Result<u64, Error>) {
    SystemTime::now().duration_since(UNIX_EPOCH).map(|duration| duration.as_secs()).map_err(Error)
}

} // verus!
