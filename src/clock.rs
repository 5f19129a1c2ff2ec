//! The wall clock, read in whole seconds since the Unix epoch.
use std::time::Duration;
use vstd::prelude::*;

verus! {

/// Relies on `Duration::as_secs`: the whole seconds of a span. Nothing is
/// assumed of the number.
pub assume_specification[ Duration::as_secs ](d: &Duration) -> u64;

/// Relies on `SystemTime::elapsed` taken from `UNIX_EPOCH`: the span from the
/// epoch to now, or `None` when the clock reads before the epoch. The reading
/// depends on the time, so nothing is assumed of it.
#[verifier::external_body]
fn elapsed_since_epoch() -> Option<Duration> {
    std::time::UNIX_EPOCH.elapsed().ok()
}

/// The current time in seconds since the Unix epoch, or `None` when the
/// system clock reads before the epoch.
pub fn get_current_time() -> Option<u64> {
    match elapsed_since_epoch() {
        Some(d) => Some(d.as_secs()),
        None => None,
    }
}

} // verus!
