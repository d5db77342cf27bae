//! What the interpreter takes from its host: random bytes and the wall clock.
//!
//! Nothing here is proved. Each function only makes the call that its
//! documentation names, and promises nothing about what comes back.

use std::time::{Duration, SystemTime, UNIX_EPOCH};
use vstd::prelude::*;

verus! {

/// `std::time::SystemTime`, carried through as an opaque value.
#[verifier::external_type_specification]
#[verifier::external_body]
pub struct ExSystemTime(SystemTime);

/// Calls `rand::random::<u8>()`, which draws a byte from the thread-local
/// generator. Any byte may come back.
#[verifier::external_body]
pub(crate) fn random_byte() -> (byte: u8) {
    rand::random::<u8>()
}

/// Calls `SystemTime::now()`. Nothing is claimed of the time returned.
#[verifier::external_body]
pub(crate) fn clock_now() -> (now: SystemTime) {
    SystemTime::now()
}

/// Calls `SystemTime::duration_since` with the Unix epoch: how long after
/// the epoch `time` lies, or `None` where it lies before.
#[verifier::external_body]
pub(crate) fn since_epoch(time: &SystemTime) -> (since: Option<Duration>) {
    match time.duration_since(UNIX_EPOCH) {
        Ok(duration) => Some(duration),
        Err(_) => None,
    }
}

/// Calls `Duration::as_nanos()`: the whole nanoseconds in `duration`.
#[verifier::external_body]
pub(crate) fn duration_nanos(duration: &Duration) -> (nanos: u128) {
    duration.as_nanos()
}

/// The wall-clock time in nanoseconds since the Unix epoch, or `None` where
/// the clock reads a time before the epoch.
pub(crate) fn now_nanos() -> Option<u128> {
    let now = clock_now();
    match since_epoch(&now) {
        Some(duration) => Some(duration_nanos(&duration)),
        None => None,
    }
}

} // verus!
