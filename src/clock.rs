//! The wall clock and the operating system's secure random source.

use std::time::{Duration, SystemTime, SystemTimeError};
use chacha20poly1305::aead::rand_core::{Error as EntropyError, OsRng, RngCore};
use vstd::prelude::*;

verus! {

#[verifier::external_type_specification]
#[verifier::external_body]
pub struct ExSystemTime(SystemTime);

#[verifier::external_type_specification]
#[verifier::external_body]
pub struct ExSystemTimeError(SystemTimeError);

#[verifier::external_type_specification]
#[verifier::external_body]
pub struct ExEntropyError(EntropyError);

/// Relies on `std::time::SystemTime::now`: the current wall-clock time,
/// which may be anything.
#[verifier::external_body]
pub(crate) fn system_now() -> (r: SystemTime) {
    SystemTime::now()
}

/// Relies on `SystemTime::duration_since` with the Unix epoch as the
/// earlier time: it fails when the clock stands before the epoch.
#[verifier::external_body]
pub(crate) fn since_unix_epoch(t: &SystemTime) -> (r: Result<Duration, SystemTimeError>) {
    t.duration_since(SystemTime::UNIX_EPOCH)
}

/// Relies on `Duration::as_millis`: the whole milliseconds in a duration.
#[verifier::external_body]
pub(crate) fn duration_millis(d: &Duration) -> (r: u128) {
    d.as_millis()
}

/// Relies on rand_core's `OsRng::try_fill_bytes`: fills `dest` with bytes
/// from the operating system's secure random source, or reports that the
/// source is unavailable. Nothing is known of the bytes drawn.
#[verifier::external_body]
pub(crate) fn fill_random(dest: &mut [u8; 5]) -> (r: Result<(), EntropyError>) {
    OsRng.try_fill_bytes(dest)
}

} // verus!
