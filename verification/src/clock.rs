//! The monotonic clock, whose readings nothing here can predict.

use std::time::{Duration, Instant};
use vstd::prelude::*;

verus! {

/// A point in time of the monotonic clock, opaque to proofs.
#[verifier::external_type_specification]
#[verifier::external_body]
pub struct ExInstant(Instant);

/// Trusted: calls `Instant::now`. The reading depends on the clock, so nothing
/// is stated of it.
#[verifier::external_body]
pub(crate) fn now() -> Instant {
    Instant::now()
}

/// Trusted: calls `Instant::elapsed`. The time since `start` depends on the
/// clock, so nothing is stated of it.
#[verifier::external_body]
fn elapsed(start: &Instant) -> Duration {
    start.elapsed()
}

/// Trusted: calls `Duration::as_nanos`, the whole length in nanoseconds. The
/// duration is opaque to proofs, so nothing is stated of the number.
#[verifier::external_body]
pub(crate) fn whole_nanos(d: &Duration) -> u128 {
    d.as_nanos()
}

/// Trusted: calls `Duration::as_millis`, the whole length in milliseconds.
/// The duration is opaque to proofs, so nothing is stated of the number.
#[verifier::external_body]
fn whole_millis(d: &Duration) -> u128 {
    d.as_millis()
}

/// Whether more than `limit_nanos` nanoseconds have passed since `start`.
pub(crate) fn elapsed_beyond(start: &Instant, limit_nanos: u128) -> bool {
    let spent = elapsed(start);
    whole_nanos(&spent) > limit_nanos
}

/// The whole milliseconds passed since `start`.
pub(crate) fn elapsed_millis(start: &Instant) -> u128 {
    let spent = elapsed(start);
    whole_millis(&spent)
}

} // verus!
