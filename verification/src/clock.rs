//! The monotonic clock. Readings depend on time, so nothing is stated of them
//! beyond their type; the logic that uses them is verified for every value.

use vstd::prelude::*;

verus! {

#[verifier::external_type_specification]
#[verifier::external_body]
pub struct ExInstant(std::time::Instant);

/// `Instant::now`: the current monotonic instant.
#[verifier::external_body]
pub(crate) fn instant_now() -> std::time::Instant {
    std::time::Instant::now()
}

/// `Instant::elapsed` in whole seconds.
#[verifier::external_body]
pub(crate) fn elapsed_secs(start: &std::time::Instant) -> u64 {
    start.elapsed().as_secs()
}

/// `Instant::elapsed` in nanoseconds (wrapping after about 584 years).
#[verifier::external_body]
pub(crate) fn elapsed_nanos(start: &std::time::Instant) -> u64 {
    start.elapsed().as_nanos() as u64
}

} // verus!
