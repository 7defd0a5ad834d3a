//! A monotonic clock, in milliseconds since a fixed instant.

use vstd::prelude::*;

verus! {

/// `std::time::Instant`, carried through as an opaque value.
#[verifier::external_type_specification]
#[verifier::external_body]
pub struct ExInstant(std::time::Instant);

/// `std::time::Instant::now`. Nothing is stated of the result: it is the
/// time.
#[verifier::external_body]
pub(crate) fn instant_now() -> std::time::Instant {
    std::time::Instant::now()
}

/// `Instant::elapsed` of `origin`, as whole milliseconds (saturating at the
/// top of `u64`). Nothing is stated of the result: it is the time.
#[verifier::external_body]
pub(crate) fn elapsed_ms(origin: &std::time::Instant) -> u64 {
    u64::try_from(origin.elapsed().as_millis()).unwrap_or(u64::MAX)
}

} // verus!
