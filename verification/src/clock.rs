//! The monotonic clock, behind trusted wrappers.
//!
//! The stopwatch measures time with `tokio::time::Instant`. An instant is
//! opaque here; the rest of the library works on the plain nanosecond count
//! that [`nanos_since`] reads out of it.

use vstd::prelude::*;

verus! {

/// tokio's monotonic clock instant; opaque to verification.
#[verifier::external_type_specification]
#[verifier::external_body]
pub struct ExInstant(tokio::time::Instant);

/// The largest nanosecond count `std::time::Duration::as_nanos` can return:
/// `u64::MAX` whole seconds plus `999_999_999` nanoseconds.
pub const MAX_DURATION_NANOS: u128 = 0xFFFF_FFFF_FFFF_FFFF * 1_000_000_000 + 999_999_999;

/// Relies on `tokio::time::Instant::now`: a reading of the monotonic clock.
/// Nothing can be promised of the reading itself.
#[verifier::external_body]
pub(crate) fn instant_now() -> (i: tokio::time::Instant) {
    tokio::time::Instant::now()
}

/// Relies on `tokio::time::Instant::elapsed` (which saturates to zero rather
/// than panicking) and `std::time::Duration::as_nanos`: the nanoseconds from
/// `i` to the clock reading taken now. When the call happens is outside the
/// library's control, so no more than the range can be promised.
#[verifier::external_body]
pub(crate) fn nanos_since(i: &tokio::time::Instant) -> (n: u128)
    ensures
        n <= MAX_DURATION_NANOS,
{
    i.elapsed().as_nanos()
}

} // verus!
