//! The monotonic clock.

use vstd::prelude::*;

verus! {

/// A point in monotonic time.
#[verifier::external_type_specification]
#[verifier::external_body]
pub struct ExInstant(std::time::Instant);

/// `Instant::now`: the current point in monotonic time.
#[verifier::external_body]
pub(crate) fn instant_now() -> (r: std::time::Instant) {
    std::time::Instant::now()
}

/// `Instant::elapsed`, in whole milliseconds (`Duration::as_millis`): the time since `t`.
/// It depends on the clock, so nothing is stated of it.
#[verifier::external_body]
pub(crate) fn elapsed_millis(t: &std::time::Instant) -> (r: u128) {
    t.elapsed().as_millis()
}

} // verus!
