//! Wall-clock measurement of single calls.

use std::time::{Duration, Instant};
use vstd::prelude::*;

verus! {

/// `std::time::Instant`, carried through unopened.
#[verifier::external_type_specification]
#[verifier::external_body]
pub struct ExInstant(Instant);

/// `Instant::now` reads the clock: nothing is known of what it returns.
pub assume_specification[ Instant::now ]() -> Instant;

/// `Instant::elapsed` reads the clock: nothing is known of what it returns.
pub assume_specification[ Instant::elapsed ](start: &Instant) -> Duration;

/// `Duration::as_nanos` gives the duration in whole nanoseconds; the
/// duration being opaque here, nothing is stated of the number.
pub assume_specification[ Duration::as_nanos ](duration: &Duration) -> u128;

/// `nanos` where it fits in 64 bits, else the largest 64-bit number.
pub open spec fn spec_clamp_nanos(nanos: u128) -> u64 {
    if nanos <= u64::MAX {
        nanos as u64
    } else {
        u64::MAX
    }
}

/// Cuts a nanosecond count to 64 bits, which hold more than 584 years.
pub fn clamp_nanos(nanos: u128) -> (r: u64)
    ensures
        r == spec_clamp_nanos(nanos),
{
    if nanos <= u64::MAX as u128 {
        nanos as u64
    } else {
        u64::MAX
    }
}

/// Nanoseconds since `start`, cut to 64 bits. Two calls need not agree.
pub(crate) fn elapsed_nanos(start: &Instant) -> u64 {
    let elapsed = start.elapsed();
    clamp_nanos(elapsed.as_nanos())
}

/// The sum of call times stays within 128 bits: one more 64-bit sample
/// added to the sum of `count` samples gives at most `count + 1` times the
/// largest sample.
pub proof fn lemma_time_sum_fits(sum: u128, count: usize, sample: u64)
    requires
        sum <= count * u64::MAX,
    ensures
        sum + sample <= (count + 1) * u64::MAX,
        sum + sample <= u128::MAX,
{
    assert(count * u64::MAX + u64::MAX == (count + 1) * u64::MAX) by (nonlinear_arith);
    assert((count + 1) * u64::MAX <= 0x1_0000_0000_0000_0000 * u64::MAX) by (nonlinear_arith)
        requires
            count + 1 <= 0x1_0000_0000_0000_0000,
    ;
}

} // verus!
