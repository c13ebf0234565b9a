//! A precision-generic geometry and color math kernel.
//!
//! The kernel is generic over a scalar capability set
//! ([`scalar::Scalar`]): every algorithm is written once and holds at
//! any precision whose operations satisfy the trait's contracts.
//! Values are plain and copied; no operation holds state across
//! calls.

use vstd::prelude::*;

pub mod angle;
pub mod color;
pub mod euler;
pub mod interpolation;
pub mod matrix;
pub mod percentage;
pub mod prelude;
pub mod quaternion;
pub mod render;
pub mod scalar;
pub mod vector;

verus! {

#[verifier::external_type_specification]
#[verifier::external_body]
pub struct ExInstant(std::time::Instant);

/// Relies on `std::time::Instant::now`: an opaque reading of the
/// monotonic clock; nothing is promised of its value.
#[verifier::external_body]
fn clock_now() -> std::time::Instant {
    std::time::Instant::now()
}

/// Relies on `std::time::Instant::elapsed`: the time since the
/// reading; the value depends on the clock, so nothing is promised of
/// it.
#[verifier::external_body]
fn clock_elapsed(start: &std::time::Instant) -> core::time::Duration {
    start.elapsed()
}

/// Relies on division of `core::time::Duration` by an integer, which
/// panics only on a zero divisor; the divisor is required nonzero.
#[verifier::external_body]
fn duration_div(d: core::time::Duration, n: u32) -> core::time::Duration
    requires
        n != 0,
{
    d / n
}

/// Runs `f` the given number of times and reports the mean duration
/// of one run. The count is capped so that the divisor below stays
/// exact and nonzero.
pub fn benchmark<F: Fn()>(f: F, times: usize) -> core::time::Duration
    requires
        1 <= times <= u32::MAX,
        call_requires(f, ()),
{
    let start = clock_now();
    let mut i: usize = 0;
    while i < times
        invariant
            i <= times,
            call_requires(f, ()),
        decreases times - i,
    {
        f();
        i = i + 1;
    }
    duration_div(clock_elapsed(&start), times as u32)
}

} // verus!
