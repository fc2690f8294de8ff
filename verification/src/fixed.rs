//! Fixed-point scalars.
//!
//! Speeds and velocity components are signed counts of 1/65536: the
//! constant [`ONE`] stands for 1.0, so 2.5 is `2 * ONE + HALF`. The product of
//! two such scalars is a count of 1/65536², which is how displacements are
//! reported.

use vstd::prelude::*;

verus! {

/// The fixed-point representation of 1.0.
pub const ONE: i32 = 65536;

/// The fixed-point representation of 0.5.
pub const HALF: i32 = 32768;

/// `value` limited to the interval from `min` to `max`.
pub open spec fn clamped(value: int, min: int, max: int) -> int {
    if value < min {
        min
    } else if value > max {
        max
    } else {
        value
    }
}

/// Limits `value` to the interval from `min` to `max`.
pub fn clamp(value: i64, min: i64, max: i64) -> (limited: i64)
    ensures
        limited == clamped(value as int, min as int, max as int),
{
    if value < min {
        min
    } else if value > max {
        max
    } else {
        value
    }
}

/// The velocity component that follows `component` after a bounce that
/// reverses it and perturbs it by `jitter`, kept between `min` and `max` in
/// magnitude.
///
/// The band is chosen by the sign of the reversed component before the
/// jitter is added: a component reversed to a negative value lands in
/// `[-max, -min]`, any other in `[min, max]`.
pub open spec fn rebounded(component: int, jitter: int, min: int, max: int) -> int {
    let reversed = -component;
    if reversed < 0 {
        clamped(reversed + jitter, -max, -min)
    } else {
        clamped(reversed + jitter, min, max)
    }
}

/// Reverses `component`, adds `jitter` and clamps the sum into the band that
/// [`rebounded`] describes.
pub fn rebound(component: i32, jitter: i32, min: i32, max: i32) -> (next: i64)
    ensures
        next == rebounded(component as int, jitter as int, min as int, max as int),
{
    let reversed: i64 = -(component as i64);
    let sum: i64 = reversed + jitter as i64;
    if reversed < 0 {
        clamp(sum, -(max as i64), -(min as i64))
    } else {
        clamp(sum, min as i64, max as i64)
    }
}

} // verus!
