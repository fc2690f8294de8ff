//! The random draws of the ball, made by the `rand` crate.
//!
//! Nothing in this file is proved: each item states what `rand` documents
//! of one of its functions, and the rest of the crate relies on it.

use vstd::prelude::*;
use rand::distributions::{Distribution, Uniform};
use rand::Rng;

verus! {

/// `rand::rngs::ThreadRng`, the handle to the generator of the current
/// thread. Nothing is known of its contents.
#[verifier::external_type_specification]
#[verifier::external_body]
pub struct ExThreadRng(rand::rngs::ThreadRng);

/// `rand::thread_rng` hands out the generator of the current thread.
/// Nothing is claimed of it. (It panics if the operating system cannot
/// seed the generator.)
pub assume_specification[ rand::thread_rng ]() -> (rng: rand::rngs::ThreadRng);

/// Builds `rand::distributions::Uniform` over the half-open range from
/// `low` to `high` and draws once from it with `Distribution::sample`.
/// `Uniform::new` panics unless `low < high`; its samples are at least
/// `low` and less than `high`.
#[verifier::external_body]
pub(crate) fn sample_uniform(rng: &mut rand::rngs::ThreadRng, low: i32, high: i32) -> (drawn: i32)
    requires
        low < high,
    ensures
        low <= drawn < high,
{
    Uniform::from(low..high).sample(rng)
}

/// Draws with `rand::Rng::gen_range` from the closed range from `low` to
/// `high`. The call panics on an empty range; its result is at least `low`
/// and at most `high`.
#[verifier::external_body]
pub(crate) fn gen_range_inclusive(rng: &mut rand::rngs::ThreadRng, low: i32, high: i32) -> (drawn: i32)
    requires
        low <= high,
    ensures
        low <= drawn <= high,
{
    rng.gen_range(low..=high)
}

} // verus!
