//! The one random source of the simulation.

use vstd::prelude::*;

verus! {

/// Relies on macroquad::rand::gen_range (quad_rand): the result is
/// low + (high - low) * rand() / 2^32, computed in f64 and truncated to an
/// integer, so it never leaves [low, high]. Rounding of the f64 sum can land
/// exactly on high, so the upper end is inclusive here; callers clamp where
/// they need a strict bound.
#[verifier::external_body]
pub(crate) fn rand_in(low: u32, high: u32) -> (r: u32)
    requires
        low < high,
    ensures
        low <= r <= high,
{
    macroquad::rand::gen_range(low, high)
}

} // verus!
