//! Draws for the randomized parts of a ball reset: the coarse travel
//! quadrant and the travel angle.
//!
//! Nothing is assumed about which value comes back beyond its range, so
//! everything proved about the simulation holds for every outcome of the
//! draws.

use vstd::prelude::*;
use rand::Rng;
use crate::ball::{HEADING_MIN, HEADING_MAX};

verus! {

/// Relies on rand::thread_rng and rand::Rng::gen_range: a value drawn
/// from the half-open range `0..4`, so always below 4. The range is not
/// empty, so the call does not panic.
#[verifier::external_body]
pub(crate) fn draw_quadrant_index() -> (r: u8)
    ensures
        r < 4,
{
    rand::thread_rng().gen_range(0..4)
}

/// Relies on rand::thread_rng and rand::Rng::gen_range: a value drawn
/// from the half-open range `HEADING_MIN..HEADING_MAX + 1`, so always
/// within `HEADING_MIN ..= HEADING_MAX`. The range is not empty, so the
/// call does not panic.
#[verifier::external_body]
pub(crate) fn draw_heading_mrad() -> (r: i64)
    ensures
        HEADING_MIN <= r <= HEADING_MAX,
{
    rand::thread_rng().gen_range(HEADING_MIN..(HEADING_MAX + 1))
}

} // verus!
