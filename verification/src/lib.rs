//! Core of a two-player pong simulation: a ball bounces inside a fixed
//! rectangular arena and off two vertically sliding paddles.
//!
//! All geometry is carried in milli-units: one thousandth of a logical
//! arena unit. The arena is 500 by 300 units, so x coordinates run over
//! `0 ..= 500_000` and y coordinates over `0 ..= 300_000`. Working in
//! integers lets every step of the physics carry an exact contract; the
//! trigonometry that turns a travel angle into per-tick velocity
//! components is left to the caller, which hands the components in as
//! bounded milli-unit values.

use vstd::prelude::*;

pub mod ball;
pub mod game;
pub mod paddle;
mod rng;

verus! {

/// Arena width in milli-units (500 units).
pub const ARENA_W: i64 = 500_000;

/// Arena height in milli-units (300 units).
pub const ARENA_H: i64 = 300_000;

/// Ball radius in milli-units (8 units).
pub const BALL_R: i64 = 8_000;

/// Width of the vertical strip each paddle occupies, in milli-units (8 units).
pub const PADDLE_W: i64 = 8_000;

/// Ball speed: the constant magnitude of the per-flight velocity,
/// in milli-units per tick (8 units).
pub const BALL_SPEED: i64 = 8_000;

} // verus!
