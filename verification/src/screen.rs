//! Playfield dimensions and the fixed-point scale.
//!
//! Every length in the crate is an `i64` count of milli-pixels: `SCALE`
//! milli-pixels make one pixel. The playfield spans `WIDTH` by `HEIGHT`
//! milli-pixels, with `x` growing rightward and `y` growing downward from the
//! top-left corner.

use vstd::prelude::*;

verus! {

/// Milli-pixels per pixel (and milli-units per unit throughout the crate).
pub const SCALE: i64 = 1000;

/// Playfield width: 800 pixels, in milli-pixels.
pub const WIDTH: i64 = 800_000;

/// Playfield height: 600 pixels, in milli-pixels.
pub const HEIGHT: i64 = 600_000;

/// The playfield centre's x coordinate: half of `WIDTH`.
pub const CENTER_X: i64 = 400_000;

/// The playfield centre's y coordinate: half of `HEIGHT`.
pub const CENTER_Y: i64 = 300_000;

} // verus!
