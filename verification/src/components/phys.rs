//! Physical components: position, velocity and bounding box.

use crate::screen::{HEIGHT, WIDTH};
use vstd::prelude::*;

verus! {

/// Speeds handed to the physics system stay below this bound (milli-pixels
/// per tick), which keeps every fixed-point product inside `i64`.
pub const SPEED_LIMIT: i64 = 1_000_000_000_000;

/// Angles handed to the physics system stay within this bound (millidegrees),
/// which keeps every angle update inside `i64`.
pub const ANGLE_LIMIT: i64 = 1_000_000_000_000;

/// Top-left corner of an entity's axis-aligned bounding box, in milli-pixels
/// of playfield coordinates. `y` grows downward.
#[derive(Clone, Copy, Debug, PartialEq, Eq, Structural)]
pub struct Position {
    pub x: i64,
    pub y: i64,
}

/// Polar velocity: `angle` in millidegrees with the usual upward-positive
/// trigonometric convention, `speed` in milli-pixels per tick. Displacement
/// per tick is `(speed * cos(angle), -speed * sin(angle))`; the `y` part is
/// negated because screen `y` grows downward.
#[derive(Clone, Copy, Debug, PartialEq, Eq, Structural)]
pub struct Velocity {
    pub angle: i64,
    pub speed: i64,
}

/// Width and height of an entity's bounding box in milli-pixels; set once at
/// creation and never changed.
#[derive(Clone, Copy, Debug, PartialEq, Eq, Structural)]
pub struct Bounds {
    pub w: i64,
    pub h: i64,
}

/// A bounding box fits the playfield and is never degenerate.
pub open spec fn bounds_wf(b: Bounds) -> bool {
    &&& 0 < b.w <= WIDTH
    &&& 0 < b.h <= HEIGHT
}

/// The position is inside the fixed-point working range for one tick of
/// motion: far wider than the playfield, so a box may start a tick outside
/// the field, but narrow enough that integrating it cannot overflow.
pub open spec fn pos_ok(p: Position) -> bool {
    &&& -2_000_000_000_000 <= p.x <= 2_000_000_000_000
    &&& -2_000_000_000_000 <= p.y <= 2_000_000_000_000
}

/// The whole bounding box lies inside the playfield.
pub open spec fn in_field(p: Position, b: Bounds) -> bool {
    &&& 0 <= p.x <= WIDTH - b.w
    &&& 0 <= p.y <= HEIGHT - b.h
}

/// The velocity's numbers are small enough for the fixed-point arithmetic of
/// one tick.
pub open spec fn vel_ok(v: Velocity) -> bool {
    &&& 0 <= v.speed <= SPEED_LIMIT
    &&& -ANGLE_LIMIT <= v.angle <= ANGLE_LIMIT
}

} // verus!
