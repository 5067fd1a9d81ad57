//! The physics system.
//!
//! Once per tick, after intent resolution, it integrates the paddles and
//! clamps them to the playfield, integrates the ball, reflects the ball off
//! the top and bottom edges, resets it to the centre when it leaves through
//! the left or right edge, resolves paddle collisions with angle-dependent
//! bounce physics, and finally clamps the ball into the playfield.

use crate::components::phys::{bounds_wf, in_field, pos_ok, vel_ok, Bounds, Position, Velocity};
use crate::context::Context;
use crate::screen::{CENTER_X, CENTER_Y, HEIGHT, WIDTH};
use crate::sound::SoundEvent;
use crate::trig::{cos_milli, scale_mul, sin_milli, spec_cos, spec_scale_mul, spec_sin, FULL_TURN,
    HALF_TURN};
use crate::world::{World, BALL_START_SPEED};
use vstd::arithmetic::div_mod::{
    lemma_div_is_ordered, lemma_div_multiples_vanish, lemma_div_pos_is_pos,
};
use vstd::prelude::*;

verus! {

/// Angle of the ball after a reset, up to sign, in millidegrees.
pub const RESET_ANGLE: i64 = 10_000;

/// Base bounce angle off paddle 1's corners, in millidegrees.
pub const CORNER_BASE_ANGLE: i64 = 45_000;

/// Base bounce angle off paddle 2's corners: paddle 1's mirrored around the
/// vertical.
pub const CORNER_BASE_ANGLE_P2: i64 = 135_000;

/// Millidegrees of bounce angle per thousandth of corner ratio.
pub const CORNER_ANGLE_GAIN: i64 = 30;

/// Milli-pixels per tick of extra speed per thousandth of corner ratio.
pub const CORNER_SPEED_GAIN: i64 = 3;

/// The x coordinate after one tick of motion: `speed * cos(angle)` to the
/// right, in milli-pixels.
pub open spec fn integrate_x(p: Position, v: Velocity) -> int {
    p.x + spec_scale_mul(v.speed as int, spec_cos(v.angle as int))
}

/// The y coordinate after one tick of motion: `speed * sin(angle)` upward,
/// that is subtracted, since screen y grows downward.
pub open spec fn integrate_y(p: Position, v: Velocity) -> int {
    p.y - spec_scale_mul(v.speed as int, spec_sin(v.angle as int))
}

/// A coordinate forced into `[0, max]`, taking the upper bound first — so a
/// negative `max` yields `0`.
pub open spec fn clamp_coord(v: int, max: int) -> int {
    let upper = if v > max {
        max
    } else {
        v
    };
    if upper < 0 {
        0
    } else {
        upper
    }
}

/// The bounding box sticks out of the playfield on the left or right.
pub open spec fn spec_oob_x(x: int, b: Bounds) -> bool {
    x < 0 || x + b.w > WIDTH
}

/// The bounding box sticks out of the playfield on the top or bottom.
pub open spec fn spec_oob_y(y: int, b: Bounds) -> bool {
    y < 0 || y + b.h > HEIGHT
}

/// Axis-aligned bounding-box overlap between a box at `(ax, ay)` and a
/// second one at `(bx, by)`.
pub open spec fn spec_collides(
    ax: int,
    ay: int,
    ab: Bounds,
    bx: int,
    by: int,
    bb: Bounds,
) -> bool {
    &&& ax < bx + bb.w
    &&& ax + ab.w > bx
    &&& ay < by + bb.h
    &&& ay + ab.h > by
}

/// The contact is an upper-corner hit: the ball's top edge is above the
/// paddle's.
pub open spec fn spec_upper_corner(ball_y: int, paddle_pos: Position) -> bool {
    ball_y < paddle_pos.y
}

/// The contact is a lower-corner hit: the ball's bottom edge is below the
/// paddle's.
pub open spec fn spec_lower_corner(
    ball_y: int,
    ball_bounds: Bounds,
    paddle_pos: Position,
    paddle_bounds: Bounds,
) -> bool {
    ball_y + ball_bounds.h > paddle_pos.y + paddle_bounds.h
}

/// How far off-centre a corner contact is, in thousandths: the overhang `dy`
/// measured against the ball's height.
pub open spec fn spec_corner_ratio(dy: int, h: int) -> int {
    1000 * dy / h
}

/// A velocity outcome of the bounce rules, at mathematical precision.
pub struct VelOutcome {
    pub angle: int,
    pub speed: int,
}

/// Bounce response off paddle 1 for a ball whose (wall-adjusted) angle,
/// speed and integrated top edge `ball_y` are given: corner hits pivot off
/// the base angle and gain speed with the corner ratio, a centre hit mirrors
/// the angle about the vertical with no speed change.
pub open spec fn bounce_p1(
    angle: int,
    speed: int,
    ball_y: int,
    ball_bounds: Bounds,
    paddle_pos: Position,
    paddle_bounds: Bounds,
) -> VelOutcome {
    if spec_upper_corner(ball_y, paddle_pos) {
        let r = spec_corner_ratio(paddle_pos.y - ball_y, ball_bounds.h as int);
        VelOutcome {
            angle: CORNER_BASE_ANGLE + CORNER_ANGLE_GAIN * r,
            speed: speed + CORNER_SPEED_GAIN * r,
        }
    } else if spec_lower_corner(ball_y, ball_bounds, paddle_pos, paddle_bounds) {
        let r = spec_corner_ratio(
            ball_y + ball_bounds.h - (paddle_pos.y + paddle_bounds.h),
            ball_bounds.h as int,
        );
        VelOutcome {
            angle: -CORNER_BASE_ANGLE + CORNER_ANGLE_GAIN * r,
            speed: speed + CORNER_SPEED_GAIN * r,
        }
    } else {
        VelOutcome { angle: -angle - HALF_TURN, speed: speed }
    }
}

/// Bounce response off paddle 2: the mirror image of paddle 1's, with base
/// angles at 135 degrees up and down.
pub open spec fn bounce_p2(
    angle: int,
    speed: int,
    ball_y: int,
    ball_bounds: Bounds,
    paddle_pos: Position,
    paddle_bounds: Bounds,
) -> VelOutcome {
    if spec_upper_corner(ball_y, paddle_pos) {
        let r = spec_corner_ratio(paddle_pos.y - ball_y, ball_bounds.h as int);
        VelOutcome {
            angle: CORNER_BASE_ANGLE_P2 - CORNER_ANGLE_GAIN * r,
            speed: speed + CORNER_SPEED_GAIN * r,
        }
    } else if spec_lower_corner(ball_y, ball_bounds, paddle_pos, paddle_bounds) {
        let r = spec_corner_ratio(
            ball_y + ball_bounds.h - (paddle_pos.y + paddle_bounds.h),
            ball_bounds.h as int,
        );
        VelOutcome {
            angle: -CORNER_BASE_ANGLE_P2 + CORNER_ANGLE_GAIN * r,
            speed: speed + CORNER_SPEED_GAIN * r,
        }
    } else {
        VelOutcome { angle: -angle - HALF_TURN, speed: speed }
    }
}

/// A paddle's x coordinate after one tick: integrated, then clamped to the
/// playfield.
pub open spec fn paddle_step_x(p: Position, v: Velocity, b: Bounds) -> int {
    clamp_coord(integrate_x(p, v), WIDTH - b.w)
}

/// A paddle's y coordinate after one tick: integrated, then clamped to the
/// playfield.
pub open spec fn paddle_step_y(p: Position, v: Velocity, b: Bounds) -> int {
    clamp_coord(integrate_y(p, v), HEIGHT - b.h)
}

/// Paddle motion is exactly vertical and exactly at the stored speed: the
/// sine and cosine are exact at the quarter turns, so an entity pointed
/// straight up or straight down moves by precisely `speed` milli-pixels and
/// never drifts sideways.
pub proof fn lemma_paddle_vertical_motion(p: Position, v: Velocity)
    requires
        0 <= v.speed,
        v.angle == 90_000 || v.angle == 270_000,
    ensures
        integrate_x(p, v) == p.x,
        v.angle == 90_000 ==> integrate_y(p, v) == p.y - v.speed,
        v.angle == 270_000 ==> integrate_y(p, v) == p.y + v.speed,
{
    crate::trig::lemma_quarter_turn_values();
    crate::trig::lemma_scale_mul_exact(v.speed as int);
}

/// The ball's whole outcome for one tick, at mathematical precision.
pub struct BallOutcome {
    pub x: int,
    pub y: int,
    pub angle: int,
    pub speed: int,
    pub sound: Option<SoundEvent>,
}

/// The ball's tick, against the already-moved paddles: integrate; reflect
/// the angle about the horizontal when the ball sticks out at the top or
/// bottom; then exactly one of — reset to the centre when it left through a
/// side, bounce off paddle 1, bounce off paddle 2, or plain flight — and a
/// final clamp into the playfield.
pub open spec fn ball_step(
    bp: Position,
    bv: Velocity,
    bb: Bounds,
    p1p: Position,
    p1b: Bounds,
    p2p: Position,
    p2b: Bounds,
) -> BallOutcome {
    let ix = integrate_x(bp, bv);
    let iy = integrate_y(bp, bv);
    let wall_angle = if spec_oob_y(iy, bb) {
        -(bv.angle as int)
    } else {
        bv.angle as int
    };
    let out = if spec_oob_x(ix, bb) {
        BallOutcome {
            x: CENTER_X as int,
            y: CENTER_Y as int,
            angle: if wall_angle >= 0 {
                RESET_ANGLE as int
            } else {
                -(RESET_ANGLE as int)
            },
            speed: BALL_START_SPEED as int,
            sound: None,
        }
    } else if spec_collides(ix, iy, bb, p1p.x as int, p1p.y as int, p1b) {
        let v = bounce_p1(wall_angle, bv.speed as int, iy, bb, p1p, p1b);
        BallOutcome {
            x: p1p.x + p1b.w,
            y: iy,
            angle: v.angle,
            speed: v.speed,
            sound: Some(SoundEvent::Beep),
        }
    } else if spec_collides(ix, iy, bb, p2p.x as int, p2p.y as int, p2b) {
        let v = bounce_p2(wall_angle, bv.speed as int, iy, bb, p2p, p2b);
        BallOutcome {
            x: p2p.x - bb.w,
            y: iy,
            angle: v.angle,
            speed: v.speed,
            sound: Some(SoundEvent::Boop),
        }
    } else {
        BallOutcome { x: ix, y: iy, angle: wall_angle, speed: bv.speed as int, sound: None }
    };
    BallOutcome {
        x: clamp_coord(out.x, WIDTH - bb.w),
        y: clamp_coord(out.y, HEIGHT - bb.h),
        angle: out.angle,
        speed: out.speed,
        sound: out.sound,
    }
}

/// Moves a position one tick along its velocity. The velocity is borrowed
/// mutably to match the system's write access, but comes back unchanged.
pub fn update_pos(pos: &mut Position, vel: &mut Velocity)
    requires
        vel_ok(*old(vel)),
        -2_000_000_000_000 <= old(pos).x <= 2_000_000_000_000,
        -2_000_000_000_000 <= old(pos).y <= 2_000_000_000_000,
    ensures
        final(pos).x == integrate_x(*old(pos), *old(vel)),
        final(pos).y == integrate_y(*old(pos), *old(vel)),
        old(pos).x - old(vel).speed <= final(pos).x <= old(pos).x + old(vel).speed,
        old(pos).y - old(vel).speed <= final(pos).y <= old(pos).y + old(vel).speed,
        *final(vel) == *old(vel),
{
    let dx = scale_mul(vel.speed, cos_milli(vel.angle));
    let dy = scale_mul(vel.speed, sin_milli(vel.angle));
    pos.x = pos.x + dx;
    pos.y = pos.y - dy;
}

/// Clamps a position into the playfield for the given bounding box.
pub fn clamp_pos(pos: &mut Position, bounds: &Bounds)
    requires
        bounds_wf(*bounds),
    ensures
        final(pos).x == clamp_coord(old(pos).x as int, WIDTH - bounds.w),
        final(pos).y == clamp_coord(old(pos).y as int, HEIGHT - bounds.h),
        in_field(*final(pos), *bounds),
{
    if pos.x > WIDTH - bounds.w {
        pos.x = WIDTH - bounds.w;
    }
    if pos.x < 0 {
        pos.x = 0;
    }
    if pos.y > HEIGHT - bounds.h {
        pos.y = HEIGHT - bounds.h;
    }
    if pos.y < 0 {
        pos.y = 0;
    }
}

/// The box sticks out of the playfield on the left or right.
pub fn is_oob_x(ball_pos: &Position, ball_bounds: &Bounds) -> (r: bool)
    requires
        i64::MIN <= ball_pos.x + ball_bounds.w <= i64::MAX,
    ensures
        r == spec_oob_x(ball_pos.x as int, *ball_bounds),
{
    ball_pos.x < 0 || ball_pos.x + ball_bounds.w > WIDTH
}

/// The box sticks out of the playfield on the top or bottom.
pub fn is_oob_y(ball_pos: &Position, ball_bounds: &Bounds) -> (r: bool)
    requires
        i64::MIN <= ball_pos.y + ball_bounds.h <= i64::MAX,
    ensures
        r == spec_oob_y(ball_pos.y as int, *ball_bounds),
{
    ball_pos.y < 0 || ball_pos.y + ball_bounds.h > HEIGHT
}

/// Axis-aligned bounding-box overlap between the two boxes.
pub fn is_colliding(
    first_pos: &Position,
    first_bounds: &Bounds,
    second_pos: &Position,
    second_bounds: &Bounds,
) -> (r: bool)
    requires
        i64::MIN <= first_pos.x + first_bounds.w <= i64::MAX,
        i64::MIN <= first_pos.y + first_bounds.h <= i64::MAX,
        i64::MIN <= second_pos.x + second_bounds.w <= i64::MAX,
        i64::MIN <= second_pos.y + second_bounds.h <= i64::MAX,
    ensures
        r == spec_collides(
            first_pos.x as int,
            first_pos.y as int,
            *first_bounds,
            second_pos.x as int,
            second_pos.y as int,
            *second_bounds,
        ),
{
    (first_pos.x < second_pos.x + second_bounds.w && first_pos.x + first_bounds.w
        > second_pos.x) && (first_pos.y < second_pos.y + second_bounds.h && first_pos.y
        + first_bounds.h > second_pos.y)
}

/// The contact is an upper-corner hit.
pub fn is_upper_corner(ball_pos: &Position, paddle_pos: &Position) -> (r: bool)
    ensures
        r == spec_upper_corner(ball_pos.y as int, *paddle_pos),
{
    ball_pos.y < paddle_pos.y
}

/// The contact is a lower-corner hit.
pub fn is_lower_corner(
    ball_pos: &Position,
    ball_bounds: &Bounds,
    paddle_pos: &Position,
    paddle_bounds: &Bounds,
) -> (r: bool)
    requires
        i64::MIN <= ball_pos.y + ball_bounds.h <= i64::MAX,
        i64::MIN <= paddle_pos.y + paddle_bounds.h <= i64::MAX,
    ensures
        r == spec_lower_corner(ball_pos.y as int, *ball_bounds, *paddle_pos, *paddle_bounds),
{
    ball_pos.y + ball_bounds.h > paddle_pos.y + paddle_bounds.h
}

/// The corner ratio in thousandths for an overhang `dy` against a ball
/// height `h`.
fn corner_ratio(dy: i64, h: i64) -> (r: i64)
    requires
        0 < h <= HEIGHT,
        0 <= dy <= h,
    ensures
        r == spec_corner_ratio(dy as int, h as int),
        0 <= r <= 1000,
{
    proof {
        lemma_corner_ratio_range(dy as int, h as int);
    }
    let num = 1000 * dy;
    num.checked_div_euclid(h).unwrap()
}

/// How much one tick can change the ball's numbers: a corner hit adds at
/// most `3 * 1000` to the speed, a reset sets it to `BALL_START_SPEED`, and
/// no angle update moves farther from zero than half a turn does.
pub proof fn lemma_ball_step_budget(
    bp: Position,
    bv: Velocity,
    bb: Bounds,
    p1p: Position,
    p1b: Bounds,
    p2p: Position,
    p2b: Bounds,
)
    requires
        bounds_wf(bb),
        vel_ok(bv),
    ensures
        ({
            let out = ball_step(bp, bv, bb, p1p, p1b, p2p, p2b);
            let mag = if bv.angle >= 0 {
                bv.angle as int
            } else {
                -(bv.angle as int)
            };
            &&& 0 <= out.speed <= bv.speed + 4000
            &&& -mag - 180_000 <= out.angle <= mag + 180_000
        }),
{
    let ix = integrate_x(bp, bv);
    let iy = integrate_y(bp, bv);
    let wall_angle = if spec_oob_y(iy, bb) {
        -(bv.angle as int)
    } else {
        bv.angle as int
    };
    if !spec_oob_x(ix, bb) {
        if spec_collides(ix, iy, bb, p1p.x as int, p1p.y as int, p1b) {
            if spec_upper_corner(iy, p1p) {
                lemma_corner_ratio_range(p1p.y - iy, bb.h as int);
            } else if spec_lower_corner(iy, bb, p1p, p1b) {
                lemma_corner_ratio_range(iy + bb.h - (p1p.y + p1b.h), bb.h as int);
            }
        } else if spec_collides(ix, iy, bb, p2p.x as int, p2p.y as int, p2b) {
            if spec_upper_corner(iy, p2p) {
                lemma_corner_ratio_range(p2p.y - iy, bb.h as int);
            } else if spec_lower_corner(iy, bb, p2p, p2b) {
                lemma_corner_ratio_range(iy + bb.h - (p2p.y + p2b.h), bb.h as int);
            }
        }
    }
}

/// The corner ratio of an overhang between zero and the ball's height lies
/// in `[0, 1000]`.
pub proof fn lemma_corner_ratio_range(dy: int, h: int)
    requires
        0 < h,
        0 <= dy <= h,
    ensures
        0 <= spec_corner_ratio(dy, h) <= 1000,
{
    lemma_div_pos_is_pos(1000 * dy, h);
    assert(1000 * dy <= 1000 * h) by (nonlinear_arith)
        requires
            dy <= h,
    ;
    lemma_div_is_ordered(1000 * dy, 1000 * h, h);
    lemma_div_multiples_vanish(1000, h);
    assert(1000 * h == h * 1000) by (nonlinear_arith);
}

/// Clamping is idempotent: a coordinate already forced into `[0, max]` is
/// left where it is, so clamping twice equals clamping once. Both
/// coordinates of a position are clamped with this one operation.
pub proof fn lemma_clamp_idempotent(v: int, max: int)
    ensures
        clamp_coord(clamp_coord(v, max), max) == clamp_coord(v, max),
{
}

/// Vertical wall reflection: when the integrated ball sticks out at the top
/// or bottom and nothing else happens that tick, its angle is exactly
/// negated and its vertical position is clamped back into range, with the
/// speed untouched.
pub proof fn lemma_vertical_wall_reflection(
    bp: Position,
    bv: Velocity,
    bb: Bounds,
    p1p: Position,
    p1b: Bounds,
    p2p: Position,
    p2b: Bounds,
)
    requires
        bounds_wf(bb),
        spec_oob_y(integrate_y(bp, bv), bb),
        !spec_oob_x(integrate_x(bp, bv), bb),
        !spec_collides(
            integrate_x(bp, bv),
            integrate_y(bp, bv),
            bb,
            p1p.x as int,
            p1p.y as int,
            p1b,
        ),
        !spec_collides(
            integrate_x(bp, bv),
            integrate_y(bp, bv),
            bb,
            p2p.x as int,
            p2p.y as int,
            p2b,
        ),
    ensures
        ({
            let out = ball_step(bp, bv, bb, p1p, p1b, p2p, p2b);
            &&& out.angle == -(bv.angle as int)
            &&& out.speed == bv.speed
            &&& out.y == clamp_coord(integrate_y(bp, bv), HEIGHT - bb.h)
            &&& 0 <= out.y <= HEIGHT - bb.h
        }),
{
}

/// Horizontal reset: when the integrated ball crosses the left or right
/// edge (and does not also cross the top or bottom), it reappears at the
/// playfield centre with the reset speed, angled ten degrees up or down
/// according to the sign of its previous angle, and no sound is emitted.
pub proof fn lemma_horizontal_reset(
    bp: Position,
    bv: Velocity,
    bb: Bounds,
    p1p: Position,
    p1b: Bounds,
    p2p: Position,
    p2b: Bounds,
)
    requires
        bounds_wf(bb),
        bb.w <= CENTER_X,
        bb.h <= CENTER_Y,
        spec_oob_x(integrate_x(bp, bv), bb),
        !spec_oob_y(integrate_y(bp, bv), bb),
    ensures
        ({
            let out = ball_step(bp, bv, bb, p1p, p1b, p2p, p2b);
            &&& out.x == CENTER_X
            &&& out.y == CENTER_Y
            &&& out.speed == BALL_START_SPEED
            &&& out.angle == (if bv.angle >= 0 {
                RESET_ANGLE as int
            } else {
                -(RESET_ANGLE as int)
            })
            &&& out.sound is None
        }),
{
}

/// Centre hit off paddle 1: a ball that meets the paddle between its
/// corners is mirrored about the vertical — the stored angle becomes
/// `-angle - 180°`, which is `180° - angle` up to full turns — keeps its
/// speed, and is repositioned flush against the paddle's outer edge.
pub proof fn lemma_p1_center_hit(
    bp: Position,
    bv: Velocity,
    bb: Bounds,
    p1p: Position,
    p1b: Bounds,
    p2p: Position,
    p2b: Bounds,
)
    requires
        bounds_wf(bb),
        !spec_oob_x(integrate_x(bp, bv), bb),
        !spec_oob_y(integrate_y(bp, bv), bb),
        spec_collides(
            integrate_x(bp, bv),
            integrate_y(bp, bv),
            bb,
            p1p.x as int,
            p1p.y as int,
            p1b,
        ),
        !spec_upper_corner(integrate_y(bp, bv), p1p),
        !spec_lower_corner(integrate_y(bp, bv), bb, p1p, p1b),
        0 <= p1p.x + p1b.w <= WIDTH - bb.w,
    ensures
        ({
            let out = ball_step(bp, bv, bb, p1p, p1b, p2p, p2b);
            &&& out.angle == -(bv.angle as int) - HALF_TURN
            &&& (out.angle - (HALF_TURN - bv.angle)) % (FULL_TURN as int) == 0
            &&& out.speed == bv.speed
            &&& out.x == p1p.x + p1b.w
            &&& out.sound == Some(SoundEvent::Beep)
        }),
{
}

/// Upper-corner hit off paddle 1: with corner ratio `r` (in thousandths)
/// the ball leaves at `45° + 30°·r` and gains `3·r` speed.
pub proof fn lemma_p1_upper_corner_hit(
    angle: int,
    speed: int,
    ball_y: int,
    bb: Bounds,
    pp: Position,
    pb: Bounds,
)
    requires
        spec_upper_corner(ball_y, pp),
    ensures
        ({
            let out = bounce_p1(angle, speed, ball_y, bb, pp, pb);
            let r = spec_corner_ratio(pp.y - ball_y, bb.h as int);
            &&& out.angle == CORNER_BASE_ANGLE + CORNER_ANGLE_GAIN * r
            &&& out.speed == speed + CORNER_SPEED_GAIN * r
        }),
{
}

/// Upper-corner hit off paddle 2: the mirror of paddle 1's, leaving at
/// `135° - 30°·r` with the same speed gain.
pub proof fn lemma_p2_upper_corner_hit(
    angle: int,
    speed: int,
    ball_y: int,
    bb: Bounds,
    pp: Position,
    pb: Bounds,
)
    requires
        spec_upper_corner(ball_y, pp),
    ensures
        ({
            let out = bounce_p2(angle, speed, ball_y, bb, pp, pb);
            let r = spec_corner_ratio(pp.y - ball_y, bb.h as int);
            &&& out.angle == CORNER_BASE_ANGLE_P2 - CORNER_ANGLE_GAIN * r
            &&& out.speed == speed + CORNER_SPEED_GAIN * r
        }),
{
}

/// The physics system.
pub struct Physics;

impl Physics {
    /// The system's name, for schedulers and logs.
    pub fn name(&self) -> (r: &'static str)
        ensures
            r@ == "physics"@,
    {
        proof {
            reveal_strlit("physics");
        }
        "physics"
    }

    /// One physics tick over the three distinguished entities: moves and
    /// clamps both paddles, then plays the ball against the playfield edges
    /// and the already-moved paddles as `ball_step` describes, and reports
    /// the collision sound to emit, if any. Every other entity and every
    /// other component table is untouched, and afterwards each of the three
    /// lies inside the playfield.
    pub fn run(&self, world: &mut World, ctx: &Context) -> (snd: Option<SoundEvent>)
        requires
            old(world)@.wf(),
            ctx.wf(old(world)@),
            bounds_wf(old(world)@.bounds_of(ctx.p1_paddle)),
            bounds_wf(old(world)@.bounds_of(ctx.p2_paddle)),
            bounds_wf(old(world)@.bounds_of(ctx.ball)),
            pos_ok(old(world)@.position_of(ctx.p1_paddle)),
            pos_ok(old(world)@.position_of(ctx.p2_paddle)),
            pos_ok(old(world)@.position_of(ctx.ball)),
            vel_ok(old(world)@.velocity_of(ctx.p1_paddle)),
            vel_ok(old(world)@.velocity_of(ctx.p2_paddle)),
            vel_ok(old(world)@.velocity_of(ctx.ball)),
        ensures
            final(world)@.wf(),
            final(world)@.num_entities() == old(world)@.num_entities(),
            final(world)@.bounds == old(world)@.bounds,
            final(world)@.shapes == old(world)@.shapes,
            final(world)@.players == old(world)@.players,
            ctx.wf(final(world)@),
            // entities other than the three are untouched
            forall|i: int|
                0 <= i < old(world)@.num_entities() && i != ctx.p1_paddle.id && i
                    != ctx.p2_paddle.id && i != ctx.ball.id ==> final(world)@.positions[i]
                    == old(world)@.positions[i] && final(world)@.velocities[i]
                    == old(world)@.velocities[i],
            // which entities carry which components never changes
            forall|i: int|
                0 <= i < old(world)@.num_entities() ==> ((final(world)@.positions[i] is Some
                    <==> old(world)@.positions[i] is Some) && (final(world)@.velocities[i] is Some
                    <==> old(world)@.velocities[i] is Some)),
            // paddles: integrated along their velocity, then clamped
            final(world)@.position_of(ctx.p1_paddle).x == paddle_step_x(
                old(world)@.position_of(ctx.p1_paddle),
                old(world)@.velocity_of(ctx.p1_paddle),
                old(world)@.bounds_of(ctx.p1_paddle),
            ),
            final(world)@.position_of(ctx.p1_paddle).y == paddle_step_y(
                old(world)@.position_of(ctx.p1_paddle),
                old(world)@.velocity_of(ctx.p1_paddle),
                old(world)@.bounds_of(ctx.p1_paddle),
            ),
            final(world)@.position_of(ctx.p2_paddle).x == paddle_step_x(
                old(world)@.position_of(ctx.p2_paddle),
                old(world)@.velocity_of(ctx.p2_paddle),
                old(world)@.bounds_of(ctx.p2_paddle),
            ),
            final(world)@.position_of(ctx.p2_paddle).y == paddle_step_y(
                old(world)@.position_of(ctx.p2_paddle),
                old(world)@.velocity_of(ctx.p2_paddle),
                old(world)@.bounds_of(ctx.p2_paddle),
            ),
            final(world)@.velocity_of(ctx.p1_paddle) == old(world)@.velocity_of(ctx.p1_paddle),
            final(world)@.velocity_of(ctx.p2_paddle) == old(world)@.velocity_of(ctx.p2_paddle),
            // the ball: exactly the outcome of `ball_step` against the moved
            // paddles
            ({
                let out = ball_step(
                    old(world)@.position_of(ctx.ball),
                    old(world)@.velocity_of(ctx.ball),
                    old(world)@.bounds_of(ctx.ball),
                    final(world)@.position_of(ctx.p1_paddle),
                    old(world)@.bounds_of(ctx.p1_paddle),
                    final(world)@.position_of(ctx.p2_paddle),
                    old(world)@.bounds_of(ctx.p2_paddle),
                );
                &&& final(world)@.position_of(ctx.ball).x == out.x
                &&& final(world)@.position_of(ctx.ball).y == out.y
                &&& final(world)@.velocity_of(ctx.ball).angle == out.angle
                &&& final(world)@.velocity_of(ctx.ball).speed == out.speed
                &&& snd == out.sound
            }),
            // the three distinguished entities end the tick inside the field
            in_field(
                final(world)@.position_of(ctx.p1_paddle),
                old(world)@.bounds_of(ctx.p1_paddle),
            ),
            in_field(
                final(world)@.position_of(ctx.p2_paddle),
                old(world)@.bounds_of(ctx.p2_paddle),
            ),
            in_field(final(world)@.position_of(ctx.ball), old(world)@.bounds_of(ctx.ball)),
            // and any other entity that was inside the field stays there
            forall|i: int|
                0 <= i < old(world)@.num_entities() && old(world)@.positions[i] is Some
                    && old(world)@.bounds[i] is Some && in_field(
                    old(world)@.positions[i]->Some_0,
                    old(world)@.bounds[i]->Some_0,
                ) ==> in_field(final(world)@.positions[i]->Some_0, old(world)@.bounds[i]->Some_0),
    {
        let p1 = ctx.p1_paddle;
        let p2 = ctx.p2_paddle;
        let ball = ctx.ball;

        let mut p1_pos = world.position(p1);
        let mut p1_vel = world.velocity(p1);
        let p1_b = world.bounds(p1);
        update_pos(&mut p1_pos, &mut p1_vel);
        clamp_pos(&mut p1_pos, &p1_b);
        world.set_position(p1, p1_pos);

        let mut p2_pos = world.position(p2);
        let mut p2_vel = world.velocity(p2);
        let p2_b = world.bounds(p2);
        update_pos(&mut p2_pos, &mut p2_vel);
        clamp_pos(&mut p2_pos, &p2_b);
        world.set_position(p2, p2_pos);

        let mut ball_pos = world.position(ball);
        let mut ball_vel = world.velocity(ball);
        let ball_b = world.bounds(ball);
        update_pos(&mut ball_pos, &mut ball_vel);

        let mut snd: Option<SoundEvent> = None;
        if is_oob_y(&ball_pos, &ball_b) {
            ball_vel.angle = -ball_vel.angle;
        }
        if is_oob_x(&ball_pos, &ball_b) {
            ball_pos.x = CENTER_X;
            ball_pos.y = CENTER_Y;
            ball_vel.angle = if ball_vel.angle >= 0 {
                RESET_ANGLE
            } else {
                -RESET_ANGLE
            };
            ball_vel.speed = BALL_START_SPEED;
        } else if is_colliding(&ball_pos, &ball_b, &p1_pos, &p1_b) {
            snd = Some(SoundEvent::Beep);
            if is_upper_corner(&ball_pos, &p1_pos) {
                let r = corner_ratio(p1_pos.y - ball_pos.y, ball_b.h);
                ball_vel.angle = CORNER_BASE_ANGLE + CORNER_ANGLE_GAIN * r;
                ball_vel.speed = ball_vel.speed + CORNER_SPEED_GAIN * r;
            } else if is_lower_corner(&ball_pos, &ball_b, &p1_pos, &p1_b) {
                let r = corner_ratio(ball_pos.y + ball_b.h - (p1_pos.y + p1_b.h), ball_b.h);
                ball_vel.angle = -CORNER_BASE_ANGLE + CORNER_ANGLE_GAIN * r;
                ball_vel.speed = ball_vel.speed + CORNER_SPEED_GAIN * r;
            } else {
                ball_vel.angle = -ball_vel.angle - HALF_TURN;
            }
            ball_pos.x = p1_pos.x + p1_b.w;
        } else if is_colliding(&ball_pos, &ball_b, &p2_pos, &p2_b) {
            snd = Some(SoundEvent::Boop);
            if is_upper_corner(&ball_pos, &p2_pos) {
                let r = corner_ratio(p2_pos.y - ball_pos.y, ball_b.h);
                ball_vel.angle = CORNER_BASE_ANGLE_P2 - CORNER_ANGLE_GAIN * r;
                ball_vel.speed = ball_vel.speed + CORNER_SPEED_GAIN * r;
            } else if is_lower_corner(&ball_pos, &ball_b, &p2_pos, &p2_b) {
                let r = corner_ratio(ball_pos.y + ball_b.h - (p2_pos.y + p2_b.h), ball_b.h);
                ball_vel.angle = -CORNER_BASE_ANGLE_P2 + CORNER_ANGLE_GAIN * r;
                ball_vel.speed = ball_vel.speed + CORNER_SPEED_GAIN * r;
            } else {
                ball_vel.angle = -ball_vel.angle - HALF_TURN;
            }
            ball_pos.x = p2_pos.x - ball_b.w;
        }
        clamp_pos(&mut ball_pos, &ball_b);
        world.set_position(ball, ball_pos);
        world.set_velocity(ball, ball_vel);
        snd
    }
}

} // verus!
