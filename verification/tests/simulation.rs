use pawng::components::control::Direction;
use pawng::components::phys::{Bounds, Position, Velocity};
use pawng::schedule::tick;
use pawng::screen::{HEIGHT, WIDTH};
use pawng::sound::SoundEvent;
use pawng::systems::control::{Player, PADDLE_MOVE_SPEED};
use pawng::systems::physics::{clamp_pos, is_colliding, is_lower_corner, is_oob_x, is_oob_y,
    is_upper_corner, update_pos, Physics};
use pawng::trig::{cos_milli, norm_angle, scale_mul, sin_milli};
use pawng::world::{create_initial_entities, World};

fn fresh_game() -> (World, pawng::context::Context) {
    let mut w = World::new();
    let ctx = create_initial_entities(&mut w);
    (w, ctx)
}

#[test]
fn system_names() {
    assert_eq!(Player.name(), "ControlPlayer");
    assert_eq!(Physics.name(), "physics");
}

#[test]
fn sine_is_exact_at_quarter_turns() {
    assert_eq!(sin_milli(0), 0);
    assert_eq!(sin_milli(90_000), 1000);
    assert_eq!(sin_milli(180_000), 0);
    assert_eq!(sin_milli(270_000), -1000);
    assert_eq!(cos_milli(0), 1000);
    assert_eq!(cos_milli(90_000), 0);
    assert_eq!(cos_milli(180_000), -1000);
    assert_eq!(cos_milli(270_000), 0);
}

#[test]
fn sine_handles_any_winding() {
    assert_eq!(norm_angle(-10_000), 350_000);
    assert_eq!(norm_angle(730_000), 10_000);
    assert_eq!(sin_milli(45_000), 705);
    assert_eq!(sin_milli(-45_000), -705);
    assert_eq!(sin_milli(45_000 + 360_000), 705);
    assert_eq!(cos_milli(-170_000), -984);
}

#[test]
fn scaling_by_milli_factors() {
    assert_eq!(scale_mul(4000, 1000), 4000);
    assert_eq!(scale_mul(4000, -1000), -4000);
    assert_eq!(scale_mul(4000, 0), 0);
    assert_eq!(scale_mul(4000, 705), 2820);
    assert_eq!(scale_mul(4000, -705), -2820);
}

#[test]
fn update_pos_moves_along_the_velocity() {
    let mut pos = Position { x: 100_000, y: 200_000 };
    let mut vel = Velocity { angle: 90_000, speed: 2_000 };
    update_pos(&mut pos, &mut vel);
    // straight up: y shrinks by the full speed, x unchanged
    assert_eq!(pos, Position { x: 100_000, y: 198_000 });
    assert_eq!(vel, Velocity { angle: 90_000, speed: 2_000 });
}

#[test]
fn clamp_pos_forces_the_box_into_the_field() {
    let b = Bounds { w: 20_000, h: 20_000 };
    let mut p = Position { x: -5_000, y: 700_000 };
    clamp_pos(&mut p, &b);
    assert_eq!(p, Position { x: 0, y: HEIGHT - 20_000 });
}

#[test]
fn clamp_pos_is_idempotent() {
    let b = Bounds { w: 25_000, h: 100_000 };
    let mut once = Position { x: 900_000, y: -44_000 };
    clamp_pos(&mut once, &b);
    let mut twice = once;
    clamp_pos(&mut twice, &b);
    assert_eq!(once, twice);
}

#[test]
fn out_of_bounds_predicates() {
    let b = Bounds { w: 20_000, h: 20_000 };
    assert!(is_oob_x(&Position { x: -1, y: 0 }, &b));
    assert!(is_oob_x(&Position { x: WIDTH - 19_999, y: 0 }, &b));
    assert!(!is_oob_x(&Position { x: WIDTH - 20_000, y: 0 }, &b));
    assert!(is_oob_y(&Position { x: 0, y: -1 }, &b));
    assert!(is_oob_y(&Position { x: 0, y: HEIGHT - 19_999 }, &b));
    assert!(!is_oob_y(&Position { x: 0, y: 0 }, &b));
}

#[test]
fn collision_needs_overlap_on_both_axes() {
    let ball = Bounds { w: 20_000, h: 20_000 };
    let paddle = Bounds { w: 25_000, h: 100_000 };
    let pp = Position { x: 0, y: 250_000 };
    assert!(is_colliding(&Position { x: 20_000, y: 300_000 }, &ball, &pp, &paddle));
    // touching edge-to-edge is no overlap
    assert!(!is_colliding(&Position { x: 25_000, y: 300_000 }, &ball, &pp, &paddle));
    // overlapping in x alone is no collision
    assert!(!is_colliding(&Position { x: 20_000, y: 360_000 }, &ball, &pp, &paddle));
}

#[test]
fn corner_zone_predicates() {
    let ball = Bounds { w: 20_000, h: 20_000 };
    let paddle = Bounds { w: 25_000, h: 100_000 };
    let pp = Position { x: 0, y: 250_000 };
    assert!(is_upper_corner(&Position { x: 0, y: 249_999 }, &pp));
    assert!(!is_upper_corner(&Position { x: 0, y: 250_000 }, &pp));
    assert!(is_lower_corner(&Position { x: 0, y: 330_001 }, &ball, &pp, &paddle));
    assert!(!is_lower_corner(&Position { x: 0, y: 330_000 }, &ball, &pp, &paddle));
}

#[test]
fn paddle_speed_follows_the_intent() {
    let (mut w, ctx) = fresh_game();
    tick(&mut w, &ctx, Some(Direction::Up), None);
    assert_eq!(w.velocity(ctx.p1_paddle), Velocity { angle: 90_000, speed: PADDLE_MOVE_SPEED });
    tick(&mut w, &ctx, Some(Direction::Neutral), None);
    assert_eq!(w.velocity(ctx.p1_paddle).speed, 0);
    tick(&mut w, &ctx, Some(Direction::Down), None);
    assert_eq!(w.velocity(ctx.p1_paddle), Velocity { angle: 270_000, speed: PADDLE_MOVE_SPEED });
}

#[test]
fn intent_is_level_triggered() {
    let (mut w, ctx) = fresh_game();
    tick(&mut w, &ctx, Some(Direction::Down), None);
    let y_after_one = w.position(ctx.p1_paddle).y;
    assert_eq!(y_after_one, 2_000);
    // no new intent: the paddle keeps moving down
    tick(&mut w, &ctx, None, None);
    assert_eq!(w.position(ctx.p1_paddle).y, 4_000);
    assert!(matches!(w.player(ctx.p1_paddle).direction, Direction::Down));
}

#[test]
fn paddles_are_clamped_at_the_field_edges() {
    let (mut w, ctx) = fresh_game();
    // paddle 1 starts at the top; moving up leaves it pinned there
    tick(&mut w, &ctx, Some(Direction::Up), None);
    assert_eq!(w.position(ctx.p1_paddle), Position { x: 0, y: 0 });
    assert_eq!(w.velocity(ctx.p1_paddle).speed, PADDLE_MOVE_SPEED);
}

#[test]
fn ball_flies_freely_between_collisions() {
    let (mut w, ctx) = fresh_game();
    let snd = tick(&mut w, &ctx, None, None);
    // 45 degrees at speed 4000: 2820 milli-pixels right and up
    assert_eq!(w.position(ctx.ball), Position { x: 402_820, y: 297_180 });
    assert_eq!(w.velocity(ctx.ball), Velocity { angle: 45_000, speed: 4_000 });
    assert!(snd.is_none());
}

#[test]
fn vertical_wall_bounce_negates_the_angle() {
    let (mut w, ctx) = fresh_game();
    // sin(30 deg) is exactly 500 here: from y = 500 the ball pokes 1500
    // milli-pixels out at the top
    w.set_position(ctx.ball, Position { x: 400_000, y: 500 });
    w.set_velocity(ctx.ball, Velocity { angle: 30_000, speed: 4_000 });
    let snd = tick(&mut w, &ctx, None, None);
    assert_eq!(w.velocity(ctx.ball), Velocity { angle: -30_000, speed: 4_000 });
    // cos(30 deg) is 864: x advances 3456; y is clamped back to the edge
    assert_eq!(w.position(ctx.ball), Position { x: 403_456, y: 0 });
    assert!(snd.is_none());
}

#[test]
fn vertical_reflection_applies_from_outside_the_field() {
    let (mut w, ctx) = fresh_game();
    // a ball already poking one pixel out at the top, standing still: the
    // tick negates its angle and clamps it back onto the edge
    w.set_position(ctx.ball, Position { x: 400_000, y: -1_000 });
    w.set_velocity(ctx.ball, Velocity { angle: 30_000, speed: 0 });
    let snd = tick(&mut w, &ctx, None, None);
    assert_eq!(w.velocity(ctx.ball), Velocity { angle: -30_000, speed: 0 });
    assert_eq!(w.position(ctx.ball), Position { x: 400_000, y: 0 });
    assert!(snd.is_none());
}

#[test]
fn crossing_the_right_edge_resets_the_ball() {
    let (mut w, ctx) = fresh_game();
    w.set_position(ctx.ball, Position { x: 779_000, y: 300_000 });
    w.set_velocity(ctx.ball, Velocity { angle: 0, speed: 4_000 });
    let snd = tick(&mut w, &ctx, None, None);
    assert_eq!(w.position(ctx.ball), Position { x: WIDTH / 2, y: HEIGHT / 2 });
    assert_eq!(w.velocity(ctx.ball), Velocity { angle: 10_000, speed: 4_000 });
    assert!(snd.is_none());
}

#[test]
fn reset_angle_follows_the_sign_of_the_old_angle() {
    let (mut w, ctx) = fresh_game();
    // a negative stored angle pointing left-ish: exits through the left edge
    w.set_position(ctx.ball, Position { x: 2_000, y: 300_000 });
    w.set_velocity(ctx.ball, Velocity { angle: -170_000, speed: 4_000 });
    tick(&mut w, &ctx, None, None);
    assert_eq!(w.position(ctx.ball), Position { x: 400_000, y: 300_000 });
    assert_eq!(w.velocity(ctx.ball), Velocity { angle: -10_000, speed: 4_000 });
}

#[test]
fn reset_takes_precedence_over_paddle_collision() {
    let (mut w, ctx) = fresh_game();
    // overlapping paddle 2 and crossing the right edge in the same tick
    w.set_position(ctx.p2_paddle, Position { x: 775_000, y: 290_000 });
    w.set_position(ctx.ball, Position { x: 781_000, y: 300_000 });
    w.set_velocity(ctx.ball, Velocity { angle: 0, speed: 4_000 });
    let snd = tick(&mut w, &ctx, None, None);
    assert_eq!(w.position(ctx.ball), Position { x: 400_000, y: 300_000 });
    assert_eq!(w.velocity(ctx.ball), Velocity { angle: 10_000, speed: 4_000 });
    assert!(snd.is_none());
}

#[test]
fn center_hit_on_paddle_one_mirrors_the_angle() {
    let (mut w, ctx) = fresh_game();
    w.set_position(ctx.p1_paddle, Position { x: 0, y: 250_000 });
    // flying straight left into the middle of the paddle
    w.set_position(ctx.ball, Position { x: 26_000, y: 290_000 });
    w.set_velocity(ctx.ball, Velocity { angle: 180_000, speed: 4_000 });
    let snd = tick(&mut w, &ctx, None, None);
    // -(180 deg) - 180 deg: the same direction as 180 - 180 = 0, a full
    // mirror about the vertical, with the speed kept
    assert_eq!(w.velocity(ctx.ball), Velocity { angle: -360_000, speed: 4_000 });
    // flush against the paddle's outer edge
    assert_eq!(w.position(ctx.ball), Position { x: 25_000, y: 290_000 });
    assert_eq!(snd, Some(SoundEvent::Beep));
}

#[test]
fn upper_corner_hit_on_paddle_one_gains_speed() {
    let (mut w, ctx) = fresh_game();
    w.set_position(ctx.p1_paddle, Position { x: 0, y: 250_000 });
    // the ball's top edge ends 10_000 above the paddle's: corner ratio 0.5
    w.set_position(ctx.ball, Position { x: 26_000, y: 240_000 });
    w.set_velocity(ctx.ball, Velocity { angle: 180_000, speed: 4_000 });
    let snd = tick(&mut w, &ctx, None, None);
    // 45 deg + 30 deg * 0.5 and speed + 3 * 0.5 (milli-units)
    assert_eq!(w.velocity(ctx.ball), Velocity { angle: 60_000, speed: 5_500 });
    assert_eq!(w.position(ctx.ball).x, 25_000);
    assert_eq!(snd, Some(SoundEvent::Beep));
}

#[test]
fn lower_corner_hit_on_paddle_one_bounces_downward() {
    let (mut w, ctx) = fresh_game();
    w.set_position(ctx.p1_paddle, Position { x: 0, y: 250_000 });
    // the ball's bottom edge ends 10_000 below the paddle's: ratio 0.5
    w.set_position(ctx.ball, Position { x: 26_000, y: 340_000 });
    w.set_velocity(ctx.ball, Velocity { angle: 180_000, speed: 4_000 });
    let snd = tick(&mut w, &ctx, None, None);
    // -45 deg + 30 deg * 0.5
    assert_eq!(w.velocity(ctx.ball), Velocity { angle: -30_000, speed: 5_500 });
    assert_eq!(w.position(ctx.ball).x, 25_000);
    assert_eq!(snd, Some(SoundEvent::Beep));
}

#[test]
fn upper_corner_hit_on_paddle_two_mirrors_the_base_angle() {
    let (mut w, ctx) = fresh_game();
    w.set_position(ctx.p2_paddle, Position { x: 775_000, y: 250_000 });
    // flying straight right into paddle 2's upper corner, ratio 0.5
    w.set_position(ctx.ball, Position { x: 752_000, y: 240_000 });
    w.set_velocity(ctx.ball, Velocity { angle: 0, speed: 4_000 });
    let snd = tick(&mut w, &ctx, None, None);
    // 135 deg - 30 deg * 0.5 and the same speed gain as paddle 1
    assert_eq!(w.velocity(ctx.ball), Velocity { angle: 120_000, speed: 5_500 });
    // flush against paddle 2's outer edge
    assert_eq!(w.position(ctx.ball).x, 755_000);
    assert_eq!(snd, Some(SoundEvent::Boop));
}

#[test]
fn every_tick_keeps_all_boxes_inside_the_field() {
    let (mut w, ctx) = fresh_game();
    let intents = [
        Some(Direction::Up),
        None,
        Some(Direction::Down),
        None,
        Some(Direction::Neutral),
    ];
    for round in 0..500 {
        let p1_intent = intents[round % intents.len()];
        let p2_intent = intents[(round * 3 + 1) % intents.len()];
        tick(&mut w, &ctx, p1_intent, p2_intent);
        for e in [ctx.p1_paddle, ctx.p2_paddle, ctx.ball] {
            let p = w.position(e);
            let b = w.bounds(e);
            assert!(0 <= p.x && p.x <= WIDTH - b.w);
            assert!(0 <= p.y && p.y <= HEIGHT - b.h);
        }
    }
}

#[test]
fn entity_identities_are_stable_across_ticks() {
    let (mut w, ctx) = fresh_game();
    let before = ctx;
    for _ in 0..100 {
        tick(&mut w, &ctx, Some(Direction::Up), Some(Direction::Down));
        assert_eq!(w.entity_count(), 3);
        assert_eq!(ctx, before);
        assert!(w.get_position(ctx.ball).is_some());
        assert!(w.get_velocity(ctx.ball).is_some());
        assert!(w.get_player(ctx.ball).is_none());
        assert!(w.get_player(ctx.p1_paddle).is_some());
        assert!(w.get_player(ctx.p2_paddle).is_some());
    }
}
