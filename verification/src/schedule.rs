//! The frame scheduler: one simulation tick.
//!
//! A tick stores the intents that arrived from outside, runs the control-intent
//! system, then runs the physics system — in that order, so that paddle
//! velocity reflects the newest input before it is integrated into
//! position — and hands back the collision sound to emit, if any. The
//! `Context` is only ever borrowed immutably, so the three distinguished
//! identities cannot change, and `frame_preserved` records that no tick
//! creates or destroys an entity or a component.

use crate::components::control::Direction;
use crate::components::phys::{bounds_wf, in_field, pos_ok, vel_ok};
use crate::context::Context;
use crate::sound::SoundEvent;
use crate::systems::control::{
    apply_intents, control_velocity, intents_applied, Player, PADDLE_MOVE_SPEED,
};
use crate::systems::physics::{
    ball_step, lemma_ball_step_budget, paddle_step_x, paddle_step_y, Physics,
};
use crate::world::{World, WorldView};
use vstd::prelude::*;

verus! {

/// What every tick leaves alone: how many entities exist, which components
/// each of them carries, and the values of the immutable tables (bounds and
/// shapes).
pub open spec fn frame_preserved(pre: WorldView, post: WorldView) -> bool {
    &&& post.positions.len() == pre.positions.len()
    &&& post.velocities.len() == pre.velocities.len()
    &&& post.players.len() == pre.players.len()
    &&& post.bounds == pre.bounds
    &&& post.shapes == pre.shapes
    &&& forall|i: int|
        0 <= i < pre.positions.len() ==> (post.positions[i] is Some <==> pre.positions[i]
            is Some)
    &&& forall|i: int|
        0 <= i < pre.velocities.len() ==> (post.velocities[i] is Some <==> pre.velocities[i]
            is Some)
    &&& forall|i: int|
        0 <= i < pre.players.len() ==> (post.players[i] is Some <==> pre.players[i] is Some)
}

/// One simulation tick: apply input, resolve control intent, run physics.
pub fn tick(
    world: &mut World,
    ctx: &Context,
    p1_intent: Option<Direction>,
    p2_intent: Option<Direction>,
) -> (snd: Option<SoundEvent>)
    requires
        old(world)@.wf(),
        ctx.wf(old(world)@),
        bounds_wf(old(world)@.bounds_of(ctx.p1_paddle)),
        bounds_wf(old(world)@.bounds_of(ctx.p2_paddle)),
        bounds_wf(old(world)@.bounds_of(ctx.ball)),
        pos_ok(old(world)@.position_of(ctx.p1_paddle)),
        pos_ok(old(world)@.position_of(ctx.p2_paddle)),
        pos_ok(old(world)@.position_of(ctx.ball)),
        vel_ok(old(world)@.velocity_of(ctx.p1_paddle)),
        vel_ok(old(world)@.velocity_of(ctx.p2_paddle)),
        vel_ok(old(world)@.velocity_of(ctx.ball)),
    ensures
        final(world)@.wf(),
        ctx.wf(final(world)@),
        frame_preserved(old(world)@, final(world)@),
        // the stored intents: each paddle keeps its direction unless a new
        // intent arrived this tick
        final(world)@.players == intents_applied(
            old(world)@.players,
            *ctx,
            p1_intent,
            p2_intent,
        ),
        // each paddle's velocity comes from its stored intent
        final(world)@.velocity_of(ctx.p1_paddle) == control_velocity(
            old(world)@.velocity_of(ctx.p1_paddle),
            final(world)@.player_of(ctx.p1_paddle).direction,
        ),
        final(world)@.velocity_of(ctx.p2_paddle) == control_velocity(
            old(world)@.velocity_of(ctx.p2_paddle),
            final(world)@.player_of(ctx.p2_paddle).direction,
        ),
        // hence a paddle's speed is the move speed exactly when its intent
        // is `Up` or `Down`, and zero when it is `Neutral`
        final(world)@.velocity_of(ctx.p1_paddle).speed == (
        if final(world)@.player_of(ctx.p1_paddle).direction is Neutral {
            0int
        } else {
            PADDLE_MOVE_SPEED as int
        }),
        final(world)@.velocity_of(ctx.p2_paddle).speed == (
        if final(world)@.player_of(ctx.p2_paddle).direction is Neutral {
            0int
        } else {
            PADDLE_MOVE_SPEED as int
        }),
        // paddle positions: integrated along the fresh velocity, clamped
        final(world)@.position_of(ctx.p1_paddle).x == paddle_step_x(
            old(world)@.position_of(ctx.p1_paddle),
            final(world)@.velocity_of(ctx.p1_paddle),
            old(world)@.bounds_of(ctx.p1_paddle),
        ),
        final(world)@.position_of(ctx.p1_paddle).y == paddle_step_y(
            old(world)@.position_of(ctx.p1_paddle),
            final(world)@.velocity_of(ctx.p1_paddle),
            old(world)@.bounds_of(ctx.p1_paddle),
        ),
        final(world)@.position_of(ctx.p2_paddle).x == paddle_step_x(
            old(world)@.position_of(ctx.p2_paddle),
            final(world)@.velocity_of(ctx.p2_paddle),
            old(world)@.bounds_of(ctx.p2_paddle),
        ),
        final(world)@.position_of(ctx.p2_paddle).y == paddle_step_y(
            old(world)@.position_of(ctx.p2_paddle),
            final(world)@.velocity_of(ctx.p2_paddle),
            old(world)@.bounds_of(ctx.p2_paddle),
        ),
        // the ball: `ball_step` against the moved paddles; control never
        // touches it since it has no control state
        ({
            let out = ball_step(
                old(world)@.position_of(ctx.ball),
                old(world)@.velocity_of(ctx.ball),
                old(world)@.bounds_of(ctx.ball),
                final(world)@.position_of(ctx.p1_paddle),
                old(world)@.bounds_of(ctx.p1_paddle),
                final(world)@.position_of(ctx.p2_paddle),
                old(world)@.bounds_of(ctx.p2_paddle),
            );
            &&& final(world)@.position_of(ctx.ball).x == out.x
            &&& final(world)@.position_of(ctx.ball).y == out.y
            &&& final(world)@.velocity_of(ctx.ball).angle == out.angle
            &&& final(world)@.velocity_of(ctx.ball).speed == out.speed
            &&& snd == out.sound
        }),
        // after the tick every distinguished entity lies in the playfield,
        // and any other entity that was inside stays inside
        in_field(final(world)@.position_of(ctx.p1_paddle), old(world)@.bounds_of(ctx.p1_paddle)),
        in_field(final(world)@.position_of(ctx.p2_paddle), old(world)@.bounds_of(ctx.p2_paddle)),
        in_field(final(world)@.position_of(ctx.ball), old(world)@.bounds_of(ctx.ball)),
        forall|i: int|
            0 <= i < old(world)@.num_entities() && old(world)@.positions[i] is Some
                && old(world)@.bounds[i] is Some && in_field(
                old(world)@.positions[i]->Some_0,
                old(world)@.bounds[i]->Some_0,
            ) ==> in_field(final(world)@.positions[i]->Some_0, old(world)@.bounds[i]->Some_0),
        // entities other than the three are untouched
        forall|i: int|
            0 <= i < old(world)@.num_entities() && i != ctx.p1_paddle.id && i != ctx.p2_paddle.id
                && i != ctx.ball.id ==> final(world)@.positions[i] == old(world)@.positions[i],
        // one tick's working-range budget for the ball, so that a caller can
        // run tick after tick while the budget lasts
        0 <= final(world)@.velocity_of(ctx.ball).speed <= old(world)@.velocity_of(ctx.ball).speed
            + 4000,
        ({
            let mag = if old(world)@.velocity_of(ctx.ball).angle >= 0 {
                old(world)@.velocity_of(ctx.ball).angle as int
            } else {
                -(old(world)@.velocity_of(ctx.ball).angle as int)
            };
            -mag - 180_000 <= final(world)@.velocity_of(ctx.ball).angle <= mag + 180_000
        }),
{
    apply_intents(world, ctx, p1_intent, p2_intent);
    let control = Player;
    control.run(world);
    let physics = Physics;
    let snd = physics.run(world, ctx);
    proof {
        lemma_ball_step_budget(
            old(world)@.position_of(ctx.ball),
            old(world)@.velocity_of(ctx.ball),
            old(world)@.bounds_of(ctx.ball),
            final(world)@.position_of(ctx.p1_paddle),
            old(world)@.bounds_of(ctx.p1_paddle),
            final(world)@.position_of(ctx.p2_paddle),
            old(world)@.bounds_of(ctx.p2_paddle),
        );
    }
    snd
}

/// Frame preservation is transitive.
pub proof fn lemma_frame_preserved_trans(a: WorldView, b: WorldView, c: WorldView)
    requires
        frame_preserved(a, b),
        frame_preserved(b, c),
    ensures
        frame_preserved(a, c),
{
}

/// Entity identity stability: across any chain of frames each of which
/// preserves the entity set — as every tick does — the entity set of the
/// last world is that of the first. The `Context` itself is only ever
/// borrowed immutably, so the three distinguished identities are fixed for
/// the game's lifetime.
pub proof fn lemma_identity_stability(views: Seq<WorldView>)
    requires
        views.len() >= 1,
        forall|i: int| 0 <= i < views.len() - 1 ==> #[trigger] frame_preserved(views[i], views[i + 1]),
    ensures
        frame_preserved(views[0], views[views.len() - 1]),
    decreases views.len(),
{
    if views.len() > 1 {
        let prefix = views.drop_last();
        assert forall|i: int|
            0 <= i < prefix.len() - 1 implies #[trigger] frame_preserved(
            prefix[i],
            prefix[i + 1],
        ) by {
            assert(prefix[i] == views[i]);
            assert(prefix[i + 1] == views[i + 1]);
            assert(frame_preserved(views[i], views[i + 1]));
        }
        lemma_identity_stability(prefix);
        assert(prefix[0] == views[0]);
        assert(prefix[prefix.len() - 1] == views[views.len() - 2]);
        let n = views.len() as int;
        assert(frame_preserved(views[n - 2], views[(n - 2) + 1]));
        assert(frame_preserved(views[views.len() - 2], views[views.len() - 1]));
        lemma_frame_preserved_trans(
            views[0],
            views[views.len() - 2],
            views[views.len() - 1],
        );
    }
}

} // verus!
