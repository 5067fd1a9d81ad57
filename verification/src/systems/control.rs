//! The control-intent system.
//!
//! Once per tick it stores any newly arrived directional intent on the
//! paddles, then turns every entity's stored intent into a velocity: `Up`
//! and `Down` point the entity straight up or down at `PADDLE_MOVE_SPEED`,
//! `Neutral` stops it while leaving the angle alone (harmless, since a
//! moving paddle is always in `Up` or `Down`).

use crate::components::control::Direction;
use crate::components::phys::Velocity;
use crate::context::Context;
use crate::world::{Entity, World};
use vstd::prelude::*;

verus! {

/// How fast a paddle moves while its intent is `Up` or `Down`, in
/// milli-pixels per tick.
pub const PADDLE_MOVE_SPEED: i64 = 2_000;

/// The velocity an entity with intent `d` gets: straight up or down at
/// paddle speed, or stopped with its angle kept.
pub open spec fn control_velocity(v: Velocity, d: Direction) -> Velocity {
    match d {
        Direction::Up => Velocity { angle: 90_000, speed: PADDLE_MOVE_SPEED },
        Direction::Down => Velocity { angle: 270_000, speed: PADDLE_MOVE_SPEED },
        Direction::Neutral => Velocity { angle: v.angle, speed: 0 },
    }
}

/// One slot of the velocity table after the control system ran: entities
/// holding both a control state and a velocity get the control velocity,
/// all others keep what they had.
pub open spec fn control_slot(
    v: Option<Velocity>,
    p: Option<crate::components::control::Player>,
) -> Option<Velocity> {
    match (v, p) {
        (Some(vel), Some(player)) => Some(control_velocity(vel, player.direction)),
        _ => v,
    }
}

/// The player-control table after the tick's intents were stored: each
/// paddle that received an intent holds it, everything else is untouched.
pub open spec fn intents_applied(
    players: Seq<Option<crate::components::control::Player>>,
    ctx: Context,
    p1: Option<Direction>,
    p2: Option<Direction>,
) -> Seq<Option<crate::components::control::Player>> {
    let s1 = if p1 is Some {
        players.update(
            ctx.p1_paddle.id as int,
            Some(crate::components::control::Player { direction: p1->Some_0 }),
        )
    } else {
        players
    };
    if p2 is Some {
        s1.update(
            ctx.p2_paddle.id as int,
            Some(crate::components::control::Player { direction: p2->Some_0 }),
        )
    } else {
        s1
    }
}

/// Stores the tick's new intents, if any arrived, on the two paddles.
/// A paddle without a new intent keeps its previous direction.
pub fn apply_intents(
    world: &mut World,
    ctx: &Context,
    p1: Option<Direction>,
    p2: Option<Direction>,
)
    requires
        old(world)@.wf(),
        old(world)@.has_player(ctx.p1_paddle),
        old(world)@.has_player(ctx.p2_paddle),
    ensures
        final(world)@.wf(),
        final(world)@.players == intents_applied(old(world)@.players, *ctx, p1, p2),
        final(world)@.positions == old(world)@.positions,
        final(world)@.velocities == old(world)@.velocities,
        final(world)@.bounds == old(world)@.bounds,
        final(world)@.shapes == old(world)@.shapes,
{
    match p1 {
        Some(d) => {
            world.set_player(
                ctx.p1_paddle,
                crate::components::control::Player { direction: d },
            );
        },
        None => {},
    }
    match p2 {
        Some(d) => {
            world.set_player(
                ctx.p2_paddle,
                crate::components::control::Player { direction: d },
            );
        },
        None => {},
    }
}

/// The control-intent system.
pub struct Player;

impl Player {
    /// The system's name, for schedulers and logs.
    pub fn name(&self) -> (r: &'static str)
        ensures
            r@ == "ControlPlayer"@,
    {
        proof {
            reveal_strlit("ControlPlayer");
        }
        "ControlPlayer"
    }

    /// Turns every entity's stored intent into a velocity. Entities without
    /// both a control state and a velocity are untouched, as is every other
    /// component table.
    pub fn run(&self, world: &mut World)
        requires
            old(world)@.wf(),
        ensures
            final(world)@.wf(),
            final(world)@.num_entities() == old(world)@.num_entities(),
            final(world)@.positions == old(world)@.positions,
            final(world)@.bounds == old(world)@.bounds,
            final(world)@.shapes == old(world)@.shapes,
            final(world)@.players == old(world)@.players,
            final(world)@.velocities.len() == old(world)@.velocities.len(),
            forall|i: int|
                0 <= i < old(world)@.velocities.len() ==> final(world)@.velocities[i]
                    == control_slot(old(world)@.velocities[i], old(world)@.players[i]),
    {
        let n = world.entity_count();
        let mut i: usize = 0;
        while i < n
            invariant
                world@.wf(),
                i <= n,
                n == old(world)@.num_entities(),
                world@.num_entities() == old(world)@.num_entities(),
                world@.positions == old(world)@.positions,
                world@.bounds == old(world)@.bounds,
                world@.shapes == old(world)@.shapes,
                world@.players == old(world)@.players,
                world@.velocities.len() == old(world)@.velocities.len(),
                forall|j: int|
                    0 <= j < i ==> world@.velocities[j] == control_slot(
                        old(world)@.velocities[j],
                        old(world)@.players[j],
                    ),
                forall|j: int|
                    i <= j < n ==> world@.velocities[j] == old(world)@.velocities[j],
            decreases n - i,
        {
            let e = Entity { id: i };
            match world.get_player(e) {
                Some(p) => {
                    match world.get_velocity(e) {
                        Some(vel) => {
                            let nv = match p.direction {
                                Direction::Up => (Velocity {
                                    angle: 90_000,
                                    speed: PADDLE_MOVE_SPEED,
                                }),
                                Direction::Down => (Velocity {
                                    angle: 270_000,
                                    speed: PADDLE_MOVE_SPEED,
                                }),
                                Direction::Neutral => (Velocity { angle: vel.angle, speed: 0 }),
                            };
                            world.set_velocity(e, nv);
                        },
                        None => {},
                    }
                },
                None => {},
            }
            i = i + 1;
        }
    }
}

} // verus!
