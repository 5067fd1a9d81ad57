//! The `Context`: which entities play which role.
//!
//! Routing information, not game state: it names the three distinguished
//! entities once at initialization and is passed by shared reference to
//! every system invocation, so the identities can never change afterwards.

use crate::world::{Entity, WorldView};
use vstd::prelude::*;

verus! {

/// The three distinguished entities of the game.
#[derive(Clone, Copy, Debug, PartialEq, Eq, Structural)]
pub struct Context {
    pub p1_paddle: Entity,
    pub p2_paddle: Entity,
    pub ball: Entity,
}

impl Context {
    /// The three roles name three different entities.
    pub open spec fn distinct(self) -> bool {
        &&& self.p1_paddle.id != self.p2_paddle.id
        &&& self.p1_paddle.id != self.ball.id
        &&& self.p2_paddle.id != self.ball.id
    }

    /// The context routes into a store where both paddles carry position,
    /// velocity, bounds and control state, and the ball carries position,
    /// velocity and bounds but no control state.
    pub open spec fn wf(self, w: WorldView) -> bool {
        &&& self.distinct()
        &&& w.has_position(self.p1_paddle)
        &&& w.has_velocity(self.p1_paddle)
        &&& w.has_bounds(self.p1_paddle)
        &&& w.has_player(self.p1_paddle)
        &&& w.has_position(self.p2_paddle)
        &&& w.has_velocity(self.p2_paddle)
        &&& w.has_bounds(self.p2_paddle)
        &&& w.has_player(self.p2_paddle)
        &&& w.has_position(self.ball)
        &&& w.has_velocity(self.ball)
        &&& w.has_bounds(self.ball)
        &&& !w.has_player(self.ball)
    }
}

} // verus!
