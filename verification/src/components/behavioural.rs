//! Behavioural tag components naming an entity's role.

use vstd::prelude::*;

verus! {

/// Tags an entity as a paddle.
#[derive(Clone, Copy, Debug, Default, PartialEq, Eq, Structural)]
pub struct Paddle;

/// Tags an entity as the ball.
#[derive(Clone, Copy, Debug, Default, PartialEq, Eq, Structural)]
pub struct Ball;

} // verus!
