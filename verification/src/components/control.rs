//! Control components: the last-known directional intent for an entity.

use vstd::prelude::*;

verus! {

/// Directional intent for a paddle: level-triggered state, kept until the
/// next intent arrives.
#[derive(Clone, Copy, Debug, PartialEq, Eq, Structural)]
pub enum Direction {
    Up,
    Down,
    Neutral,
}

/// Marks an entity as player-controlled and stores its latest intent.
#[derive(Clone, Copy, Debug, PartialEq, Eq, Structural)]
pub struct Player {
    pub direction: Direction,
}

} // verus!
