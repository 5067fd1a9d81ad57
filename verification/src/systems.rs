//! The two per-tick systems: control intent and physics.

pub mod control;
pub mod physics;
