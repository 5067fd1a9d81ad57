//! Simulation core of a two-paddle ball game.
//!
//! The library holds the game's entity-component store, its component data
//! types, and the two per-tick systems (control intent and physics). All
//! coordinates, sizes and speeds are fixed-point integers measured in
//! milli-pixels (one thousandth of a pixel); angles are measured in
//! millidegrees. The windowing, rendering and audio layers live outside this
//! crate and talk to it through plain values.

pub mod components;
pub mod context;
pub mod schedule;
pub mod screen;
pub mod sound;
pub mod systems;
pub mod trig;
pub mod world;
