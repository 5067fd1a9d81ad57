//! Visual components, read only by the rendering collaborator outside this
//! crate; the simulation never consumes them.

use vstd::prelude::*;

verus! {

/// A rectangle in milli-pixels, relative to the owning entity's position.
#[derive(Clone, Copy, Debug, PartialEq, Eq, Structural)]
pub struct Rect {
    pub x: i64,
    pub y: i64,
    pub w: i64,
    pub h: i64,
}

/// An RGBA colour with byte channels.
#[derive(Clone, Copy, Debug, PartialEq, Eq, Structural)]
pub struct Color {
    pub r: u8,
    pub g: u8,
    pub b: u8,
    pub a: u8,
}

/// Geometry to draw for an entity: a circle inscribed in the given rectangle,
/// or the rectangle itself.
#[derive(Clone, Copy, Debug, PartialEq, Eq, Structural)]
pub enum ShapeType {
    Circle(Rect),
    Rectangle(Rect),
}

/// What the entity looks like.
#[derive(Clone, Copy, Debug, PartialEq, Eq, Structural)]
pub struct Shape {
    pub shape: ShapeType,
    pub color: Color,
}

} // verus!
