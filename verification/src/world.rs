//! The entity-component store: an arena of component tables indexed by
//! entity identity.
//!
//! Every component type has one table, a `Vec` with one slot per entity;
//! `None` means the entity does not carry that component. All component data
//! is read and written through the typed accessors here, so each method's
//! contract pins down exactly which table changes and how.

use crate::components::control::{Direction, Player};
use crate::components::phys::{Bounds, Position, Velocity};
use crate::components::visual::{Color, Rect, Shape, ShapeType};
use crate::context::Context;
use crate::screen::{CENTER_X, CENTER_Y, WIDTH};
use vstd::prelude::*;

verus! {

/// Paddle width in milli-pixels.
pub const PADDLE_W: i64 = 25_000;

/// Paddle height in milli-pixels.
pub const PADDLE_H: i64 = 100_000;

/// Ball bounding-box side in milli-pixels.
pub const BALL_SIZE: i64 = 20_000;

/// Speed of the ball when the game starts or resets, in milli-pixels per
/// tick.
pub const BALL_START_SPEED: i64 = 4_000;

/// An opaque entity identity: an index into the component tables.
#[derive(Clone, Copy, Debug, PartialEq, Eq, Structural)]
pub struct Entity {
    pub id: usize,
}

/// The mathematical contents of a `World`: one sequence per component table.
pub struct WorldView {
    pub positions: Seq<Option<Position>>,
    pub velocities: Seq<Option<Velocity>>,
    pub bounds: Seq<Option<Bounds>>,
    pub shapes: Seq<Option<Shape>>,
    pub players: Seq<Option<Player>>,
}

impl WorldView {
    /// All component tables have one slot per entity.
    pub open spec fn wf(self) -> bool {
        &&& self.velocities.len() == self.positions.len()
        &&& self.bounds.len() == self.positions.len()
        &&& self.shapes.len() == self.positions.len()
        &&& self.players.len() == self.positions.len()
    }

    /// How many entities have been created.
    pub open spec fn num_entities(self) -> nat {
        self.positions.len()
    }

    /// The entity has been created in this store.
    pub open spec fn valid(self, e: Entity) -> bool {
        e.id < self.positions.len()
    }

    pub open spec fn has_position(self, e: Entity) -> bool {
        self.valid(e) && self.positions[e.id as int] is Some
    }

    pub open spec fn position_of(self, e: Entity) -> Position {
        self.positions[e.id as int]->Some_0
    }

    pub open spec fn has_velocity(self, e: Entity) -> bool {
        e.id < self.velocities.len() && self.velocities[e.id as int] is Some
    }

    pub open spec fn velocity_of(self, e: Entity) -> Velocity {
        self.velocities[e.id as int]->Some_0
    }

    pub open spec fn has_bounds(self, e: Entity) -> bool {
        e.id < self.bounds.len() && self.bounds[e.id as int] is Some
    }

    pub open spec fn bounds_of(self, e: Entity) -> Bounds {
        self.bounds[e.id as int]->Some_0
    }

    pub open spec fn has_shape(self, e: Entity) -> bool {
        e.id < self.shapes.len() && self.shapes[e.id as int] is Some
    }

    pub open spec fn shape_of(self, e: Entity) -> Shape {
        self.shapes[e.id as int]->Some_0
    }

    pub open spec fn has_player(self, e: Entity) -> bool {
        e.id < self.players.len() && self.players[e.id as int] is Some
    }

    pub open spec fn player_of(self, e: Entity) -> Player {
        self.players[e.id as int]->Some_0
    }
}

/// The store itself. One `Vec` per component type, all of the same length.
pub struct World {
    positions: Vec<Option<Position>>,
    velocities: Vec<Option<Velocity>>,
    bounds: Vec<Option<Bounds>>,
    shapes: Vec<Option<Shape>>,
    players: Vec<Option<Player>>,
}

impl View for World {
    type V = WorldView;

    closed spec fn view(&self) -> WorldView {
        WorldView {
            positions: self.positions@,
            velocities: self.velocities@,
            bounds: self.bounds@,
            shapes: self.shapes@,
            players: self.players@,
        }
    }
}

impl World {
    /// An empty store with no entities.
    pub fn new() -> (w: World)
        ensures
            w@.wf(),
            w@.num_entities() == 0,
    {
        World {
            positions: Vec::new(),
            velocities: Vec::new(),
            bounds: Vec::new(),
            shapes: Vec::new(),
            players: Vec::new(),
        }
    }

    /// How many entities have been created.
    pub fn entity_count(&self) -> (n: usize)
        ensures
            n == self@.num_entities(),
    {
        self.positions.len()
    }

    /// Creates a fresh entity carrying no components yet.
    pub fn create_entity(&mut self) -> (e: Entity)
        requires
            old(self)@.wf(),
        ensures
            final(self)@.wf(),
            e.id == old(self)@.num_entities(),
            final(self)@.num_entities() == old(self)@.num_entities() + 1,
            final(self)@.positions == old(self)@.positions.push(None),
            final(self)@.velocities == old(self)@.velocities.push(None),
            final(self)@.bounds == old(self)@.bounds.push(None),
            final(self)@.shapes == old(self)@.shapes.push(None),
            final(self)@.players == old(self)@.players.push(None),
    {
        let id = self.positions.len();
        self.positions.push(None);
        self.velocities.push(None);
        self.bounds.push(None);
        self.shapes.push(None);
        self.players.push(None);
        Entity { id }
    }

    /// Attaches or overwrites the entity's `Position`.
    pub fn insert_position(&mut self, e: Entity, c: Position)
        requires
            old(self)@.wf(),
            old(self)@.valid(e),
        ensures
            final(self)@.wf(),
            final(self)@.positions == old(self)@.positions.update(e.id as int, Some(c)),
            final(self)@.velocities == old(self)@.velocities,
            final(self)@.bounds == old(self)@.bounds,
            final(self)@.shapes == old(self)@.shapes,
            final(self)@.players == old(self)@.players,
    {
        self.positions.set(e.id, Some(c));
    }

    /// Attaches or overwrites the entity's `Velocity`.
    pub fn insert_velocity(&mut self, e: Entity, c: Velocity)
        requires
            old(self)@.wf(),
            old(self)@.valid(e),
        ensures
            final(self)@.wf(),
            final(self)@.velocities == old(self)@.velocities.update(e.id as int, Some(c)),
            final(self)@.positions == old(self)@.positions,
            final(self)@.bounds == old(self)@.bounds,
            final(self)@.shapes == old(self)@.shapes,
            final(self)@.players == old(self)@.players,
    {
        self.velocities.set(e.id, Some(c));
    }

    /// Attaches the entity's `Bounds`; bounds are set once at creation.
    pub fn insert_bounds(&mut self, e: Entity, c: Bounds)
        requires
            old(self)@.wf(),
            old(self)@.valid(e),
        ensures
            final(self)@.wf(),
            final(self)@.bounds == old(self)@.bounds.update(e.id as int, Some(c)),
            final(self)@.positions == old(self)@.positions,
            final(self)@.velocities == old(self)@.velocities,
            final(self)@.shapes == old(self)@.shapes,
            final(self)@.players == old(self)@.players,
    {
        self.bounds.set(e.id, Some(c));
    }

    /// Attaches or overwrites the entity's `Shape`.
    pub fn insert_shape(&mut self, e: Entity, c: Shape)
        requires
            old(self)@.wf(),
            old(self)@.valid(e),
        ensures
            final(self)@.wf(),
            final(self)@.shapes == old(self)@.shapes.update(e.id as int, Some(c)),
            final(self)@.positions == old(self)@.positions,
            final(self)@.velocities == old(self)@.velocities,
            final(self)@.bounds == old(self)@.bounds,
            final(self)@.players == old(self)@.players,
    {
        self.shapes.set(e.id, Some(c));
    }

    /// Attaches or overwrites the entity's `Player` control state.
    pub fn insert_player(&mut self, e: Entity, c: Player)
        requires
            old(self)@.wf(),
            old(self)@.valid(e),
        ensures
            final(self)@.wf(),
            final(self)@.players == old(self)@.players.update(e.id as int, Some(c)),
            final(self)@.positions == old(self)@.positions,
            final(self)@.velocities == old(self)@.velocities,
            final(self)@.bounds == old(self)@.bounds,
            final(self)@.shapes == old(self)@.shapes,
    {
        self.players.set(e.id, Some(c));
    }

    /// Reads the entity's `Position` if it carries one.
    pub fn get_position(&self, e: Entity) -> (r: Option<Position>)
        ensures
            r is Some <==> self@.has_position(e),
            r is Some ==> r->Some_0 == self@.position_of(e),
    {
        if e.id < self.positions.len() {
            self.positions[e.id]
        } else {
            None
        }
    }

    /// Reads the entity's `Velocity` if it carries one.
    pub fn get_velocity(&self, e: Entity) -> (r: Option<Velocity>)
        ensures
            r is Some <==> self@.has_velocity(e),
            r is Some ==> r->Some_0 == self@.velocity_of(e),
    {
        if e.id < self.velocities.len() {
            self.velocities[e.id]
        } else {
            None
        }
    }

    /// Reads the entity's `Player` control state if it carries one.
    pub fn get_player(&self, e: Entity) -> (r: Option<Player>)
        ensures
            r is Some <==> self@.has_player(e),
            r is Some ==> r->Some_0 == self@.player_of(e),
    {
        if e.id < self.players.len() {
            self.players[e.id]
        } else {
            None
        }
    }

    /// Reads the entity's `Shape` if it carries one.
    pub fn get_shape(&self, e: Entity) -> (r: Option<Shape>)
        ensures
            r is Some <==> self@.has_shape(e),
            r is Some ==> r->Some_0 == self@.shape_of(e),
    {
        if e.id < self.shapes.len() {
            self.shapes[e.id]
        } else {
            None
        }
    }

    /// Direct access to a `Position` the caller knows is present.
    pub fn position(&self, e: Entity) -> (c: Position)
        requires
            self@.has_position(e),
        ensures
            c == self@.position_of(e),
    {
        self.positions[e.id].unwrap()
    }

    /// Direct access to a `Velocity` the caller knows is present.
    pub fn velocity(&self, e: Entity) -> (c: Velocity)
        requires
            self@.has_velocity(e),
        ensures
            c == self@.velocity_of(e),
    {
        self.velocities[e.id].unwrap()
    }

    /// Direct access to `Bounds` the caller knows are present.
    pub fn bounds(&self, e: Entity) -> (c: Bounds)
        requires
            self@.has_bounds(e),
        ensures
            c == self@.bounds_of(e),
    {
        self.bounds[e.id].unwrap()
    }

    /// Direct access to a `Player` the caller knows is present.
    pub fn player(&self, e: Entity) -> (c: Player)
        requires
            self@.has_player(e),
        ensures
            c == self@.player_of(e),
    {
        self.players[e.id].unwrap()
    }

    /// Overwrites a `Position` the caller knows is present.
    pub fn set_position(&mut self, e: Entity, c: Position)
        requires
            old(self)@.wf(),
            old(self)@.has_position(e),
        ensures
            final(self)@.wf(),
            final(self)@.positions == old(self)@.positions.update(e.id as int, Some(c)),
            final(self)@.velocities == old(self)@.velocities,
            final(self)@.bounds == old(self)@.bounds,
            final(self)@.shapes == old(self)@.shapes,
            final(self)@.players == old(self)@.players,
    {
        self.positions.set(e.id, Some(c));
    }

    /// Overwrites a `Velocity` the caller knows is present.
    pub fn set_velocity(&mut self, e: Entity, c: Velocity)
        requires
            old(self)@.wf(),
            old(self)@.has_velocity(e),
        ensures
            final(self)@.wf(),
            final(self)@.velocities == old(self)@.velocities.update(e.id as int, Some(c)),
            final(self)@.positions == old(self)@.positions,
            final(self)@.bounds == old(self)@.bounds,
            final(self)@.shapes == old(self)@.shapes,
            final(self)@.players == old(self)@.players,
    {
        self.velocities.set(e.id, Some(c));
    }

    /// Overwrites a `Player` control state the caller knows is present.
    pub fn set_player(&mut self, e: Entity, c: Player)
        requires
            old(self)@.wf(),
            old(self)@.has_player(e),
        ensures
            final(self)@.wf(),
            final(self)@.players == old(self)@.players.update(e.id as int, Some(c)),
            final(self)@.positions == old(self)@.positions,
            final(self)@.velocities == old(self)@.velocities,
            final(self)@.bounds == old(self)@.bounds,
            final(self)@.shapes == old(self)@.shapes,
    {
        self.players.set(e.id, Some(c));
    }
}

/// Creates the game's three entities — paddle 1 at the left edge, paddle 2
/// at the right edge, the ball at the centre — with their starting
/// components, and returns the `Context` naming them. The positions lie in
/// the playfield, the bounding boxes fit it, and the velocities are within
/// the fixed-point working range, so a tick can run at once.
pub fn create_initial_entities(world: &mut World) -> (ctx: Context)
    requires
        old(world)@.wf(),
    ensures
        final(world)@.wf(),
        ctx.wf(final(world)@),
        final(world)@.num_entities() == old(world)@.num_entities() + 3,
        ctx.p1_paddle.id == old(world)@.num_entities(),
        ctx.p2_paddle.id == old(world)@.num_entities() + 1,
        ctx.ball.id == old(world)@.num_entities() + 2,
        final(world)@.position_of(ctx.p1_paddle) == (Position { x: 0, y: 0 }),
        final(world)@.velocity_of(ctx.p1_paddle) == (Velocity { angle: 270_000, speed: 0 }),
        final(world)@.bounds_of(ctx.p1_paddle) == (Bounds { w: PADDLE_W, h: PADDLE_H }),
        final(world)@.player_of(ctx.p1_paddle) == (Player { direction: Direction::Neutral }),
        final(world)@.position_of(ctx.p2_paddle) == (Position {
            x: (WIDTH - PADDLE_W) as i64,
            y: 0,
        }),
        final(world)@.velocity_of(ctx.p2_paddle) == (Velocity { angle: 270_000, speed: 0 }),
        final(world)@.bounds_of(ctx.p2_paddle) == (Bounds { w: PADDLE_W, h: PADDLE_H }),
        final(world)@.player_of(ctx.p2_paddle) == (Player { direction: Direction::Neutral }),
        final(world)@.position_of(ctx.ball) == (Position { x: CENTER_X, y: CENTER_Y }),
        final(world)@.velocity_of(ctx.ball) == (Velocity {
            angle: 45_000,
            speed: BALL_START_SPEED,
        }),
        final(world)@.bounds_of(ctx.ball) == (Bounds { w: BALL_SIZE, h: BALL_SIZE }),
        final(world)@.has_shape(ctx.p1_paddle),
        final(world)@.has_shape(ctx.p2_paddle),
        final(world)@.has_shape(ctx.ball),
        crate::components::phys::bounds_wf(final(world)@.bounds_of(ctx.p1_paddle)),
        crate::components::phys::bounds_wf(final(world)@.bounds_of(ctx.p2_paddle)),
        crate::components::phys::bounds_wf(final(world)@.bounds_of(ctx.ball)),
        crate::components::phys::in_field(
            final(world)@.position_of(ctx.p1_paddle),
            final(world)@.bounds_of(ctx.p1_paddle),
        ),
        crate::components::phys::in_field(
            final(world)@.position_of(ctx.p2_paddle),
            final(world)@.bounds_of(ctx.p2_paddle),
        ),
        crate::components::phys::in_field(
            final(world)@.position_of(ctx.ball),
            final(world)@.bounds_of(ctx.ball),
        ),
        crate::components::phys::vel_ok(final(world)@.velocity_of(ctx.p1_paddle)),
        crate::components::phys::vel_ok(final(world)@.velocity_of(ctx.p2_paddle)),
        crate::components::phys::vel_ok(final(world)@.velocity_of(ctx.ball)),
        forall|i: int|
            0 <= i < old(world)@.num_entities() ==> final(world)@.positions[i]
                == old(world)@.positions[i] && final(world)@.velocities[i]
                == old(world)@.velocities[i] && final(world)@.bounds[i] == old(world)@.bounds[i]
                && final(world)@.shapes[i] == old(world)@.shapes[i] && final(world)@.players[i]
                == old(world)@.players[i],
{
    let white = Color { r: 255, g: 255, b: 255, a: 255 };

    let p1 = world.create_entity();
    world.insert_player(p1, Player { direction: Direction::Neutral });
    world.insert_velocity(p1, Velocity { angle: 270_000, speed: 0 });
    world.insert_position(p1, Position { x: 0, y: 0 });
    world.insert_bounds(p1, Bounds { w: PADDLE_W, h: PADDLE_H });
    world.insert_shape(
        p1,
        Shape {
            shape: ShapeType::Rectangle(Rect { x: 0, y: 0, w: PADDLE_W, h: PADDLE_H }),
            color: white,
        },
    );

    let p2 = world.create_entity();
    world.insert_player(p2, Player { direction: Direction::Neutral });
    world.insert_velocity(p2, Velocity { angle: 270_000, speed: 0 });
    world.insert_position(p2, Position { x: WIDTH - PADDLE_W, y: 0 });
    world.insert_bounds(p2, Bounds { w: PADDLE_W, h: PADDLE_H });
    world.insert_shape(
        p2,
        Shape {
            shape: ShapeType::Rectangle(Rect { x: 0, y: 0, w: PADDLE_W, h: PADDLE_H }),
            color: white,
        },
    );

    let ball = world.create_entity();
    world.insert_velocity(ball, Velocity { angle: 45_000, speed: BALL_START_SPEED });
    world.insert_position(ball, Position { x: CENTER_X, y: CENTER_Y });
    world.insert_bounds(ball, Bounds { w: BALL_SIZE, h: BALL_SIZE });
    world.insert_shape(
        ball,
        Shape {
            shape: ShapeType::Circle(Rect { x: 0, y: 0, w: BALL_SIZE, h: BALL_SIZE }),
            color: white,
        },
    );

    Context { p1_paddle: p1, p2_paddle: p2, ball }
}

} // verus!
