use pawng::components::behavioural::{Ball, Paddle};
use pawng::components::control::{Direction, Player};
use pawng::components::phys::{Bounds, Position, Velocity};
use pawng::components::visual::{Color, Rect, Shape, ShapeType};
use pawng::world::{create_initial_entities, World, BALL_SIZE, BALL_START_SPEED, PADDLE_H,
    PADDLE_W};

#[test]
fn empty_world_has_no_entities() {
    let w = World::new();
    assert_eq!(w.entity_count(), 0);
}

#[test]
fn create_entity_assigns_consecutive_ids() {
    let mut w = World::new();
    let a = w.create_entity();
    let b = w.create_entity();
    assert_eq!(a.id, 0);
    assert_eq!(b.id, 1);
    assert_eq!(w.entity_count(), 2);
}

#[test]
fn fresh_entity_carries_no_components() {
    let mut w = World::new();
    let e = w.create_entity();
    assert!(w.get_position(e).is_none());
    assert!(w.get_velocity(e).is_none());
    assert!(w.get_player(e).is_none());
    assert!(w.get_shape(e).is_none());
}

#[test]
fn insert_then_read_roundtrip() {
    let mut w = World::new();
    let e = w.create_entity();
    w.insert_position(e, Position { x: 7, y: -3 });
    w.insert_velocity(e, Velocity { angle: 45_000, speed: 10 });
    w.insert_bounds(e, Bounds { w: 100, h: 200 });
    w.insert_player(e, Player { direction: Direction::Up });
    assert_eq!(w.position(e), Position { x: 7, y: -3 });
    assert_eq!(w.velocity(e), Velocity { angle: 45_000, speed: 10 });
    assert_eq!(w.bounds(e), Bounds { w: 100, h: 200 });
    assert!(matches!(w.player(e).direction, Direction::Up));
}

#[test]
fn set_overwrites_only_the_named_component() {
    let mut w = World::new();
    let e = w.create_entity();
    w.insert_position(e, Position { x: 1, y: 2 });
    w.insert_velocity(e, Velocity { angle: 0, speed: 5 });
    w.set_position(e, Position { x: 9, y: 9 });
    assert_eq!(w.position(e), Position { x: 9, y: 9 });
    assert_eq!(w.velocity(e), Velocity { angle: 0, speed: 5 });
}

#[test]
fn components_of_other_entities_are_untouched() {
    let mut w = World::new();
    let a = w.create_entity();
    let b = w.create_entity();
    w.insert_position(a, Position { x: 1, y: 1 });
    w.insert_position(b, Position { x: 2, y: 2 });
    w.set_position(b, Position { x: 3, y: 3 });
    assert_eq!(w.position(a), Position { x: 1, y: 1 });
}

#[test]
fn initial_entities_match_the_starting_lineup() {
    let mut w = World::new();
    let ctx = create_initial_entities(&mut w);
    assert_eq!(w.entity_count(), 3);
    assert_eq!(ctx.p1_paddle.id, 0);
    assert_eq!(ctx.p2_paddle.id, 1);
    assert_eq!(ctx.ball.id, 2);

    assert_eq!(w.position(ctx.p1_paddle), Position { x: 0, y: 0 });
    assert_eq!(w.velocity(ctx.p1_paddle), Velocity { angle: 270_000, speed: 0 });
    assert_eq!(w.bounds(ctx.p1_paddle), Bounds { w: PADDLE_W, h: PADDLE_H });
    assert!(matches!(w.player(ctx.p1_paddle).direction, Direction::Neutral));

    assert_eq!(w.position(ctx.p2_paddle), Position { x: 775_000, y: 0 });
    assert_eq!(w.velocity(ctx.p2_paddle), Velocity { angle: 270_000, speed: 0 });
    assert_eq!(w.bounds(ctx.p2_paddle), Bounds { w: PADDLE_W, h: PADDLE_H });
    assert!(matches!(w.player(ctx.p2_paddle).direction, Direction::Neutral));

    assert_eq!(w.position(ctx.ball), Position { x: 400_000, y: 300_000 });
    assert_eq!(w.velocity(ctx.ball), Velocity { angle: 45_000, speed: BALL_START_SPEED });
    assert_eq!(w.bounds(ctx.ball), Bounds { w: BALL_SIZE, h: BALL_SIZE });
    assert!(w.get_player(ctx.ball).is_none());
}

#[test]
fn initial_entities_have_shapes_to_draw() {
    let mut w = World::new();
    let ctx = create_initial_entities(&mut w);
    let white = Color { r: 255, g: 255, b: 255, a: 255 };
    let paddle_shape = w.get_shape(ctx.p1_paddle).unwrap();
    assert_eq!(paddle_shape.color, white);
    assert!(matches!(
        paddle_shape.shape,
        ShapeType::Rectangle(Rect { x: 0, y: 0, w: PADDLE_W, h: PADDLE_H })
    ));
    let ball_shape = w.get_shape(ctx.ball).unwrap();
    assert!(matches!(
        ball_shape.shape,
        ShapeType::Circle(Rect { x: 0, y: 0, w: BALL_SIZE, h: BALL_SIZE })
    ));
}

#[test]
fn tag_components_exist() {
    // the behavioural tags are plain markers
    let _paddle: Paddle = Paddle;
    let _ball: Ball = Ball;
}
