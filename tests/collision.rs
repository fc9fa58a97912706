use coretilus::animation::Animation;
use coretilus::collision::{rects_overlap, Collider, Collision, CollisionError, ScreenEdge};
use coretilus::coord::{Coord, Position, XTermPosition, YTermPosition};
use coretilus::engine::Size;
use coretilus::frame::Frame;
use coretilus::scene::Scene;
use coretilus::sprite::Sprite;
use coretilus::trajectory::Trajectory;

fn still_sprite(text: &str, x: i32, y: i32, terminal_size: Size) -> Sprite {
    let mut s = Sprite::new(1, String::from("test"), 10);
    s.set_animation(Animation::new_static(Frame::new(text)));
    s.set_trajectory(Trajectory::new_stationary(
        Position::new(XTermPosition::Coord(x), YTermPosition::Coord(y)),
        300,
    ));
    s.compute_path(terminal_size);
    s
}

#[test]
fn test_collision_not_detected() {
    let terminal_size = Size::new(30, 30);
    let mut scene = Scene::new(terminal_size);
    let a = scene.add_sprite(still_sprite("ascii\nggg", 30, 30, terminal_size));
    let mut sprite_b = Sprite::new(1, String::from("test"), 10);
    sprite_b.set_animation(Animation::new_static(Frame::new("ascii")));
    let b = scene.add_sprite(sprite_b);
    scene.add_collision(Collision::new_sprite(a, b, 0));
    let fired = scene.process_collisions().unwrap();
    assert!(fired.is_empty());
}

#[test]
fn test_collision_detected() {
    let terminal_size = Size::new(30, 30);
    let mut scene = Scene::new(terminal_size);
    let a = scene.add_sprite(still_sprite("ascii\nline2", 0, 0, terminal_size));
    let mut sprite_b = Sprite::new(1, String::from("test"), 10);
    sprite_b.set_animation(Animation::new_static(Frame::new("ascii")));
    let b = scene.add_sprite(sprite_b);
    scene.add_collision(Collision::new_sprite(a, b, 0));

    let fired = scene.process_collisions().unwrap();
    assert_eq!(fired, vec![(0, 1)]);

    scene.sprites[a].collider().set_active(false);
    assert_eq!(scene.collisions[0].counter(), 1);
    assert!(!scene.sprites[a].collider().is_active());
    let fired = scene.process_collisions().unwrap();
    assert!(fired.is_empty());
    scene.sprites[a].collider().set_active(true);
    assert!(scene.sprites[a].collider().is_active());
}

#[test]
#[should_panic(expected = "Same sprite twice used in the collision handler")]
fn test_collision_same_sprite_panics() {
    let mut scene = Scene::new(Size::new(30, 30));
    let mut sprite_a = Sprite::new(1, String::from("test"), 10);
    sprite_a.set_animation(Animation::new_static(Frame::new("ascii\nline2")));
    let a = scene.add_sprite(sprite_a);
    scene.add_collision(Collision::new_sprite(a, a, 0));
    if let Err(e) = scene.process_collisions() {
        panic!("{}", e.message());
    }
}

#[test]
fn collision_with_unknown_sprite_is_an_error() {
    let mut scene = Scene::new(Size::new(30, 30));
    let mut sprite_a = Sprite::new(1, String::from("test"), 10);
    sprite_a.set_animation(Animation::new_static(Frame::new("x")));
    let a = scene.add_sprite(sprite_a);
    scene.add_collision(Collision::new_sprite(a, 4, 0));
    assert_eq!(scene.check_collision(0), Err(CollisionError::UnknownSprite));
    scene.add_collision(Collision::new_edge(7, ScreenEdge::Left, 0));
    assert_eq!(scene.check_collision(1), Err(CollisionError::UnknownSprite));
    assert_eq!(scene.collisions[0].counter(), 0);
}

#[test]
fn fired_collisions_listed_in_order() {
    let terminal_size = Size::new(30, 30);
    let mut scene = Scene::new(terminal_size);
    let a = scene.add_sprite(still_sprite("ab", 0, 0, terminal_size));
    let b = scene.add_sprite(still_sprite("cd", 1, 0, terminal_size));
    let c = scene.add_sprite(still_sprite("ef", 10, 10, terminal_size));
    scene.add_collision(Collision::new_sprite(a, b, 0));
    scene.add_collision(Collision::new_sprite(a, c, 1));
    scene.add_collision(Collision::new_edge(a, ScreenEdge::Left, 2));
    assert_eq!(scene.process_collisions().unwrap(), vec![(0, 1), (2, 1)]);
    assert_eq!(scene.process_collisions().unwrap(), vec![(0, 2), (2, 2)]);
    assert_eq!(scene.collisions[1].counter(), 0);
}

#[test]
fn shared_vertical_edge_does_not_collide() {
    let a = Collider::new(Coord::new(0, 0), Size::new(2, 2), true);
    let b = Collider::new(Coord::new(0, 0), Size::new(2, 2), true);
    let origin = Coord::new(0, 0);
    assert!(!rects_overlap(a, origin, b, Coord::new(2, 0)));
    assert!(rects_overlap(a, origin, b, Coord::new(1, 0)));
    // the left side of `a` on the right side of `b` counts
    assert!(rects_overlap(a, Coord::new(2, 0), b, origin));
    // sides that only touch along y never count
    assert!(!rects_overlap(a, origin, b, Coord::new(0, 2)));
    assert!(!rects_overlap(a, Coord::new(0, 2), b, origin));
}

#[test]
fn collider_corners() {
    let c = Collider::new(Coord::new(1, 2), Size::new(3, 4), true);
    assert_eq!(c.min(Coord::new(10, 10)), (11, 12));
    assert_eq!(c.max(Coord::new(10, 10)), (14, 16));
    assert!(!c.is_null());
    assert!(Collider::new(Coord::new(0, 0), Size::new(0, 0), false).is_null());
    assert_eq!(c.size(), Size::new(3, 4));
}

#[test]
fn edge_collision_counts_until_deactivated() {
    let terminal_size = Size::new(30, 30);
    let mut scene = Scene::new(terminal_size);
    let a = scene.add_sprite(still_sprite("ascii", 0, 0, terminal_size));
    scene.add_collision(Collision::new_edge(a, ScreenEdge::Left, 3));
    assert_eq!(scene.check_collision(0), Ok(true));
    assert_eq!(scene.collisions[0].counter(), 1);
    assert_eq!(scene.collisions[0].action(), 3);
    scene.sprites[a].collider().set_active(false);
    assert_eq!(scene.check_collision(0), Ok(false));
    assert_eq!(scene.collisions[0].counter(), 1);
}

#[test]
fn edge_collisions_on_each_side() {
    let terminal_size = Size::new(30, 30);
    let mut scene = Scene::new(terminal_size);
    let a = scene.add_sprite(still_sprite("ab\ncd", 28, 28, terminal_size));
    scene.add_collision(Collision::new_edge(a, ScreenEdge::Right, 0));
    scene.add_collision(Collision::new_edge(a, ScreenEdge::Top, 0));
    scene.add_collision(Collision::new_edge(a, ScreenEdge::Left, 0));
    scene.add_collision(Collision::new_edge(a, ScreenEdge::Bottom, 0));
    let fired = scene.process_collisions().unwrap();
    assert_eq!(fired, vec![(0, 1), (1, 1)]);
}
