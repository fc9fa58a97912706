use coretilus::animation::Animation;
use coretilus::coord::{Coord, Position, XTermPosition, YTermPosition};
use coretilus::engine::Size;
use coretilus::frame::Frame;
use coretilus::scene::Scene;
use coretilus::sprite::Sprite;
use coretilus::trajectory::{
    add_speed, arc_path, bresenham_path, bresenham_path_3d, stationary_path, Direction, Trajectory,
};
use coretilus::coords::Coords;

#[test]
fn test_bresenham_path_horizontal() {
    let start = Coord::new(0, 0);
    let end = Coord::new(5, 0);
    let path = bresenham_path(start, end);
    assert_eq!(path.len(), 6);
    assert!(path
        .windows(2)
        .all(|w| w[1].x() == w[0].x() + 1 && w[1].y() == w[0].y()));
}

#[test]
fn test_bresenham_path_vertical() {
    let start = Coord::new(0, 0);
    let end = Coord::new(0, 5);
    let path = bresenham_path(start, end);
    assert_eq!(path.len(), 6);
    assert!(path
        .windows(2)
        .all(|w| w[1].y() == w[0].y() + 1 && w[1].x() == w[0].x()));
}

#[test]
fn test_bresenham_path_diagonal() {
    let start = Coord::new(0, 0);
    let end = Coord::new(5, 5);
    let path = bresenham_path(start, end);
    assert_eq!(path.len(), 6);
    assert!(path
        .windows(2)
        .all(|w| w[1].x() == w[0].x() + 1 || w[1].y() == w[0].y() + 1));
}

#[test]
fn test_stationary_path() {
    let position = Coord::new(10, 20);
    let ttl = 5;
    let path = stationary_path(position, ttl);
    assert_eq!(path.len(), 5);
    assert!(path.iter().all(|coord| coord.x() == position.x()));
    assert!(path.iter().all(|coord| coord.y() == position.y()));
}

#[test]
fn test_trajectory_new_linear() {
    let start = Position::new(XTermPosition::Middle, YTermPosition::Middle);
    let end = Position::new(XTermPosition::RightOut, YTermPosition::BottomOut);
    let trajectory = Trajectory::new_linear(start, end, 1);
    assert_eq!(trajectory.direction(), Direction::Linear);
    assert_eq!(trajectory.speed(), 1);
}

#[test]
fn test_trajectory_new_stationary() {
    let position = Position::new(XTermPosition::Middle, YTermPosition::Middle);
    let trajectory = Trajectory::new_stationary(position, 10);
    assert_eq!(trajectory.direction(), Direction::Stationary);
    assert_eq!(trajectory.ttl, 10);
}

#[test]
fn test_trajectory_new_relative() {
    let terminal_size = Size::new(20, 20);
    let start = Position::new(XTermPosition::Coord(0), YTermPosition::Coord(0));
    let end = Position::new(XTermPosition::Coord(10), YTermPosition::Coord(10));
    let mut scene = Scene::new(terminal_size);

    let trajectory = Trajectory::new_linear(start, end, 1);
    let mut sprite = Sprite::new(1, String::from("test"), 10);
    sprite.set_trajectory(trajectory);
    let anim = Animation::new_movement_based(
        vec![Frame::new("FAKEFRAME10"), Frame::new("FAKEFRAME11")],
        0,
        true,
    );
    sprite.set_animation(anim);
    let parent = scene.add_sprite(sprite);

    let trajectory_relative = Trajectory::new_relative(parent, Coord::new(4, 2));
    let mut sprite_rel = Sprite::new(1, String::from("test"), 10);
    sprite_rel.set_trajectory(trajectory_relative);
    let anim_rel = Animation::new_movement_based(
        vec![Frame::new("FAKEFRAME20"), Frame::new("FAKEFRAME21")],
        0,
        true,
    );
    sprite_rel.set_animation(anim_rel);
    let child = scene.add_sprite(sprite_rel);

    scene.compute_path_of(parent, 2).unwrap();
    let coord_4 = scene.coordinate_of(parent);
    scene.compute_path_of(child, 2).unwrap();
    let rel_coord_4 = scene.coordinate_of(child);
    assert_eq!(coord_4.x() + 4, rel_coord_4.x());
    assert_eq!(coord_4.y() + 2, rel_coord_4.y());
}

#[test]
fn linear_path_length_matches_extent_and_speed() {
    let path = bresenham_path(Coord::new(2, 3), Coord::new(-5, 7));
    assert_eq!(path.len(), 8);
    assert_eq!(path[0], Coord::new(2, 3));
    assert_eq!(path[7], Coord::new(-5, 7));
    let slow = add_speed(&path, 3);
    assert_eq!(slow.len(), 24);
    assert_eq!(slow[0], path[0]);
    assert_eq!(slow[2], path[0]);
    assert_eq!(slow[3], path[1]);
    assert_eq!(slow[23], path[7]);
}

#[test]
fn bresenham_steep_line_points() {
    let path = bresenham_path(Coord::new(0, 0), Coord::new(-10, 12));
    let expected = [
        (0, 0), (-1, 1), (-2, 2), (-2, 3), (-3, 4), (-4, 5), (-5, 6), (-6, 7), (-7, 8),
        (-7, 9), (-8, 10), (-9, 11), (-10, 12),
    ];
    assert_eq!(path.len(), expected.len());
    for (p, e) in path.iter().zip(expected.iter()) {
        assert_eq!((p.x(), p.y()), *e);
    }
}

#[test]
fn bresenham_single_point() {
    let path = bresenham_path(Coord::new(4, 4), Coord::new(4, 4));
    assert_eq!(path, vec![Coord::new(4, 4)]);
}

#[test]
fn stationary_path_empty_for_zero_ttl() {
    assert!(stationary_path(Coord::new(1, 1), 0).is_empty());
}

#[test]
fn arc_path_flat_and_raised() {
    let flat = arc_path(Coords::new(0, 0, 0), Coords::new(4, 0, 0), 0);
    assert_eq!(flat.len(), 5);
    assert!(flat.iter().all(|c| c.y() == 0));
    let raised = arc_path(Coords::new(0, 0, 0), Coords::new(4, 0, 0), 4);
    let ys: Vec<i32> = raised.iter().map(|c| c.y()).collect();
    assert_eq!(ys, vec![0, 3, 4, 3, 0]);
    let single = arc_path(Coords::new(1, 1, 1), Coords::new(1, 1, 1), 3);
    assert_eq!(single, vec![Coords::new(1, 1, 1)]);
}

#[test]
fn stationary_trajectory_done_after_ttl() {
    let terminal = Size::new(30, 30);
    let occupant = Size::new(1, 1);
    let position = Position::new(XTermPosition::Coord(3), YTermPosition::Coord(3));
    let mut t = Trajectory::new_stationary(position, 3);
    t.compute_path(terminal, occupant);
    t.advance(10, terminal, occupant);
    assert!(!t.is_done());
    t.advance(11, terminal, occupant);
    t.advance(12, terminal, occupant);
    assert!(!t.is_done());
    t.advance(13, terminal, occupant);
    assert!(t.is_done());

    let mut forever = Trajectory::new_stationary(position, 0);
    forever.compute_path(terminal, occupant);
    for tick in 0..1000 {
        forever.advance(tick, terminal, occupant);
        assert!(!forever.is_done());
    }
}

#[test]
fn linear_trajectory_done_and_frozen_at_end() {
    let terminal = Size::new(30, 30);
    let occupant = Size::new(1, 1);
    let start = Position::new(XTermPosition::Coord(0), YTermPosition::Coord(0));
    let end = Position::new(XTermPosition::Coord(2), YTermPosition::Coord(0));
    let mut t = Trajectory::new_linear(start, end, 2);
    t.add_offset(Coord::new(1, 1));
    t.compute_path(terminal, occupant);
    assert_eq!(t.path().len(), 6);
    assert_eq!(t.path()[0], Coord::new(1, 1));
    assert_eq!(t.get_coordinate(0), Coord::new(1, 1));
    for tick in 0..6 {
        t.advance(tick, terminal, occupant);
        assert!(!t.is_done());
    }
    t.advance(6, terminal, occupant);
    assert!(t.is_done());
    assert_eq!(t.get_coordinate(100), Coord::new(3, 1));
    assert_eq!(t.current_coordinate(), Coord::new(3, 1));
}

#[test]
fn none_trajectory_stays_at_origin() {
    let origin = Position::new(XTermPosition::Coord(5), YTermPosition::Coord(5));
    let mut t = Trajectory::new_none(origin, origin, Direction::Unset);
    t.compute_path(Size::new(10, 10), Size::new(1, 1));
    assert!(t.path().is_empty());
    assert_eq!(t.current_coordinate(), Coord::new(0, 0));
    assert_eq!(t.get_coordinate(7), Coord::new(0, 0));
}

#[test]
fn three_axis_line() {
    let path = bresenham_path_3d(Coords::new(0, 0, 0), Coords::new(3, -1, 5));
    let got: Vec<(i32, i32, i32)> = path.iter().map(|c| (c.x(), c.y(), c.z())).collect();
    assert_eq!(
        got,
        vec![(0, 0, 0), (1, 0, 1), (1, 0, 2), (2, -1, 3), (2, -1, 4), (3, -1, 5)]
    );
    let flat = bresenham_path_3d(Coords::new(0, 0, 2), Coords::new(-10, 12, 2));
    let plane = bresenham_path(Coord::new(0, 0), Coord::new(-10, 12));
    assert_eq!(flat.len(), plane.len());
    for (a, b) in flat.iter().zip(plane.iter()) {
        assert_eq!((a.x(), a.y(), a.z()), (b.x(), b.y(), 2));
    }
}
