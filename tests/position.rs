use coretilus::coord::{Coord, Position, XTermPosition, YTermPosition};
use coretilus::engine::{terminal_size_or_default, Size};

#[test]
fn resolve_anchors_for_80_by_24() {
    let terminal_size = Size::new(80, 24);
    let sprite_size = Size::new(10, 5);
    let c = Position::new(XTermPosition::Middle, YTermPosition::Middle)
        .resolve(terminal_size, sprite_size);
    assert_eq!((c.x(), c.y()), (35, 9));
    let c = Position::new(XTermPosition::LeftIn, YTermPosition::BottomIn)
        .resolve(terminal_size, sprite_size);
    assert_eq!((c.x(), c.y()), (0, 0));
    let c = Position::new(XTermPosition::RightOut, YTermPosition::TopOut)
        .resolve(terminal_size, sprite_size);
    assert_eq!((c.x(), c.y()), (80, 24));
    let c = Position::new(XTermPosition::LeftOut, YTermPosition::BottomOut)
        .resolve(terminal_size, sprite_size);
    assert_eq!((c.x(), c.y()), (-11, -6));
    let c = Position::new(XTermPosition::RightIn, YTermPosition::TopIn)
        .resolve(terminal_size, sprite_size);
    assert_eq!((c.x(), c.y()), (70, 19));
    let c = Position::new(XTermPosition::Coord(-3), YTermPosition::Coord(7))
        .resolve(terminal_size, sprite_size);
    assert_eq!((c.x(), c.y()), (-3, 7));
}

#[test]
fn resolve_is_repeatable_and_follows_resize() {
    let p = Position::new(XTermPosition::Middle, YTermPosition::TopIn);
    let a = p.resolve(Size::new(80, 24), Size::new(10, 5));
    let b = p.resolve(Size::new(80, 24), Size::new(10, 5));
    assert_eq!(a, b);
    let c = p.resolve(Size::new(100, 50), Size::new(10, 5));
    assert_eq!((c.x(), c.y()), (45, 45));
}

#[test]
fn middle_of_oversized_occupant_truncates_toward_zero() {
    let c = Position::new(XTermPosition::Middle, YTermPosition::Middle)
        .resolve(Size::new(10, 10), Size::new(15, 13));
    assert_eq!((c.x(), c.y()), (-2, -1));
}

#[test]
fn coord_accessors_and_sum() {
    let coord1 = Coord::new(4, 5);
    assert_eq!(coord1.x(), 4);
    assert_eq!(coord1.y(), 5);
    let mut coord2 = Coord::new(0, 0);
    coord2.set_x(3);
    coord2.set_y(3);
    let coord3 = coord1.plus(coord2);
    assert_eq!(coord3.x(), 7);
    assert_eq!(coord3.y(), 8);
}

#[test]
fn fallback_terminal_size() {
    assert_eq!(terminal_size_or_default(None), (100, 50));
    assert_eq!(terminal_size_or_default(Some((80, 24))), (80, 24));
}
