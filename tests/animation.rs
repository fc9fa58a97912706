use coretilus::animation::{Animation, AnimationKind};
use coretilus::coord::Coord;
use coretilus::frame::Frame;
use coretilus::sprite_animation::SpriteAnimation;

fn frames(n: usize) -> Vec<Frame> {
    (0..n).map(|i| Frame::new(if i % 2 == 0 { "even" } else { "odd" })).collect()
}

#[test]
fn tick_based_looping_cycles_every_thirty_ticks() {
    let mut a = Animation::new_tick_based(frames(3), 0, 10, 0, true);
    let mut seen = Vec::new();
    for tick in 0..90usize {
        a.advance(tick, None, None);
        seen.push(a.current_frame_id());
        assert_eq!(a.current_frame_id(), (tick % 30) / 10);
        assert!(!a.is_done());
    }
    for tick in 30..90 {
        assert_eq!(seen[tick], seen[tick - 30]);
    }
}

#[test]
fn tick_based_start_offset_shifts_phase() {
    let mut a = Animation::new_tick_based(frames(3), 1, 10, 0, true);
    a.advance(100, None, None);
    assert_eq!(a.current_frame_id(), 1);
    a.advance(119, None, None);
    assert_eq!(a.current_frame_id(), 2);
    a.advance(120, None, None);
    assert_eq!(a.current_frame_id(), 0);
}

#[test]
fn tick_based_frame_override_durations() {
    let fs = vec![Frame::new_ticks("a", 2), Frame::new("b"), Frame::new_ticks("c", 1)];
    let mut a = Animation::new_tick_based(fs, 0, 5, 0, true);
    let expected = [0, 0, 1, 1, 1, 1, 1, 2, 0, 0];
    for (tick, e) in expected.iter().enumerate() {
        a.advance(tick, None, None);
        assert_eq!(a.current_frame_id(), *e);
    }
}

#[test]
fn tick_based_non_looping_freezes_at_fifty() {
    let mut a = Animation::new_tick_based(frames(5), 0, 10, 0, false);
    for tick in 0..50usize {
        a.advance(tick, None, None);
        assert!(!a.is_done());
        assert_eq!(a.current_frame_id(), tick / 10);
    }
    a.advance(50, None, None);
    assert!(a.is_done());
    assert_eq!(a.current_frame_id(), 4);
    a.advance(75, None, None);
    assert!(a.is_done());
    assert_eq!(a.current_frame_id(), 4);
}

#[test]
fn scripted_duration_ends_animation() {
    let mut a = Animation::new_tick_based(frames(2), 0, 10, 7, true);
    a.advance(3, None, None);
    assert!(!a.is_done());
    a.advance(9, None, None);
    assert!(!a.is_done());
    a.advance(10, None, None);
    assert!(a.is_done());
}

#[test]
fn movement_based_advances_only_on_movement() {
    let mut a = Animation::new_movement_based(frames(5), 0, true);
    let coords: Vec<Coord> = [0, 0, 0, 1, 2, 2, 3, 3, 3]
        .iter()
        .map(|x| Coord::new(*x, 0))
        .collect();
    let mut advanced_at = Vec::new();
    for tick in 0..8usize {
        let before = a.current_frame_id();
        a.advance(tick, Some(coords[tick]), Some(coords[tick + 1]));
        if a.current_frame_id() != before {
            advanced_at.push(tick);
        }
    }
    assert_eq!(advanced_at, vec![2, 3, 5]);
    assert_eq!(a.current_frame_id(), 3);
}

#[test]
fn movement_based_non_looping_stops_on_last_frame() {
    let mut a = Animation::new_movement_based(frames(3), 0, false);
    let p = Coord::new(0, 0);
    let q = Coord::new(1, 0);
    assert_eq!(a.advance_movement(q, p), 1);
    assert!(!a.is_done());
    assert_eq!(a.advance_movement(p, q), 2);
    assert!(a.is_done());
    assert_eq!(a.advance_movement(q, p), 2);
    let mut looping = Animation::new_movement_based(frames(2), 1, true);
    assert_eq!(looping.advance_movement(q, p), 0);
    assert!(!looping.is_done());
}

#[test]
fn static_and_empty_animations() {
    let mut s = Animation::new_static(Frame::new("x"));
    assert_eq!(s.kind(), AnimationKind::Static);
    s.advance(4, None, None);
    assert!(!s.is_done());
    assert_eq!(s.started_tick(), Some(4));
    assert_eq!(s.frame().content(), "x");
    let e = Animation::new_empty();
    assert_eq!(e.kind(), AnimationKind::Empty);
    assert!(e.is_done());
    assert!(e.frames().is_empty());
}

#[test]
fn reset_restarts_animation() {
    let mut a = Animation::new_tick_based(frames(2), 1, 1, 0, false);
    a.advance(0, None, None);
    a.advance(5, None, None);
    assert!(a.is_done());
    assert!(a.has_started());
    a.reset();
    assert!(!a.is_done());
    assert!(!a.has_started());
    assert_eq!(a.current_frame_id(), 0);
    assert_eq!(a.get_total_ticks(), 2);
    assert!(!a.is_loop());
    assert_eq!(a.default_ticks_per_frame(), 1);
}

#[test]
fn frame_lines_and_bounds() {
    let f = Frame::new(" /\\\n/__\\\n\nok\n");
    assert_eq!(f.get_lines(), vec![" /\\", "/__\\", "", "ok"]);
    assert_eq!(f.get_height(), 4);
    assert_eq!(f.get_width(), 4);
    let empty = Frame::new("");
    assert!(empty.get_lines().is_empty());
    assert_eq!(empty.get_width(), 0);
    let frame2 = Frame::new_ticks("Hello, world!", 200);
    assert_eq!(frame2.ticks(), 200);
    assert_eq!(frame2.content(), "Hello, world!");
    assert_eq!(Frame::new("abc").ticks(), 0);
}

#[test]
fn layered_animation_counts_its_own_ticks() {
    let mut a = SpriteAnimation::new_tick_based(frames(3), 2, true);
    let mut seen = Vec::new();
    for _ in 0..7 {
        a.advance(1, false);
        seen.push(a.current_frame_index());
    }
    assert_eq!(seen, vec![0, 1, 1, 2, 2, 0, 0]);
    let mut m = SpriteAnimation::new_movement_based(frames(2), false);
    m.advance(1, false);
    assert_eq!(m.current_frame_index(), 0);
    m.advance(1, true);
    assert_eq!(m.current_frame_index(), 1);
    m.advance(1, true);
    assert_eq!(m.current_frame_index(), 1);
    m.reset();
    assert_eq!(m.current_frame_index(), 0);
    assert!(!m.has_started());
    let s = SpriteAnimation::new_static(Frame::new("s"));
    assert_eq!(s.current_frame().content(), "s");
    assert_eq!(s.started_tick(), None);
}

#[test]
fn frame_lines_drop_carriage_returns() {
    let f = Frame::new("a\r\nb");
    assert_eq!(f.get_lines(), vec!["a", "b"]);
    assert_eq!(f.get_width(), 1);
    assert_eq!(f.get_height(), 2);
    let g = Frame::new("\r\n\rx\r");
    assert_eq!(g.get_lines(), vec!["", "\rx\r"]);
}

#[test]
fn empty_animation_starts_at_frame_zero() {
    let e = Animation::new_empty();
    assert_eq!(e.current_frame_id(), 0);
    assert!(!e.has_started());
}
