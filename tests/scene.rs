use coretilus::animation::Animation;
use coretilus::coord::{Coord, Position, XTermPosition, YTermPosition};
use coretilus::engine::{get_terminal_size, InputOutcome, RenderEngine, Size};
use coretilus::frame::Frame;
use coretilus::scene::{SceneError, Scene};
use coretilus::sprite::{Key, Sprite};
use coretilus::trajectory::Trajectory;

fn placed(text: &str, x: i32, y: i32, layer: i32) -> Sprite {
    let mut s = Sprite::new(2, String::from("thing"), layer);
    s.set_animation(Animation::new_static(Frame::new(text)));
    s.set_trajectory(Trajectory::new_stationary(
        Position::new(XTermPosition::Coord(x), YTermPosition::Coord(y)),
        0,
    ));
    s
}

fn rows(screen: &[char], w: usize) -> Vec<String> {
    screen.chunks(w).map(|r| r.iter().collect()).collect()
}

#[test]
fn render_composites_by_layer_and_clips() {
    let mut scene = Scene::new(Size::new(5, 3));
    scene.add_sprite(placed("xx\nyy", 1, 0, 2));
    scene.add_sprite(placed("a b", 0, 0, 1));
    scene.add_sprite(placed("zzzz", 3, 2, 0));
    let screen = scene.render_tick(0).unwrap();
    assert_eq!(rows(&screen, 5), vec!["   zz", " xx  ", "ayy  "]);
}

#[test]
fn hidden_sprites_are_not_drawn_and_do_not_end_scene() {
    let mut scene = Scene::new(Size::new(4, 2));
    let mut s = placed("q", 0, 0, 0);
    s.set_visible(false);
    scene.add_sprite(s);
    let screen = scene.render_tick(0).unwrap();
    assert!(screen.iter().all(|c| *c == ' '));
    assert!(scene.all_done());
}

#[test]
fn draw_order_is_stable_by_layer() {
    let mut scene = Scene::new(Size::new(4, 2));
    scene.add_sprite(placed("a", 0, 0, 3));
    scene.add_sprite(placed("b", 0, 0, 1));
    scene.add_sprite(placed("c", 0, 0, 3));
    scene.add_sprite(placed("d", 0, 0, -2));
    assert_eq!(scene.draw_order(), vec![3, 1, 0, 2]);
}

#[test]
fn relative_sprite_without_valid_parent_is_an_error() {
    let mut scene = Scene::new(Size::new(10, 10));
    let mut s = Sprite::new(3, String::from("smoke"), 0);
    s.set_trajectory(Trajectory::new_relative(5, Coord::new(1, 1)));
    let id = scene.add_sprite(s);
    assert_eq!(scene.compute_path_of(id, 1), Err(SceneError::MissingParent));
    let mut scene = Scene::new(Size::new(10, 10));
    let mut s = Sprite::new(3, String::from("loop"), 0);
    s.set_trajectory(Trajectory::new_relative(0, Coord::new(1, 1)));
    scene.add_sprite(s);
    assert_eq!(scene.compute_paths(), Err(SceneError::ParentCycle));
}

#[test]
fn moving_sprite_ends_scene_when_path_is_used_up() {
    let mut scene = Scene::new(Size::new(10, 3));
    let mut s = Sprite::new(4, String::from("car"), 0);
    s.set_animation(Animation::new_static(Frame::new("o")));
    s.set_trajectory(Trajectory::new_linear(
        Position::new(XTermPosition::Coord(0), YTermPosition::Coord(0)),
        Position::new(XTermPosition::Coord(2), YTermPosition::Coord(0)),
        1,
    ));
    scene.add_sprite(s);
    let mut engine = RenderEngine::with_terminal_size(0, Size::new(10, 3));
    engine.begin();
    let mut ticks = 0;
    loop {
        let screen = scene.render_tick(engine.tick_id()).unwrap();
        assert_eq!(screen.len(), 30);
        if engine.should_end(&scene) {
            break;
        }
        engine.next_tick();
        ticks += 1;
        assert!(ticks < 10);
    }
    assert_eq!(engine.tick_id(), 3);
}

#[test]
fn engine_ttl_and_stop() {
    let scene = Scene::new(Size::new(4, 2));
    let mut engine = RenderEngine::with_terminal_size(2, Size::new(4, 2));
    let mut busy = Scene::new(Size::new(4, 2));
    let mut s = placed("x", 0, 0, 0);
    s.set_animation(Animation::new_tick_based(vec![Frame::new("x")], 0, 3, 0, true));
    busy.add_sprite(s);
    assert!(!engine.should_end(&busy));
    engine.next_tick();
    engine.next_tick();
    assert!(engine.should_end(&busy));
    engine.begin();
    assert!(scene.all_done());
    assert!(engine.should_end(&scene));
    let mut forever = RenderEngine::with_terminal_size(0, Size::new(4, 2));
    assert!(!forever.should_end(&busy));
    forever.stop();
    assert!(forever.stopped());
    assert!(forever.should_end(&busy));
}

#[test]
fn keys_go_to_bound_sprites_and_interrupt_ends() {
    let mut scene = Scene::new(Size::new(4, 2));
    let mut a = placed("a", 0, 0, 0);
    a.on_key(Key::Left, 7);
    a.on_key(Key::Left, 8);
    let mut b = placed("b", 0, 0, 0);
    b.on_key(Key::Right, 9);
    let mut c = placed("c", 0, 0, 0);
    c.on_key(Key::Left, 1);
    scene.add_sprite(a);
    scene.add_sprite(b);
    scene.add_sprite(c);
    let mut engine = RenderEngine::with_terminal_size(0, Size::new(4, 2));
    assert_eq!(
        engine.on_key(&scene, Key::Left, false),
        InputOutcome::Actions(vec![(0, 8), (2, 1)])
    );
    assert_eq!(engine.on_key(&scene, Key::Char('q'), false), InputOutcome::Actions(vec![]));
    engine.set_stop_on_interrupt(false);
    assert_eq!(engine.on_key(&scene, Key::Char('c'), true), InputOutcome::Ignored);
    assert!(!engine.killed());
    engine.set_stop_on_interrupt(true);
    assert_eq!(engine.on_key(&scene, Key::Char('c'), true), InputOutcome::Interrupted);
    assert!(engine.killed());
    assert!(engine.should_end(&scene));
}

#[test]
fn sprite_size_and_default_collider() {
    let mut s = Sprite::new(5, String::from("box"), 0);
    assert_eq!(s.tdid(), 5);
    assert_eq!(s.tdname(), "box");
    s.set_animation(Animation::new_static(Frame::new("abc\nde")));
    assert_eq!(s.size(), Size::new(3, 2));
    assert_eq!(s.get_max_frame_width(), 3);
    assert_eq!(s.get_max_frame_height(), 2);
    assert_eq!(s.collider().size(), Size::new(3, 2));
    assert_eq!(s.handle_input(Key::Up), None);
    s.on_key(Key::Up, 4);
    assert_eq!(s.handle_input(Key::Up), Some(4));
}

#[test]
fn static_decoration_never_ends_scene() {
    let mut scene = Scene::new(Size::new(6, 2));
    scene.add_sprite(placed("*", 1, 1, 0));
    for tick in 0..20 {
        scene.render_tick(tick).unwrap();
        assert!(!scene.all_done());
    }
}

#[test]
fn render_reports_missing_parent() {
    let mut scene = Scene::new(Size::new(6, 2));
    scene.add_sprite(placed("*", 1, 1, 0));
    let mut s = Sprite::new(3, String::from("smoke"), 0);
    s.set_trajectory(Trajectory::new_relative(9, Coord::new(0, 0)));
    scene.add_sprite(s);
    assert_eq!(scene.render_tick(0), Err(SceneError::MissingParent));
}

#[test]
fn zero_width_terminal_renders_empty_screen() {
    let mut scene = Scene::new(Size::new(0, 5));
    scene.add_sprite(placed("abc", 0, 0, 0));
    assert!(scene.render_tick(0).unwrap().is_empty());
}

#[test]
fn terminal_size_is_positive_and_ids_are_version_four() {
    let (w, h) = get_terminal_size();
    assert!(w > 0 && h > 0);
    let s = Sprite::new(1, String::from("x"), 0);
    if let Some(id) = s.id() {
        assert_eq!((id >> 76) & 0xf, 4);
        assert_eq!((id >> 62) & 0x3, 2);
    }
}
