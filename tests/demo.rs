use cekidot::demo::{render, update, CanvasOn, GameOn};
use cekidot::engine::canvas::{Canvas, RenderableCanvas};
use cekidot::engine::input::glfw_input::GlfwInputState;
use cekidot::engine::input::{EventState, InputState, KeyboardAction, KeyboardKey};
use cekidot::engine::render_loop::LoopState;
use cekidot::engine::state::Game;

fn press(s: &mut GlfwInputState, key: KeyboardKey) {
    s.on_event(&Some(EventState { key: Some(key), action: KeyboardAction::PRESS }));
    s.handle_event();
}

#[test]
fn game_on_starts_at_zero() {
    let g = GameOn::new();
    assert_eq!((g.update_called, g.render_called, g.adding, g.time_passed), (0, 0, 0, 0));
    let s = Game::new();
    assert_eq!((s.update_called, s.render_called, s.time_passed), (0, 0, 0));
}

#[test]
fn update_counts_and_reacts_to_keys() {
    let mut g = GameOn::new();
    let mut c = CanvasOn::new(10, 20);
    let mut i = GlfwInputState::new();
    assert_eq!(update(&mut g, &i, &mut c), Ok(LoopState::Continue));
    assert_eq!((g.update_called, g.adding), (1, 0));
    press(&mut i, KeyboardKey::A);
    update(&mut g, &i, &mut c).unwrap();
    assert_eq!((g.update_called, g.adding), (2, 1));
    press(&mut i, KeyboardKey::UP);
    update(&mut g, &i, &mut c).unwrap();
    assert_eq!((g.update_called, g.adding), (3, 3));
}

#[test]
fn update_counter_saturates() {
    let mut g = GameOn::new();
    g.update_called = usize::MAX;
    update(&mut g, &GlfwInputState::new(), &mut CanvasOn::new(1, 1)).unwrap();
    assert_eq!(g.update_called, usize::MAX);
}

#[test]
fn render_counts_and_adds_time() {
    let mut g = GameOn::new();
    let mut c = CanvasOn::new(10, 20);
    let i = GlfwInputState::new();
    assert_eq!(render(&mut g, &i, &mut c, 1_500), Ok(LoopState::Continue));
    render(&mut g, &i, &mut c, 2_500).unwrap();
    assert_eq!((g.render_called, g.time_passed), (2, 4_000));
    g.time_passed = u64::MAX - 1;
    render(&mut g, &i, &mut c, 5).unwrap();
    assert_eq!(g.time_passed, u64::MAX);
}

#[test]
fn demo_canvas_reports_its_dimensions() {
    let mut c = CanvasOn::new(1024, 768);
    assert_eq!((c.width(), c.height()), (1024, 768));
    assert_eq!(c.on_resize(), None);
    assert_eq!((c.width(), c.height()), (1024, 768));
    assert_eq!(c.on_start(), Ok(()));
    assert_eq!(c.on_render(), Ok(()));
    assert_eq!(c.on_end(), Ok(()));
}
