use cekidot::demo::{CanvasOn, GameOn, Scripted};
use cekidot::engine::error::EngineError;
use cekidot::engine::input::glfw_input::{GlfwInputState, PlatformEvent};
use cekidot::engine::input::{KeyboardKey, KeyboardState};
use cekidot::engine::render_loop::{LoopState, RenderLoop};
use cekidot::engine::world::{quit_pressed, Phase, World};

const MS: u64 = 1_000_000;

fn world(rate: usize) -> World<GameOn, GlfwInputState, CanvasOn> {
    let l = RenderLoop::new(rate, GameOn::new(), GlfwInputState::new(), CanvasOn::new(640, 480)).unwrap();
    World::new(l)
}

fn key(code: i32, action: i32) -> PlatformEvent {
    PlatformEvent::Key { code, action }
}

fn quitter() -> Scripted {
    let mut s = Scripted::new();
    s.exit_at_update = Some((1, 9));
    s
}

fn broken() -> Scripted {
    let mut s = Scripted::new();
    s.fail_at_render = true;
    s
}

#[test]
fn new_world_is_running() {
    let mut w = world(60);
    assert_eq!(w.phase(), Phase::Running);
    assert_eq!(w.on_start(), Ok(()));
    assert_eq!(w.phase(), Phase::Running);
}

#[test]
fn one_iteration_records_events_after_the_tick() {
    let mut w = world(120);
    let events = vec![key(65, 1), key(265, 1)];
    assert_eq!(w.step_at(20 * MS, &events), Ok(LoopState::Continue));
    assert_eq!(w.phase(), Phase::Running);
    let input = w.render_loop().input();
    assert!(input.is_key_down(KeyboardKey::A));
    assert!(input.is_key_pressed(KeyboardKey::UP));
    // the updates of that tick ran before the events were recorded
    assert_eq!(w.render_loop().game().adding, 0);
    assert_eq!(w.render_loop().game().render_called, 1);
}

#[test]
fn updates_of_the_next_iteration_see_the_recorded_edges() {
    let mut w = world(120);
    w.step_at(20 * MS, &vec![key(65, 1), key(265, 1)]).unwrap();
    w.step_at(40 * MS, &vec![]).unwrap();
    let g = w.render_loop().game();
    assert_eq!(g.update_called, 2);
    // A down in both updates, UP pressed in both (no event cleared the edge)
    assert_eq!(g.adding, 4);
    assert_eq!(g.time_passed, 40 * MS);
}

#[test]
fn first_event_of_an_iteration_clears_the_previous_edges() {
    let mut w = world(120);
    w.step_at(20 * MS, &vec![key(265, 1)]).unwrap();
    w.step_at(40 * MS, &vec![PlatformEvent::Other]).unwrap();
    let input = w.render_loop().input();
    assert!(input.is_key_down(KeyboardKey::UP));
    assert!(!input.is_key_pressed(KeyboardKey::UP));
}

#[test]
fn quit_key_press_tears_down_with_code_zero() {
    let mut w = world(60);
    assert_eq!(w.step_at(5 * MS, &vec![key(256, 1), key(65, 1)]), Ok(LoopState::Continue));
    assert_eq!(w.phase(), Phase::TearingDown(0));
    // the events after the quit key are still recorded
    assert!(w.render_loop().input().is_key_down(KeyboardKey::A));
    assert_eq!(w.shutdown(), Ok(0));
    assert_eq!(w.phase(), Phase::Terminated(0));
}

#[test]
fn quit_key_release_does_not_quit() {
    let mut w = world(60);
    w.step_at(5 * MS, &vec![key(256, 0), key(256, 2)]).unwrap();
    assert_eq!(w.phase(), Phase::Running);
    assert!(quit_pressed(&key(256, 1)));
    assert!(!quit_pressed(&key(256, 2)));
    assert!(!quit_pressed(&PlatformEvent::Other));
}

#[test]
fn exit_from_a_step_tears_down_with_its_code_and_skips_events() {
    let l = RenderLoop::new(100, quitter(), GlfwInputState::new(), CanvasOn::new(1, 1)).unwrap();
    let mut w = World::new(l);
    w.step_at(30 * MS, &vec![]).unwrap();
    assert_eq!(w.phase(), Phase::Running);
    assert_eq!(w.step_at(40 * MS, &vec![key(256, 1), key(65, 1)]), Ok(LoopState::Exit(9)));
    assert_eq!(w.phase(), Phase::TearingDown(9));
    assert!(!w.render_loop().input().is_key_down(KeyboardKey::A));
    assert_eq!(w.shutdown(), Ok(9));
    assert_eq!(w.phase(), Phase::Terminated(9));
}

#[test]
fn step_failure_is_handed_back_and_world_keeps_running() {
    let l = RenderLoop::new(100, broken(), GlfwInputState::new(), CanvasOn::new(1, 1)).unwrap();
    let mut w = World::new(l);
    assert_eq!(w.step_at(10 * MS, &vec![key(256, 1)]), Err(EngineError::Step("render failed".to_string())));
    assert_eq!(w.phase(), Phase::Running);
}

#[test]
fn closed_window_tears_down_with_code_zero_once() {
    let mut w = world(60);
    w.request_close();
    assert_eq!(w.phase(), Phase::TearingDown(0));
    w.request_close();
    assert_eq!(w.phase(), Phase::TearingDown(0));
    assert_eq!(w.shutdown(), Ok(0));
    w.request_close();
    assert_eq!(w.phase(), Phase::Terminated(0));
}

#[test]
fn resize_events_reach_the_canvas_without_changing_input() {
    let mut w = world(60);
    let events = vec![PlatformEvent::Pos { x: 10, y: 20 }, PlatformEvent::FramebufferSize { width: 800, height: 600 }];
    assert_eq!(w.step_at(5 * MS, &events), Ok(LoopState::Continue));
    assert_eq!(w.phase(), Phase::Running);
    assert!(w.render_loop().input().is_key_up(KeyboardKey::A));
}

#[test]
fn rate_120_iteration_with_20ms_delta_runs_two_updates_and_one_render() {
    let mut w = world(120);
    w.step_at(20 * MS, &vec![]).unwrap();
    w.step_at(40 * MS, &vec![]).unwrap();
    let report = w.render_loop().last_tick();
    assert_eq!(report.updates, 2);
    assert!(report.rendered);
    assert_eq!(report.delta, 20 * MS);
    assert_eq!(w.render_loop().game().update_called, 2);
    assert_eq!(w.render_loop().game().render_called, 2);
}

#[test]
fn step_reads_the_clock() {
    let mut w = world(60);
    assert_eq!(w.step(&vec![]), Ok(LoopState::Continue));
    assert_eq!(w.render_loop().game().render_called, 1);
}
