use cekidot::demo::{CanvasOn, Scripted};
use cekidot::engine::error::EngineError;
use cekidot::engine::input::glfw_input::GlfwInputState;
use cekidot::engine::render_loop::{FrameClock, LoopState, RenderLoop, TickReport};

const MS: u64 = 1_000_000;

fn make_loop(rate: usize, sim: Scripted) -> RenderLoop<Scripted, GlfwInputState, CanvasOn> {
    RenderLoop::new(rate, sim, GlfwInputState::new(), CanvasOn::new(1024, 768)).unwrap()
}

#[test]
fn timestep_is_rounded_nanoseconds_per_tick() {
    assert_eq!(FrameClock::new(120).unwrap().update_timestep(), 8_333_333);
    assert_eq!(FrameClock::new(1).unwrap().update_timestep(), 1_000_000_000);
    assert_eq!(FrameClock::new(7).unwrap().update_timestep(), 142_857_143);
    assert_eq!(FrameClock::new(60).unwrap().update_timestep(), 16_666_667);
    assert_eq!(FrameClock::new(2_000_000_000).unwrap().update_timestep(), 1);
}

#[test]
fn timestep_rounds_half_up() {
    // 1e9 / 16 = 62_500_000 exactly; 1e9 / 400_000_000 = 2.5 rounds to 3.
    assert_eq!(FrameClock::new(16).unwrap().update_timestep(), 62_500_000);
    assert_eq!(FrameClock::new(400_000_000).unwrap().update_timestep(), 3);
}

#[test]
fn zero_rate_is_a_configuration_error() {
    assert!(matches!(FrameClock::new(0), Err(EngineError::InvalidRate)));
    let r = RenderLoop::new(0, Scripted::new(), GlfwInputState::new(), CanvasOn::new(1, 1));
    assert!(matches!(r, Err(EngineError::InvalidRate)));
}

#[test]
fn rate_with_no_positive_timestep_is_rejected() {
    assert!(matches!(FrameClock::new(2_000_000_001), Err(EngineError::InvalidRate)));
}

#[test]
fn new_clock_starts_at_origin() {
    let c = FrameClock::new(50).unwrap();
    assert_eq!(c.accumulator(), 0);
    assert_eq!(c.current_time(), 0);
    assert_eq!(c.last_time(), 0);
}

#[test]
fn first_tick_only_accumulates() {
    let mut l = make_loop(100, Scripted::new());
    assert_eq!(l.tick(20 * MS), Ok(LoopState::Continue));
    assert_eq!(l.game().updates, 0);
    assert_eq!(l.game().renders, 1);
    assert_eq!(l.game().deltas, vec![20 * MS]);
    assert_eq!(l.frame_clock().accumulator(), 20 * MS);
    assert_eq!(l.frame_clock().last_time(), 0);
    assert_eq!(l.frame_clock().current_time(), 20 * MS);
    assert_eq!(l.last_tick(), TickReport { updates: 0, rendered: true, delta: 20 * MS });
}

#[test]
fn accumulator_equal_to_timestep_runs_no_update() {
    // rate 100: timestep 10 ms.
    let mut l = make_loop(100, Scripted::new());
    l.tick(10 * MS).unwrap();
    assert_eq!(l.frame_clock().accumulator(), 10 * MS);
    l.tick(10 * MS).unwrap();
    assert_eq!(l.game().updates, 0);
    assert_eq!(l.frame_clock().accumulator(), 10 * MS);
}

#[test]
fn accumulator_just_above_timestep_runs_one_update() {
    let mut l = make_loop(100, Scripted::new());
    l.tick(10 * MS).unwrap();
    l.tick(10 * MS + 1).unwrap();
    assert_eq!(l.game().updates, 0);
    assert_eq!(l.frame_clock().accumulator(), 10 * MS + 1);
    l.tick(10 * MS + 1).unwrap();
    assert_eq!(l.game().updates, 1);
    assert_eq!(l.last_tick().updates, 1);
    assert_eq!(l.frame_clock().accumulator(), 1);
}

#[test]
fn accumulator_of_three_and_a_half_timesteps_runs_three_updates() {
    let mut l = make_loop(100, Scripted::new());
    l.tick(35 * MS).unwrap();
    l.tick(35 * MS).unwrap();
    assert_eq!(l.game().updates, 3);
    assert_eq!(l.frame_clock().accumulator(), 5 * MS);
}

#[test]
fn long_pause_is_clamped_to_100ms() {
    let mut l = make_loop(100, Scripted::new());
    l.tick(500 * MS).unwrap();
    assert_eq!(l.game().deltas, vec![100 * MS]);
    assert_eq!(l.frame_clock().accumulator(), 100 * MS);
    assert_eq!(l.last_tick().delta, 100 * MS);
}

#[test]
fn delta_of_exactly_100ms_is_kept() {
    let mut l = make_loop(100, Scripted::new());
    l.tick(100 * MS).unwrap();
    l.tick(200 * MS + 1).unwrap();
    assert_eq!(l.game().deltas, vec![100 * MS, 100 * MS]);
}

#[test]
fn clock_reading_behind_the_last_counts_as_no_time() {
    let mut l = make_loop(100, Scripted::new());
    l.tick(30 * MS).unwrap();
    l.tick(20 * MS).unwrap();
    assert_eq!(l.game().deltas, vec![30 * MS, 0]);
}

#[test]
fn exit_from_update_skips_remaining_updates_and_render() {
    let mut sim = Scripted::new();
    sim.exit_at_update = Some((2, 7));
    let mut l = make_loop(100, sim);
    l.tick(45 * MS).unwrap();
    assert_eq!(l.tick(60 * MS), Ok(LoopState::Exit(7)));
    assert_eq!(l.game().updates, 2);
    assert_eq!(l.game().renders, 1);
    // one timestep consumed before the exiting update
    assert_eq!(l.frame_clock().accumulator(), 35 * MS);
    assert_eq!(l.last_tick(), TickReport { updates: 2, rendered: false, delta: 15 * MS });
}

#[test]
fn exit_from_render_leaves_accumulator_unincremented() {
    let mut sim = Scripted::new();
    sim.exit_at_render = Some(3);
    let mut l = make_loop(100, sim);
    assert_eq!(l.tick(25 * MS), Ok(LoopState::Exit(3)));
    assert_eq!(l.game().renders, 1);
    assert_eq!(l.frame_clock().accumulator(), 0);
}

#[test]
fn failing_update_is_handed_back() {
    let mut sim = Scripted::new();
    sim.fail_at_update = Some(1);
    let mut l = make_loop(100, sim);
    l.tick(25 * MS).unwrap();
    assert_eq!(l.tick(50 * MS), Err(EngineError::Step("update failed".to_string())));
    assert_eq!(l.game().renders, 1);
    assert_eq!(l.frame_clock().accumulator(), 25 * MS);
}

#[test]
fn rate_120_with_20ms_frames_runs_two_updates_then_one_render() {
    let mut l = make_loop(120, Scripted::new());
    assert_eq!(l.frame_clock().update_timestep(), 8_333_333);
    l.tick(20 * MS).unwrap();
    l.tick(40 * MS).unwrap();
    assert_eq!(l.last_tick(), TickReport { updates: 2, rendered: true, delta: 20 * MS });
    assert_eq!(l.game().updates, 2);
    assert_eq!(l.game().renders, 2);
    assert_eq!(l.game().deltas[1], 20 * MS);
    assert_eq!(l.frame_clock().accumulator(), 20 * MS - 2 * 8_333_333 + 20 * MS);
}

#[test]
fn on_loop_reads_the_clock() {
    let mut l = make_loop(120, Scripted::new());
    assert_eq!(l.on_loop(), Ok(LoopState::Continue));
    let first = l.frame_clock().current_time();
    assert_eq!(l.on_loop(), Ok(LoopState::Continue));
    assert!(l.frame_clock().current_time() >= first);
    assert_eq!(l.frame_clock().last_time(), first);
    assert_eq!(l.game().renders, 2);
}

#[test]
fn lifecycle_hooks_of_the_loop_succeed_for_the_demo_canvas() {
    let mut l = make_loop(60, Scripted::new());
    assert_eq!(l.on_start(), Ok(()));
    l.on_resize();
    assert_eq!(l.on_end(4), Ok(4));
}

#[test]
fn catch_up_after_a_long_pause_is_bounded() {
    // rate 1000: timestep 1 ms; a pause clamps to 100 ms, so the next tick
    // runs (100 ms - 1 ns) / 1 ms = 99 updates, within 1 + 100 ms / 1 ms.
    let mut l = make_loop(1000, Scripted::new());
    l.tick(5_000 * MS).unwrap();
    l.tick(5_000 * MS).unwrap();
    assert_eq!(l.game().updates, 99);
    assert_eq!(l.frame_clock().accumulator(), MS);
}

#[test]
fn render_exit_code_is_handed_back_as_it_came() {
    let mut sim = Scripted::new();
    sim.exit_at_render = Some(-4);
    let mut l = make_loop(100, sim);
    assert_eq!(l.tick(5 * MS), Ok(LoopState::Exit(-4)));
    assert_eq!(l.last_tick(), TickReport { updates: 0, rendered: true, delta: 5 * MS });
}

#[test]
fn resize_answer_of_the_canvas_is_handed_back() {
    let mut l = make_loop(60, Scripted::new());
    assert_eq!(l.on_resize(), None);
    assert_eq!(l.game().renders, 0);
}
