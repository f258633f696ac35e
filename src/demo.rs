//! A small simulation that exercises the engine: it counts its updates and
//! renders, adds up the rendered time, and reacts to two keys.
use crate::engine::canvas::{Canvas, CanvasCall, RenderableCanvas};
use crate::engine::error::EngineError;
use crate::engine::input::glfw_input::GlfwInputState;
use crate::engine::input::{KeyboardKey, KeyboardState};
use crate::engine::render_loop::{LoopState, Simulation, StepCall};
use vstd::prelude::*;

verus! {

/// `a + b`, saturated at `usize::MAX`.
pub open spec fn saturating_sum(a: usize, b: nat) -> usize {
    if a + b > usize::MAX {
        usize::MAX
    } else {
        (a + b) as usize
    }
}

/// `a + b`, saturated at `u64::MAX`.
pub open spec fn saturating_sum_u64(a: u64, b: u64) -> u64 {
    if a + b > u64::MAX {
        u64::MAX
    } else {
        (a + b) as u64
    }
}

fn bump(n: usize) -> (r: usize)
    ensures
        r == saturating_sum(n, 1),
{
    if n < usize::MAX {
        n + 1
    } else {
        n
    }
}

/// The demo's simulation state; `time_passed` is in nanoseconds and
/// `calls` logs the step calls made on it.
pub struct GameOn {
    pub update_called: usize,
    pub render_called: usize,
    pub adding: usize,
    pub time_passed: u64,
    pub calls: Ghost<Seq<StepCall>>,
}

impl GameOn {
    pub fn new() -> (r: Self)
        ensures
            r.update_called == 0,
            r.render_called == 0,
            r.adding == 0,
            r.time_passed == 0,
            r.step_calls() == Seq::<StepCall>::empty(),
    {
        Self { update_called: 0, render_called: 0, adding: 0, time_passed: 0, calls: Ghost(Seq::empty()) }
    }
}

/// A canvas of fixed dimensions whose hooks always succeed.
pub struct CanvasOn {
    width: u32,
    height: u32,
    calls: Ghost<Seq<CanvasCall>>,
}

impl CanvasOn {
    pub closed spec fn spec_width(&self) -> u32 {
        self.width
    }

    pub closed spec fn spec_height(&self) -> u32 {
        self.height
    }

    pub fn new(width: u32, height: u32) -> (r: Self)
        ensures
            r.spec_width() == width,
            r.spec_height() == height,
            r.canvas_calls() == Seq::<CanvasCall>::empty(),
    {
        Self { width, height, calls: Ghost(Seq::empty()) }
    }
}

impl Canvas for CanvasOn {
    fn width(&self) -> (r: u32)
        ensures
            r == self.spec_width(),
    {
        self.width
    }

    fn height(&self) -> (r: u32)
        ensures
            r == self.spec_height(),
    {
        self.height
    }
}

impl RenderableCanvas for CanvasOn {
    closed spec fn canvas_calls(&self) -> Seq<CanvasCall> {
        self.calls@
    }

    fn on_render(&mut self) -> (r: Result<(), EngineError>)
        ensures
            r is Ok,
            final(self).spec_width() == old(self).spec_width(),
            final(self).spec_height() == old(self).spec_height(),
    {
        self.calls = Ghost(self.calls@.push(CanvasCall::Render(Ok(()))));
        Ok(())
    }

    /// The dimensions of this canvas never change, so there is never a new
    /// size to report.
    fn on_resize(&mut self) -> (r: Option<(u32, u32)>)
        ensures
            r is None,
            final(self).spec_width() == old(self).spec_width(),
            final(self).spec_height() == old(self).spec_height(),
    {
        self.calls = Ghost(self.calls@.push(CanvasCall::Resize(None)));
        None
    }

    fn on_start(&mut self) -> (r: Result<(), EngineError>)
        ensures
            r is Ok,
            final(self).spec_width() == old(self).spec_width(),
            final(self).spec_height() == old(self).spec_height(),
    {
        self.calls = Ghost(self.calls@.push(CanvasCall::Start(Ok(()))));
        Ok(())
    }

    fn on_end(&mut self) -> (r: Result<(), EngineError>)
        ensures
            r is Ok,
            final(self).spec_width() == old(self).spec_width(),
            final(self).spec_height() == old(self).spec_height(),
    {
        self.calls = Ghost(self.calls@.push(CanvasCall::End(Ok(()))));
        Ok(())
    }
}

/// One update: counts itself, and adds one while `A` is down and one when
/// `UP` went down this tick (each saturating).
pub fn update(g: &mut GameOn, i: &GlfwInputState, c: &mut CanvasOn) -> (r: Result<LoopState, EngineError>)
    ensures
        r == Ok::<LoopState, EngineError>(LoopState::Continue),
        final(g).update_called == saturating_sum(old(g).update_called, 1),
        final(g).adding == saturating_sum(
            old(g).adding,
            (if i.keys().down.contains(KeyboardKey::A) { 1nat } else { 0nat }) + (if i.keys().pressed.contains(KeyboardKey::UP) { 1nat } else { 0nat }),
        ),
        final(g).render_called == old(g).render_called,
        final(g).time_passed == old(g).time_passed,
        final(g).step_calls() == old(g).step_calls(),
        *final(c) == *old(c),
{
    g.update_called = bump(g.update_called);
    if i.is_key_down(KeyboardKey::A) {
        g.adding = bump(g.adding);
    }
    if i.is_key_pressed(KeyboardKey::UP) {
        g.adding = bump(g.adding);
    }
    Ok(LoopState::Continue)
}

/// One render: counts itself and adds the tick's delta to the time passed
/// (each saturating).
pub fn render(g: &mut GameOn, i: &GlfwInputState, c: &mut CanvasOn, d: u64) -> (r: Result<LoopState, EngineError>)
    ensures
        r == Ok::<LoopState, EngineError>(LoopState::Continue),
        final(g).render_called == saturating_sum(old(g).render_called, 1),
        final(g).time_passed == saturating_sum_u64(old(g).time_passed, d),
        final(g).update_called == old(g).update_called,
        final(g).adding == old(g).adding,
        final(g).step_calls() == old(g).step_calls(),
        *final(c) == *old(c),
{
    g.render_called = bump(g.render_called);
    g.time_passed = if g.time_passed <= u64::MAX - d {
        g.time_passed + d
    } else {
        u64::MAX
    };
    Ok(LoopState::Continue)
}

impl Simulation<GlfwInputState, CanvasOn> for GameOn {
    closed spec fn step_calls(&self) -> Seq<StepCall> {
        self.calls@
    }

    fn update(&mut self, input: &GlfwInputState, canvas: &mut CanvasOn) -> (r: Result<LoopState, EngineError>) {
        let r = update(self, input, canvas);
        self.calls = Ghost(self.calls@.push(StepCall::Update(r)));
        r
    }

    fn render(&mut self, input: &GlfwInputState, canvas: &mut CanvasOn, delta: u64) -> (r: Result<LoopState, EngineError>) {
        let r = render(self, input, canvas, delta);
        self.calls = Ghost(self.calls@.push(StepCall::Render(delta, r)));
        r
    }
}

/// A simulation that follows a script, for exercising the scheduler: it
/// counts its updates and renders, keeps the delta of every render, and
/// exits or fails at the calls that the script names. `calls` logs the
/// step calls made on it.
pub struct Scripted {
    pub updates: usize,
    pub renders: usize,
    pub deltas: Vec<u64>,
    /// The update (counted from 1) that exits, and its exit code.
    pub exit_at_update: Option<(usize, i32)>,
    /// The update (counted from 1) that fails.
    pub fail_at_update: Option<usize>,
    /// The exit code that every render asks for, if any.
    pub exit_at_render: Option<i32>,
    /// Whether every render fails.
    pub fail_at_render: bool,
    pub calls: Ghost<Seq<StepCall>>,
}

impl Scripted {
    /// A script in which every step goes on.
    pub fn new() -> (r: Self)
        ensures
            r.updates == 0,
            r.renders == 0,
            r.deltas@ == Seq::<u64>::empty(),
            r.exit_at_update is None,
            r.fail_at_update is None,
            r.exit_at_render is None,
            !r.fail_at_render,
            r.step_calls() == Seq::<StepCall>::empty(),
    {
        Scripted {
            updates: 0,
            renders: 0,
            deltas: Vec::new(),
            exit_at_update: None,
            fail_at_update: None,
            exit_at_render: None,
            fail_at_render: false,
            calls: Ghost(Seq::empty()),
        }
    }
}

impl Simulation<GlfwInputState, CanvasOn> for Scripted {
    closed spec fn step_calls(&self) -> Seq<StepCall> {
        self.calls@
    }

    /// Counts the update; the n-th update fails if the script says so,
    /// else exits if the script says so, else goes on.
    fn update(&mut self, input: &GlfwInputState, canvas: &mut CanvasOn) -> (r: Result<LoopState, EngineError>)
        ensures
            final(self).updates == saturating_sum(old(self).updates, 1),
            final(self).renders == old(self).renders,
            final(self).deltas@ == old(self).deltas@,
            r is Err <==> old(self).fail_at_update == Some(final(self).updates),
            r is Ok ==> r == Ok::<LoopState, EngineError>(
                if old(self).exit_at_update is Some && old(self).exit_at_update->Some_0.0 == final(self).updates {
                    LoopState::Exit(old(self).exit_at_update->Some_0.1)
                } else {
                    LoopState::Continue
                },
            ),
    {
        self.updates = bump(self.updates);
        let r = if self.fail_at_update == Some(self.updates) {
            Err(EngineError::Step("update failed".to_string()))
        } else {
            match self.exit_at_update {
                Some((n, code)) => if n == self.updates {
                    Ok(LoopState::Exit(code))
                } else {
                    Ok(LoopState::Continue)
                },
                None => Ok(LoopState::Continue),
            }
        };
        self.calls = Ghost(self.calls@.push(StepCall::Update(r)));
        r
    }

    /// Counts the render and keeps its delta; fails if the script says so,
    /// else exits if the script says so, else goes on.
    fn render(&mut self, input: &GlfwInputState, canvas: &mut CanvasOn, delta: u64) -> (r: Result<LoopState, EngineError>)
        ensures
            final(self).renders == saturating_sum(old(self).renders, 1),
            final(self).updates == old(self).updates,
            final(self).deltas@ == old(self).deltas@.push(delta),
            r is Err <==> old(self).fail_at_render,
            r is Ok ==> r == Ok::<LoopState, EngineError>(
                match old(self).exit_at_render {
                    Some(code) => LoopState::Exit(code),
                    None => LoopState::Continue,
                },
            ),
    {
        self.renders = bump(self.renders);
        self.deltas.push(delta);
        let r = if self.fail_at_render {
            Err(EngineError::Step("render failed".to_string()))
        } else {
            match self.exit_at_render {
                Some(code) => Ok(LoopState::Exit(code)),
                None => Ok(LoopState::Continue),
            }
        };
        self.calls = Ghost(self.calls@.push(StepCall::Render(delta, r)));
        r
    }
}

} // verus!
