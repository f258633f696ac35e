//! The orchestrator: one iteration begins an input tick, drives one
//! scheduler tick and then records the events that the platform delivered,
//! dispatching resizes and the quit key; teardown ends the input and the
//! canvas and hands the exit code to the caller.
//!
//! An exit asked for by a step ends the iteration before the events are
//! drained, so its code is never overwritten; a press of the quit key
//! (`ESCAPE`) in an iteration that went on ends the run with code 0.
use crate::engine::canvas::{CanvasCall, RenderableCanvas};
use crate::engine::error::EngineError;
use crate::engine::input::glfw_input::{capture_event, captured, PlatformEvent};
use crate::engine::input::{
    key_event, record, EventState, InputCall, InputState, KeySets, KeyboardAction, KeyboardKey,
};
use crate::engine::render_loop::{
    calls_since, clock_ticked, extends, lifecycle_ran, Lifecycle, LoopState, RenderLoop, Simulation,
};
use vstd::prelude::*;

verus! {

/// Where the orchestrator stands: running, tearing down with an exit code,
/// or terminated with it. There is no way back to `Running`.
#[derive(Debug, Clone, Copy, PartialEq, Eq, Structural)]
pub enum Phase {
    Running,
    TearingDown(i32),
    Terminated(i32),
}

/// Whether a platform event is a press of the quit key.
pub open spec fn is_quit_press(event: PlatformEvent) -> bool {
    captured(event) == Some(key_event(KeyboardKey::ESCAPE, KeyboardAction::PRESS))
}

/// Whether any of the events presses the quit key.
pub open spec fn quit_requested(events: Seq<PlatformEvent>) -> bool {
    exists|i: int| 0 <= i < events.len() && is_quit_press(#[trigger] events[i])
}

/// Whether a platform event moves or resizes the window.
pub open spec fn is_resize(event: PlatformEvent) -> bool {
    event is Pos || event is FramebufferSize
}

/// How many of the events move or resize the window.
pub open spec fn resize_count(events: Seq<PlatformEvent>) -> nat
    decreases events.len(),
{
    if events.len() == 0 {
        0
    } else {
        resize_count(events.drop_last()) + if is_resize(events.last()) {
            1nat
        } else {
            0nat
        }
    }
}

/// The key state after recording the events in order, the edges being
/// cleared first when `clear` is set.
pub open spec fn record_all(s: KeySets, clear: bool, events: Seq<PlatformEvent>) -> KeySets
    decreases events.len(),
{
    if events.len() == 0 {
        s
    } else {
        record(
            record_all(s, clear, events.drop_last()),
            clear && events.len() == 1,
            captured(events.last()),
        )
    }
}

/// Whether a platform event presses the quit key.
pub fn quit_pressed(event: &PlatformEvent) -> (r: bool)
    ensures
        r == is_quit_press(*event),
{
    match capture_event(event) {
        Some(EventState { key: Some(KeyboardKey::ESCAPE), action: KeyboardAction::PRESS }) => true,
        _ => false,
    }
}

/// Whether a platform event moves or resizes the window.
pub fn resizes(event: &PlatformEvent) -> (r: bool)
    ensures
        r == is_resize(*event),
{
    match event {
        PlatformEvent::Pos { .. } | PlatformEvent::FramebufferSize { .. } => true,
        _ => false,
    }
}

/// The composition root: the scheduler, with the input and canvas it owns,
/// and the phase of the run.
pub struct World<G, I, C> {
    render_loop: RenderLoop<G, I, C>,
    phase: Phase,
}

impl<G: Simulation<I, C>, I: InputState, C: RenderableCanvas> World<G, I, C> {
    pub closed spec fn spec_phase(&self) -> Phase {
        self.phase
    }

    pub closed spec fn spec_render_loop(&self) -> RenderLoop<G, I, C> {
        self.render_loop
    }

    /// The scheduler's clock is well formed.
    pub open spec fn wf(&self) -> bool {
        self.spec_render_loop().clock().wf()
    }

    /// The effect of one iteration on `events` that read the clock at `now`
    /// and ended with `r`. The input's tick began, and its answer `began`
    /// was recorded. If it did not go on, it is `r`, and nothing else ran.
    /// Otherwise one scheduler tick ran (see `clock_ticked`); if the tick
    /// went on, the events were recorded in order after it, the lazy clear
    /// coming first, and the canvas was told of each move or resize, its
    /// last calls being those resizes; if it did not, no event was recorded.
    /// An exit moves to teardown with its code, a press of the quit key in
    /// an iteration that went on to teardown with code 0, and a failure
    /// leaves the world running.
    pub open spec fn iterated(
        self,
        next: Self,
        now: u64,
        events: Seq<PlatformEvent>,
        r: Result<LoopState, EngineError>,
    ) -> bool {
        let lp = self.spec_render_loop();
        let nl = next.spec_render_loop();
        let began = nl.input_state().input_calls().last()->Next_0;
        let steps = lp.game_state().step_calls();
        let canvas = nl.canvas_state().canvas_calls();
        let m = resize_count(events);
        &&& next.wf()
        &&& nl.input_state().input_calls() == lp.input_state().input_calls().push(InputCall::Next(began))
        &&& if began != Ok::<LoopState, EngineError>(LoopState::Continue) {
            &&& r == began
            &&& nl.clock() == lp.clock()
            &&& nl.game_state() == lp.game_state()
            &&& nl.canvas_state() == lp.canvas_state()
            &&& nl.input_state().keys() == lp.input_state().keys()
        } else {
            &&& extends(steps, nl.game_state().step_calls())
            &&& clock_ticked(
                lp.clock(),
                nl.clock(),
                nl.spec_last_tick(),
                calls_since(steps, nl.game_state().step_calls()),
                now,
                r,
            )
            &&& r == Ok::<LoopState, EngineError>(LoopState::Continue) ==> {
                &&& nl.input_state().keys() == record_all(lp.input_state().keys(), true, events)
                &&& canvas.len() >= m
                &&& forall|i: int| canvas.len() - m <= i < canvas.len() ==> #[trigger] canvas[i] is Resize
            }
            &&& r != Ok::<LoopState, EngineError>(LoopState::Continue) ==> nl.input_state().keys()
                == lp.input_state().keys()
        }
        &&& next.spec_phase() == match r {
            Ok(LoopState::Continue) => if quit_requested(events) {
                Phase::TearingDown(0)
            } else {
                Phase::Running
            },
            Ok(LoopState::Exit(code)) => Phase::TearingDown(code),
            Err(_) => Phase::Running,
        }
    }

    /// A running world around a scheduler.
    pub fn new(render_loop: RenderLoop<G, I, C>) -> (r: Self)
        ensures
            r.spec_phase() == Phase::Running,
            r.spec_render_loop() == render_loop,
    {
        World { render_loop, phase: Phase::Running }
    }

    /// Starts the input, then the canvas, before the first iteration; the
    /// first failure is handed back as it came.
    pub fn on_start(&mut self) -> (r: Result<(), EngineError>)
        requires
            old(self).wf(),
        ensures
            final(self).wf(),
            final(self).spec_phase() == old(self).spec_phase(),
            final(self).spec_render_loop().input_state().keys() == old(self).spec_render_loop().input_state().keys(),
            final(self).spec_render_loop().game_state() == old(self).spec_render_loop().game_state(),
            lifecycle_ran(
                Lifecycle::Start,
                old(self).spec_render_loop().input_state().input_calls(),
                final(self).spec_render_loop().input_state().input_calls(),
                old(self).spec_render_loop().canvas_state().canvas_calls(),
                final(self).spec_render_loop().canvas_state().canvas_calls(),
                r,
            ),
    {
        self.render_loop.on_start()
    }

    /// One iteration with the clock read at `now`, on the events that the
    /// platform delivered: begin an input tick; run one scheduler tick;
    /// unless a step asked to exit or failed, record each event in order,
    /// tell the canvas of each move or resize, and tear down with code 0 if
    /// the quit key was pressed. An exit moves to teardown with its code; a
    /// failure is handed back and the world keeps running, for the caller to
    /// decide.
    pub fn step_at(&mut self, now: u64, events: &Vec<PlatformEvent>) -> (r: Result<LoopState, EngineError>)
        requires
            old(self).wf(),
            old(self).spec_phase() == Phase::Running,
        ensures
            old(self).iterated(*final(self), now, events@, r),
    {
        let began = self.render_loop.begin_tick();
        match began {
            Err(e) => {
                return Err(e);
            },
            Ok(LoopState::Exit(code)) => {
                self.phase = Phase::TearingDown(code);
                return Ok(LoopState::Exit(code));
            },
            Ok(LoopState::Continue) => {},
        }
        let ghost keys = self.render_loop.input_state().keys();
        let r = self.render_loop.tick(now);
        match r {
            Err(e) => {
                return Err(e);
            },
            Ok(LoopState::Exit(code)) => {
                self.phase = Phase::TearingDown(code);
                return Ok(LoopState::Exit(code));
            },
            Ok(LoopState::Continue) => {},
        }
        let ghost ticked = self.render_loop;
        let ghost mid = self.render_loop.canvas_state().canvas_calls();
        let ghost mut resized: Seq<CanvasCall> = Seq::empty();
        let mut i: usize = 0;
        while i < events.len()
            invariant
                0 <= i <= events.len(),
                self.render_loop.clock() == ticked.clock(),
                self.render_loop.spec_last_tick() == ticked.spec_last_tick(),
                self.render_loop.game_state() == ticked.game_state(),
                self.render_loop.input_state().input_calls() == ticked.input_state().input_calls(),
                self.render_loop.input_state().keys() == record_all(keys, true, events@.take(i as int)),
                self.render_loop.input_state().clear_pending() == (i == 0),
                self.render_loop.canvas_state().canvas_calls() == mid + resized,
                resized.len() == resize_count(events@.take(i as int)),
                forall|j: int| 0 <= j < resized.len() ==> #[trigger] resized[j] is Resize,
                self.phase == if quit_requested(events@.take(i as int)) {
                    Phase::TearingDown(0)
                } else {
                    Phase::Running
                },
            decreases events.len() - i,
        {
            let event = &events[i];
            self.render_loop.record_event(capture_event(event));
            if quit_pressed(event) {
                self.phase = Phase::TearingDown(0);
            }
            if resizes(event) {
                let answer = self.render_loop.on_resize();
                proof {
                    resized = resized.push(CanvasCall::Resize(answer));
                }
            }
            proof {
                let next = events@.take(i + 1);
                assert(next.drop_last() =~= events@.take(i as int));
                assert(next.last() == events@[i as int]);
                assert(self.render_loop.canvas_state().canvas_calls() =~= mid + resized);
                if quit_requested(next) && !quit_requested(events@.take(i as int)) {
                    let j = choose|j: int| 0 <= j < next.len() && is_quit_press(#[trigger] next[j]);
                    assert(j == i);
                }
                if quit_requested(events@.take(i as int)) {
                    let j = choose|j: int| 0 <= j < i && is_quit_press(#[trigger] events@.take(i as int)[j]);
                    assert(next[j] == events@.take(i as int)[j]);
                }
                if is_quit_press(events@[i as int]) {
                    assert(next[i as int] == events@[i as int]);
                }
            }
            i = i + 1;
        }
        proof {
            assert(events@.take(events@.len() as int) =~= events@);
            let canvas = self.render_loop.canvas_state().canvas_calls();
            assert forall|j: int| canvas.len() - resized.len() <= j < canvas.len() implies #[trigger] canvas[j] is Resize by {
                assert(canvas[j] == resized[j - mid.len()]);
            }
        }
        Ok(LoopState::Continue)
    }

    /// One iteration with the clock read now; it has the effect that
    /// `step_at` states for the reading that it took.
    pub fn step(&mut self, events: &Vec<PlatformEvent>) -> (r: Result<LoopState, EngineError>)
        requires
            old(self).wf(),
            old(self).spec_phase() == Phase::Running,
        ensures
            old(self).iterated(*final(self), final(self).spec_render_loop().clock().current_time, events@, r),
    {
        let now = self.render_loop.now();
        self.step_at(now, events)
    }

    /// The platform reports the window closed: a running world moves to
    /// teardown with code 0; otherwise nothing changes.
    pub fn request_close(&mut self)
        ensures
            final(self).spec_render_loop() == old(self).spec_render_loop(),
            final(self).spec_phase() == match old(self).spec_phase() {
                Phase::Running => Phase::TearingDown(0),
                other => other,
            },
    {
        if let Phase::Running = self.phase {
            self.phase = Phase::TearingDown(0);
        }
    }

    /// Teardown: ends the input, then the canvas, and terminates with the
    /// exit code, which is handed back for the caller to end the process
    /// with. A failing hook is handed back as it came and the world stays
    /// in teardown.
    pub fn shutdown(&mut self) -> (r: Result<i32, EngineError>)
        requires
            old(self).spec_phase() is TearingDown,
        ensures
            final(self).wf() == old(self).wf(),
            r matches Ok(code) ==> old(self).spec_phase() == Phase::TearingDown(code)
                && final(self).spec_phase() == Phase::Terminated(code),
            r is Err ==> final(self).spec_phase() == old(self).spec_phase(),
            lifecycle_ran(
                Lifecycle::End,
                old(self).spec_render_loop().input_state().input_calls(),
                final(self).spec_render_loop().input_state().input_calls(),
                old(self).spec_render_loop().canvas_state().canvas_calls(),
                final(self).spec_render_loop().canvas_state().canvas_calls(),
                match r {
                    Ok(_) => Ok(()),
                    Err(e) => Err(e),
                },
            ),
    {
        let code = match self.phase {
            Phase::TearingDown(code) => code,
            _ => 0,
        };
        let code = self.render_loop.on_end(code)?;
        self.phase = Phase::Terminated(code);
        Ok(code)
    }

    pub fn phase(&self) -> (r: Phase)
        ensures
            r == self.spec_phase(),
    {
        self.phase
    }

    pub fn render_loop(&self) -> (r: &RenderLoop<G, I, C>)
        ensures
            *r == self.spec_render_loop(),
    {
        &self.render_loop
    }
}

} // verus!
