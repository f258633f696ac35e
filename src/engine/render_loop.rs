//! The frame scheduler: a fixed-timestep accumulator that runs zero or more
//! updates and exactly one render per tick.
use crate::engine::canvas::{CanvasCall, RenderableCanvas};
use crate::engine::error::EngineError;
use crate::engine::input::{record, EventState, InputCall, InputState};
use std::time::{Duration, Instant};
use vstd::prelude::*;

verus! {

/// What a step asks of the loop: go on, or stop with an exit code.
#[derive(Debug, Clone, Copy, PartialEq, Eq, Structural)]
pub enum LoopState {
    Continue,
    Exit(i32),
}

/// Nanoseconds in one second.
pub const NANOS_PER_SECOND: u64 = 1_000_000_000;

/// The largest wall-clock delta, in nanoseconds, that one tick accounts
/// for (100 ms); longer pauses are clamped to it.
pub const MAX_FRAME_DELTA: u64 = 100_000_000;

/// `round(1e9 / rate)`, halves rounded up, in nanoseconds.
pub open spec fn rounded_timestep(rate: nat) -> nat
    recommends
        rate > 0,
{
    (2 * NANOS_PER_SECOND + rate) as nat / (2 * rate)
}

/// The rates whose rounded timestep is positive.
pub open spec fn valid_rate(rate: nat) -> bool {
    0 < rate <= 2 * NANOS_PER_SECOND
}

/// The rounded timestep is the integer nearest to `1e9 / rate`, a half
/// rounded up: `|timestep - 1e9 / rate| <= 1/2`, written without division
/// as `-rate < 2 * rate * timestep - 2e9 <= rate`.
pub proof fn lemma_rounded_timestep_nearest(rate: nat)
    requires
        rate > 0,
    ensures
        2 * rate * rounded_timestep(rate) <= 2 * NANOS_PER_SECOND + rate,
        2 * NANOS_PER_SECOND < 2 * rate * rounded_timestep(rate) + rate,
{
    let n = (2 * NANOS_PER_SECOND + rate) as int;
    let d = 2 * rate as int;
    let q = n / d;
    vstd::arithmetic::div_mod::lemma_fundamental_div_mod(n, d);
    vstd::arithmetic::div_mod::lemma_mod_bound(n, d);
    assert(d * q <= n < d * q + d);
}

/// The wall-clock delta between two readings, clamped to `MAX_FRAME_DELTA`;
/// a reading earlier than the previous one counts as no time.
pub open spec fn clamped_delta(previous: u64, now: u64) -> u64 {
    if now <= previous {
        0
    } else if now - previous > MAX_FRAME_DELTA {
        MAX_FRAME_DELTA
    } else {
        (now - previous) as u64
    }
}

/// How many updates one tick runs on an accumulator `acc`: while the
/// accumulator is strictly greater than the timestep, one update, and the
/// accumulator shrinks by the timestep.
pub open spec fn update_count(acc: nat, timestep: nat) -> nat
    decreases acc,
{
    if timestep > 0 && acc > timestep {
        1 + update_count((acc - timestep) as nat, timestep)
    } else {
        0
    }
}

/// What remains of the accumulator `acc` after the updates of one tick.
pub open spec fn remainder(acc: nat, timestep: nat) -> nat {
    (acc - update_count(acc, timestep) * timestep) as nat
}

/// The number of updates in one tick is the number of times the timestep
/// can be taken off the accumulator while the accumulator is strictly
/// greater than the timestep beforehand: none for an accumulator no greater
/// than the timestep, `(acc - 1) / timestep` for any positive accumulator,
/// leaving a remainder in `(0, timestep]` when at least one update ran.
pub proof fn lemma_update_count(acc: nat, timestep: nat)
    requires
        timestep > 0,
    ensures
        acc <= timestep ==> update_count(acc, timestep) == 0,
        acc > 0 ==> update_count(acc, timestep) == (acc - 1) as nat / timestep,
        acc > timestep ==> 0 < remainder(acc, timestep) <= timestep,
        update_count(acc, timestep) * timestep <= acc,
    decreases acc,
{
    if acc > timestep {
        let rest = (acc - timestep) as nat;
        lemma_update_count(rest, timestep);
        let q: int = (rest - 1) as int / timestep as int;
        let r: int = (rest - 1) as int % timestep as int;
        vstd::arithmetic::div_mod::lemma_fundamental_div_mod((rest - 1) as int, timestep as int);
        assert((acc - 1) as int == (q + 1) * timestep + r) by (nonlinear_arith)
            requires
                (rest - 1) as int == timestep * q + r,
                acc == rest + timestep,
                rest >= 1,
        ;
        vstd::arithmetic::div_mod::lemma_fundamental_div_mod_converse(
            (acc - 1) as int,
            timestep as int,
            q + 1,
            r,
        );
        assert(update_count(acc, timestep) * timestep == timestep + update_count(rest, timestep)
            * timestep) by (nonlinear_arith)
            requires
                update_count(acc, timestep) == 1 + update_count(rest, timestep),
        ;
    } else if acc > 0 {
        vstd::arithmetic::div_mod::lemma_fundamental_div_mod_converse(
            (acc - 1) as int,
            timestep as int,
            0,
            (acc - 1) as int,
        );
    }
}

/// The readings and the accumulator of a frame clock, in nanoseconds.
pub struct ClockView {
    pub current_time: u64,
    pub last_time: u64,
    pub accumulator: u64,
    pub update_timestep: u64,
}

impl ClockView {
    /// The timestep is positive (and at most a second); the accumulator
    /// holds at most one timestep and one clamped delta.
    pub open spec fn wf(self) -> bool {
        &&& 0 < self.update_timestep <= NANOS_PER_SECOND
        &&& self.accumulator <= self.update_timestep + MAX_FRAME_DELTA
    }
}

/// Readings of a monotonic clock, in nanoseconds from an origin, and the
/// elapsed time not yet consumed by updates.
pub struct FrameClock {
    current_time: u64,
    last_time: u64,
    accumulator: u64,
    update_timestep: u64,
}

impl View for FrameClock {
    type V = ClockView;

    closed spec fn view(&self) -> ClockView {
        ClockView {
            current_time: self.current_time,
            last_time: self.last_time,
            accumulator: self.accumulator,
            update_timestep: self.update_timestep,
        }
    }
}

impl FrameClock {
    /// A clock at the origin with an empty accumulator, ticking `rate` times
    /// a second; fails when the rate gives no positive timestep (a rate of
    /// zero, or above two billion).
    pub fn new(rate: usize) -> (r: Result<FrameClock, EngineError>)
        ensures
            r is Ok <==> valid_rate(rate as nat),
            r matches Ok(c) ==> c@ == (ClockView {
                current_time: 0,
                last_time: 0,
                accumulator: 0,
                update_timestep: rounded_timestep(rate as nat) as u64,
            }),
            r matches Ok(c) ==> c@.wf(),
            r matches Err(e) ==> e == EngineError::InvalidRate,
    {
        let rate = rate as u64;
        if rate == 0 || rate > 2 * NANOS_PER_SECOND {
            return Err(EngineError::InvalidRate);
        }
        let timestep = (2 * NANOS_PER_SECOND + rate) / (2 * rate);
        proof {
            lemma_timestep_bounds(rate as nat);
        }
        Ok(FrameClock { current_time: 0, last_time: 0, accumulator: 0, update_timestep: timestep })
    }

    /// Takes a new reading: the current one becomes the last, and the clamped
    /// delta between them is returned.
    pub fn advance(&mut self, now: u64) -> (delta: u64)
        ensures
            delta == clamped_delta(old(self)@.current_time, now),
            delta <= MAX_FRAME_DELTA,
            final(self)@ == (ClockView {
                current_time: now,
                last_time: old(self)@.current_time,
                ..old(self)@
            }),
    {
        self.last_time = self.current_time;
        self.current_time = now;
        if now <= self.last_time {
            0
        } else if now - self.last_time > MAX_FRAME_DELTA {
            MAX_FRAME_DELTA
        } else {
            now - self.last_time
        }
    }

    /// Whether another update is due: the accumulator is strictly greater
    /// than the timestep.
    pub fn update_due(&self) -> (r: bool)
        ensures
            r == (self@.accumulator > self@.update_timestep),
    {
        self.accumulator > self.update_timestep
    }

    /// Takes one timestep off the accumulator.
    pub fn consume_update(&mut self)
        requires
            old(self)@.accumulator > old(self)@.update_timestep,
        ensures
            final(self)@ == (ClockView {
                accumulator: (old(self)@.accumulator - old(self)@.update_timestep) as u64,
                ..old(self)@
            }),
    {
        self.accumulator = self.accumulator - self.update_timestep;
    }

    /// Adds an elapsed delta to the accumulator once the due updates ran.
    pub fn accumulate(&mut self, delta: u64)
        requires
            old(self)@.wf(),
            old(self)@.accumulator <= old(self)@.update_timestep,
            delta <= MAX_FRAME_DELTA,
        ensures
            final(self)@ == (ClockView {
                accumulator: (old(self)@.accumulator + delta) as u64,
                ..old(self)@
            }),
            final(self)@.wf(),
    {
        self.accumulator = self.accumulator + delta;
    }

    pub fn accumulator(&self) -> (r: u64)
        ensures
            r == self@.accumulator,
    {
        self.accumulator
    }

    pub fn update_timestep(&self) -> (r: u64)
        ensures
            r == self@.update_timestep,
    {
        self.update_timestep
    }

    pub fn current_time(&self) -> (r: u64)
        ensures
            r == self@.current_time,
    {
        self.current_time
    }

    pub fn last_time(&self) -> (r: u64)
        ensures
            r == self@.last_time,
    {
        self.last_time
    }
}

/// For a valid rate the rounded timestep lies in `[1, NANOS_PER_SECOND]`.
proof fn lemma_timestep_bounds(rate: nat)
    requires
        valid_rate(rate),
    ensures
        1 <= rounded_timestep(rate) <= NANOS_PER_SECOND,
{
    let n = (2 * NANOS_PER_SECOND + rate) as nat;
    vstd::arithmetic::div_mod::lemma_div_is_ordered(2 * rate as int, n as int, 2 * rate as int);
    vstd::arithmetic::div_mod::lemma_div_by_self(2 * rate as int);
    let q = n as int / (2 * rate as int);
    vstd::arithmetic::div_mod::lemma_fundamental_div_mod(n as int, 2 * rate as int);
    vstd::arithmetic::div_mod::lemma_mod_bound(n as int, 2 * rate as int);
    assert(q <= NANOS_PER_SECOND) by (nonlinear_arith)
        requires
            n as int == 2 * rate * q + n as int % (2 * rate as int),
            0 <= n as int % (2 * rate as int),
            n == 2 * NANOS_PER_SECOND + rate,
            rate >= 1,
    ;
}

/// std::time::Instant, carried opaquely as the origin of the loop's clock.
#[verifier::external_type_specification]
#[verifier::external_body]
pub struct ExInstant(Instant);

/// Relies on std::time::Instant::now: a reading of the monotonic clock,
/// used as the origin that later readings are measured from.
pub assume_specification[ Instant::now ]() -> Instant;

/// Relies on std::time::Instant::elapsed: the time since `self` on the
/// monotonic clock; nothing is promised of its value.
pub assume_specification[ Instant::elapsed ](instant: &Instant) -> Duration;

/// Relies on std::time::Duration::as_nanos: the duration in whole
/// nanoseconds; nothing is promised of its value here.
pub assume_specification[ Duration::as_nanos ](duration: &Duration) -> u128;

/// One call of a simulation step, with what it returned; a render call
/// also holds the delta it was handed.
pub enum StepCall {
    Update(Result<LoopState, EngineError>),
    Render(u64, Result<LoopState, EngineError>),
}

/// What a step call returned.
pub open spec fn step_result(c: StepCall) -> Result<LoopState, EngineError> {
    match c {
        StepCall::Update(r) => r,
        StepCall::Render(_, r) => r,
    }
}

/// Whether a step call asked the loop to go on.
pub open spec fn continued(c: StepCall) -> bool {
    step_result(c) == Ok::<LoopState, EngineError>(LoopState::Continue)
}

/// The calls appended to the log `before` to give the log `after`.
pub open spec fn calls_since(before: Seq<StepCall>, after: Seq<StepCall>) -> Seq<StepCall> {
    after.skip(before.len() as int)
}

/// Whether the log `after` is the log `before` with calls appended.
pub open spec fn extends(before: Seq<StepCall>, after: Seq<StepCall>) -> bool {
    after == before + calls_since(before, after)
}

/// The simulation that the loop drives: an update at each fixed timestep
/// and one render per tick, both reading the input and drawing on the
/// canvas. Either may ask the loop to exit, or fail. Each call is recorded,
/// with its result, in the simulation's call log.
pub trait Simulation<I, C> {
    /// The step calls made on this simulation so far, oldest first.
    spec fn step_calls(&self) -> Seq<StepCall>;

    fn update(&mut self, input: &I, canvas: &mut C) -> (r: Result<LoopState, EngineError>)
        ensures
            final(self).step_calls() == old(self).step_calls().push(StepCall::Update(r)),
    ;

    /// `delta` is the clamped wall-clock time of this tick, in nanoseconds.
    fn render(&mut self, input: &I, canvas: &mut C, delta: u64) -> (r: Result<LoopState, EngineError>)
        ensures
            final(self).step_calls() == old(self).step_calls().push(StepCall::Render(delta, r)),
    ;
}

/// What the last tick did: how many updates it invoked, whether it invoked
/// the render step, and the clamped delta of the tick, in nanoseconds.
#[derive(Debug, Clone, Copy, PartialEq, Eq, Structural)]
pub struct TickReport {
    pub updates: u64,
    pub rendered: bool,
    pub delta: u64,
}

/// The effect of one tick that read the clock at `now`, made the step
/// calls `calls` and ended with `r`. The clock advanced to `now`, and `d`
/// is the clamped delta. The calls are `report.updates` updates, then one
/// render with `d` if `report.rendered`; every call but the last went on.
/// On `Continue` all due updates ran, the render ran and went on, and `d`
/// was added to what the updates left. Otherwise `r` is the last call's
/// result as it came: from the k-th update, with k - 1 timesteps consumed
/// and no render; or from the render after all due updates, with nothing
/// added to the accumulator.
pub open spec fn clock_ticked(
    before: ClockView,
    after: ClockView,
    report: TickReport,
    calls: Seq<StepCall>,
    now: u64,
    r: Result<LoopState, EngineError>,
) -> bool {
    let acc = before.accumulator as nat;
    let step = before.update_timestep as nat;
    let due = update_count(acc, step);
    let d = clamped_delta(before.current_time, now);
    &&& after.wf()
    &&& after.update_timestep == before.update_timestep
    &&& after.last_time == before.current_time
    &&& after.current_time == now
    &&& report.delta == d
    &&& calls.len() == report.updates + if report.rendered { 1int } else { 0int }
    &&& forall|i: int| 0 <= i < report.updates ==> #[trigger] calls[i] is Update
    &&& report.rendered ==> calls.last() == StepCall::Render(d, step_result(calls.last()))
    &&& forall|i: int| 0 <= i < calls.len() - 1 ==> continued(#[trigger] calls[i])
    &&& match r {
        Ok(LoopState::Continue) => {
            &&& report.updates == due
            &&& report.rendered
            &&& continued(calls.last())
            &&& after.accumulator == remainder(acc, step) + d
        },
        _ => {
            &&& calls.len() >= 1
            &&& step_result(calls.last()) == r
            &&& {
                ||| {
                    &&& !report.rendered
                    &&& 1 <= report.updates <= due
                    &&& after.accumulator == acc - (report.updates - 1) * step
                }
                ||| {
                    &&& report.rendered
                    &&& report.updates == due
                    &&& after.accumulator == remainder(acc, step)
                }
            }
        },
    }
}

/// Bounded catch-up: with an accumulator of at most one timestep and one
/// clamped delta, as every well-formed clock has, one tick runs at most
/// `1 + MAX_FRAME_DELTA / timestep` updates.
pub proof fn lemma_catch_up_bound(acc: nat, timestep: nat)
    requires
        timestep > 0,
        acc <= timestep + MAX_FRAME_DELTA,
    ensures
        update_count(acc, timestep) <= 1 + MAX_FRAME_DELTA as nat / timestep,
{
    lemma_update_count(acc, timestep);
    if acc > timestep {
        let m = MAX_FRAME_DELTA as int;
        vstd::arithmetic::div_mod::lemma_div_is_ordered((acc - 1) as int, timestep + m, timestep as int);
        vstd::arithmetic::div_mod::lemma_div_plus_one(m, timestep as int);
    }
}

proof fn lemma_concat_skip(a: Seq<StepCall>, b: Seq<StepCall>)
    ensures
        calls_since(a, a + b) == b,
        extends(a, a + b),
{
    assert((a + b).skip(a.len() as int) =~= b);
}

/// The two lifecycle hooks that run on both the input and the canvas.
pub enum Lifecycle {
    Start,
    End,
}

/// The input's call of a lifecycle hook that returned `r`.
pub open spec fn input_hook(stage: Lifecycle, r: Result<(), EngineError>) -> InputCall {
    match stage {
        Lifecycle::Start => InputCall::Start(r),
        Lifecycle::End => InputCall::End(r),
    }
}

/// The canvas's call of a lifecycle hook that returned `r`.
pub open spec fn canvas_hook(stage: Lifecycle, r: Result<(), EngineError>) -> CanvasCall {
    match stage {
        Lifecycle::Start => CanvasCall::Start(r),
        Lifecycle::End => CanvasCall::End(r),
    }
}

/// A lifecycle hook ran on the input, then, if the input succeeded, on the
/// canvas: each log grew by that call with its result, and `r` is the first
/// failure as it came, or success.
pub open spec fn lifecycle_ran(
    stage: Lifecycle,
    input_before: Seq<InputCall>,
    input_after: Seq<InputCall>,
    canvas_before: Seq<CanvasCall>,
    canvas_after: Seq<CanvasCall>,
    r: Result<(), EngineError>,
) -> bool {
    ||| {
        &&& r is Err
        &&& input_after == input_before.push(input_hook(stage, r))
        &&& canvas_after == canvas_before
    }
    ||| {
        &&& input_after == input_before.push(input_hook(stage, Ok(())))
        &&& canvas_after == canvas_before.push(canvas_hook(stage, r))
    }
}

/// The frame scheduler: a clock, the simulation it drives, the input state
/// the simulation reads, and the canvas it draws on.
pub struct RenderLoop<G, I, C> {
    clock: FrameClock,
    origin: Instant,
    last_tick: TickReport,
    game: G,
    input: I,
    canvas: C,
}

impl<G: Simulation<I, C>, I: InputState, C: RenderableCanvas> RenderLoop<G, I, C> {
    pub closed spec fn clock(&self) -> ClockView {
        self.clock@
    }

    pub closed spec fn spec_last_tick(&self) -> TickReport {
        self.last_tick
    }

    pub closed spec fn input_state(&self) -> I {
        self.input
    }

    pub closed spec fn game_state(&self) -> G {
        self.game
    }

    pub closed spec fn canvas_state(&self) -> C {
        self.canvas
    }

    /// The effect of one tick that read the clock at `now` and ended with
    /// `r` (see `clock_ticked`), over the step calls it appended to the
    /// simulation's log; the input state is left as it was.
    pub open spec fn ticked(self, next: Self, now: u64, r: Result<LoopState, EngineError>) -> bool {
        let before = self.game_state().step_calls();
        let after = next.game_state().step_calls();
        &&& extends(before, after)
        &&& clock_ticked(self.clock(), next.clock(), next.spec_last_tick(), calls_since(before, after), now, r)
        &&& next.input_state() == self.input_state()
    }

    /// A loop ticking `fps` times a second, its clock at the origin with an
    /// empty accumulator; fails when the rate gives no positive timestep.
    pub fn new(fps: usize, game: G, input: I, canvas: C) -> (r: Result<Self, EngineError>)
        ensures
            r is Ok <==> valid_rate(fps as nat),
            r matches Ok(l) ==> l.clock() == (ClockView {
                current_time: 0,
                last_time: 0,
                accumulator: 0,
                update_timestep: rounded_timestep(fps as nat) as u64,
            }),
            r matches Ok(l) ==> {
                &&& l.clock().wf()
                &&& l.input_state() == input
                &&& l.game_state() == game
                &&& l.canvas_state() == canvas
            },
            r matches Err(e) ==> e == EngineError::InvalidRate,
    {
        let clock = FrameClock::new(fps)?;
        Ok(RenderLoop {
            clock,
            origin: Instant::now(),
            last_tick: TickReport { updates: 0, rendered: false, delta: 0 },
            game,
            input,
            canvas,
        })
    }

    /// One tick with the clock read at `now` (nanoseconds from the origin):
    /// advance the clock, run the due updates, render once with the clamped
    /// delta, then accumulate that delta. An exit or a failure from a step
    /// ends the tick at once and is handed back as it came.
    pub fn tick(&mut self, now: u64) -> (r: Result<LoopState, EngineError>)
        requires
            old(self).clock().wf(),
        ensures
            old(self).ticked(*final(self), now, r),
    {
        let ghost acc = self.clock@.accumulator as nat;
        let ghost step = self.clock@.update_timestep as nat;
        let ghost due = update_count(acc, step);
        let ghost before = self.game.step_calls();
        let ghost mut made: Seq<StepCall> = Seq::empty();
        proof {
            lemma_update_count(acc, step);
        }
        assert(due <= acc) by (nonlinear_arith)
            requires
                due * step <= acc,
                step >= 1,
        ;
        let delta = self.clock.advance(now);
        self.last_tick = TickReport { updates: 0, rendered: false, delta };
        while self.clock.update_due()
            invariant
                self.clock@.wf(),
                self.clock@.update_timestep == step,
                self.clock@.current_time == now,
                self.clock@.last_time == old(self).clock@.current_time,
                self.input == old(self).input,
                self.last_tick.delta == delta,
                delta == clamped_delta(old(self).clock@.current_time, now),
                !self.last_tick.rendered,
                acc == old(self).clock@.accumulator,
                step == old(self).clock@.update_timestep,
                due == update_count(acc, step),
                before == old(self).game.step_calls(),
                self.game.step_calls() == before + made,
                made.len() == self.last_tick.updates,
                forall|i: int| 0 <= i < made.len() ==> #[trigger] made[i] == StepCall::Update(
                    Ok(LoopState::Continue),
                ),
                self.last_tick.updates <= due,
                due <= acc,
                self.clock@.accumulator == acc - self.last_tick.updates * step,
                update_count(self.clock@.accumulator as nat, step) + self.last_tick.updates == due,
            decreases self.clock@.accumulator,
        {
            let r = self.game.update(&self.input, &mut self.canvas);
            self.last_tick.updates = self.last_tick.updates + 1;
            proof {
                made = made.push(StepCall::Update(r));
                assert(self.game.step_calls() =~= before + made);
                lemma_concat_skip(before, made);
            }
            match r {
                Err(e) => {
                    return Err(e);
                },
                Ok(LoopState::Exit(code)) => {
                    return Ok(LoopState::Exit(code));
                },
                Ok(LoopState::Continue) => {},
            }
            proof {
                assert((self.last_tick.updates - 1) * step + step == self.last_tick.updates * step)
                    by (nonlinear_arith);
            }
            self.clock.consume_update();
        }
        proof {
            lemma_update_count(self.clock@.accumulator as nat, step);
        }
        let r = self.game.render(&self.input, &mut self.canvas, delta);
        self.last_tick.rendered = true;
        proof {
            made = made.push(StepCall::Render(delta, r));
            assert(self.game.step_calls() =~= before + made);
            lemma_concat_skip(before, made);
        }
        match r {
            Err(e) => {
                return Err(e);
            },
            Ok(LoopState::Exit(code)) => {
                return Ok(LoopState::Exit(code));
            },
            Ok(LoopState::Continue) => {},
        }
        self.clock.accumulate(delta);
        Ok(LoopState::Continue)
    }

    /// One tick with the clock read now. Whatever the reading, the tick has
    /// the effect that `tick` states for it.
    pub fn on_loop(&mut self) -> (r: Result<LoopState, EngineError>)
        requires
            old(self).clock().wf(),
        ensures
            old(self).ticked(*final(self), final(self).clock().current_time, r),
    {
        let now = self.now();
        self.tick(now)
    }

    /// Nanoseconds from the loop's origin on the monotonic clock, saturated
    /// at `u64::MAX`.
    pub fn now(&self) -> u64 {
        let elapsed = self.origin.elapsed().as_nanos();
        if elapsed > u64::MAX as u128 {
            u64::MAX
        } else {
            elapsed as u64
        }
    }

    /// Tells the canvas of a pending resize and hands back its answer; the
    /// scheduler itself holds no geometry.
    pub fn on_resize(&mut self) -> (r: Option<(u32, u32)>)
        ensures
            final(self).canvas_state().canvas_calls() == old(self).canvas_state().canvas_calls().push(
                CanvasCall::Resize(r),
            ),
            final(self).clock() == old(self).clock(),
            final(self).input_state() == old(self).input_state(),
            final(self).game_state() == old(self).game_state(),
            final(self).spec_last_tick() == old(self).spec_last_tick(),
    {
        self.canvas.on_resize()
    }

    /// Starts the input, then the canvas; the first failure is handed back
    /// as it came, and a failing input is not followed by the canvas.
    pub fn on_start(&mut self) -> (r: Result<(), EngineError>)
        ensures
            final(self).clock() == old(self).clock(),
            final(self).game_state() == old(self).game_state(),
            final(self).spec_last_tick() == old(self).spec_last_tick(),
            final(self).input_state().keys() == old(self).input_state().keys(),
            final(self).input_state().clear_pending() == old(self).input_state().clear_pending(),
            final(self).input_state().pending_event() == old(self).input_state().pending_event(),
            lifecycle_ran(
                Lifecycle::Start,
                old(self).input_state().input_calls(),
                final(self).input_state().input_calls(),
                old(self).canvas_state().canvas_calls(),
                final(self).canvas_state().canvas_calls(),
                r,
            ),
    {
        let started = self.input.on_start();
        match started {
            Err(e) => {
                return Err(e);
            },
            Ok(()) => {},
        }
        assert(started->Ok_0 == ());
        self.canvas.on_start()
    }

    /// Ends the input, then the canvas, and hands back the exit code to
    /// terminate with; the first failure is handed back as it came instead,
    /// and a failing input is not followed by the canvas.
    pub fn on_end(&mut self, code: i32) -> (r: Result<i32, EngineError>)
        ensures
            r is Ok ==> r == Ok::<i32, EngineError>(code),
            final(self).clock() == old(self).clock(),
            final(self).game_state() == old(self).game_state(),
            final(self).spec_last_tick() == old(self).spec_last_tick(),
            lifecycle_ran(
                Lifecycle::End,
                old(self).input_state().input_calls(),
                final(self).input_state().input_calls(),
                old(self).canvas_state().canvas_calls(),
                final(self).canvas_state().canvas_calls(),
                match r {
                    Ok(_) => Ok(()),
                    Err(e) => Err(e),
                },
            ),
    {
        let ended = self.input.on_end();
        match ended {
            Err(e) => {
                return Err(e);
            },
            Ok(()) => {},
        }
        assert(ended->Ok_0 == ());
        let canvas_ended = self.canvas.on_end();
        match canvas_ended {
            Err(e) => Err(e),
            Ok(()) => {
                assert(canvas_ended->Ok_0 == ());
                Ok(code)
            },
        }
    }

    /// Begins a tick of the input state machine, whose edges stay readable
    /// until the next event is recorded; the input's answer is handed back.
    pub fn begin_tick(&mut self) -> (r: Result<LoopState, EngineError>)
        ensures
            final(self).clock() == old(self).clock(),
            final(self).game_state() == old(self).game_state(),
            final(self).canvas_state() == old(self).canvas_state(),
            final(self).spec_last_tick() == old(self).spec_last_tick(),
            final(self).input_state().keys() == old(self).input_state().keys(),
            final(self).input_state().clear_pending(),
            final(self).input_state().pending_event() == old(self).input_state().pending_event(),
            final(self).input_state().input_calls() == old(self).input_state().input_calls().push(
                InputCall::Next(r),
            ),
    {
        self.input.on_next()
    }

    /// Records one platform event's key event (none for other events) in
    /// the input state machine.
    pub fn record_event(&mut self, event: Option<EventState>)
        ensures
            final(self).clock() == old(self).clock(),
            final(self).game_state() == old(self).game_state(),
            final(self).canvas_state() == old(self).canvas_state(),
            final(self).spec_last_tick() == old(self).spec_last_tick(),
            final(self).input_state().keys() == record(
                old(self).input_state().keys(),
                old(self).input_state().clear_pending(),
                event,
            ),
            !final(self).input_state().clear_pending(),
            final(self).input_state().pending_event() is None,
            final(self).input_state().input_calls() == old(self).input_state().input_calls(),
    {
        self.input.on_event(&event);
        self.input.handle_event();
    }

    pub fn last_tick(&self) -> (r: TickReport)
        ensures
            r == self.spec_last_tick(),
    {
        self.last_tick
    }

    pub fn frame_clock(&self) -> (r: &FrameClock)
        ensures
            r@ == self.clock(),
    {
        &self.clock
    }

    pub fn input(&self) -> (r: &I)
        ensures
            *r == self.input_state(),
    {
        &self.input
    }

    pub fn game(&self) -> (r: &G)
        ensures
            *r == self.game_state(),
    {
        &self.game
    }

    pub fn canvas(&self) -> (r: &C)
        ensures
            *r == self.canvas_state(),
    {
        &self.canvas
    }
}

} // verus!
