//! Fixed-step timer: turns elapsed wall-clock time into whole simulation steps.
//!
//! All times are whole nanoseconds. Timestamps count from the moment the timer was
//! created. The accumulator and the step counter are 64-bit and stop at their
//! largest value instead of wrapping.

use std::time::Duration;
use std::time::Instant;
use vstd::prelude::*;

verus! {

/// Nanoseconds in one second.
pub const NANOS_PER_SECOND: u64 = 1_000_000_000;

/// `std::time::Instant`: a reading of the monotonic clock. Nothing of it is seen
/// from here.
#[verifier::external_type_specification]
#[verifier::external_body]
pub struct ExInstant(std::time::Instant);

/// `std::time::Instant::now`: the current reading of the monotonic clock. Nothing
/// is claimed about the value.
pub assume_specification[ std::time::Instant::now ]() -> (now: Instant);

/// `std::time::Instant::elapsed`: the time that has passed since `instant` was
/// taken. Nothing is claimed about the value.
pub assume_specification[ std::time::Instant::elapsed ](instant: &Instant) -> (elapsed: Duration);

/// `std::time::Duration::as_nanos`: the duration in whole nanoseconds. Nothing is
/// claimed about the value.
pub assume_specification[ std::time::Duration::as_nanos ](duration: &Duration) -> (nanos: u128);

/// Mathematical state of a timer.
pub struct TimerState {
    /// Fixed steps per second.
    pub update_tick_rate: nat,
    /// Steps that one tick may run beyond the first to catch up.
    pub max_skipped_frames: nat,
    /// Time that has been seen but not yet turned into steps.
    pub accumulated_time: nat,
    /// Steps executed so far.
    pub update_counter: nat,
    /// When the current frame started.
    pub frame_start_instant: nat,
    /// When the previous frame ended: the boundary that elapsed time is measured from.
    pub frame_end_instant: nat,
    /// Start of the frame in which the last step was executed.
    pub last_fixed_update_instant: nat,
}

/// The smaller of two naturals.
pub open spec fn min_nat(a: nat, b: nat) -> nat {
    if a <= b {
        a
    } else {
        b
    }
}

impl TimerState {
    /// A timer that has seen no time and run no step.
    pub open spec fn initial(update_tick_rate: nat, max_skipped_frames: nat) -> TimerState {
        TimerState {
            update_tick_rate,
            max_skipped_frames,
            accumulated_time: 0,
            update_counter: 0,
            frame_start_instant: 0,
            frame_end_instant: 0,
            last_fixed_update_instant: 0,
        }
    }

    /// Length of one fixed step: one second divided by the tick rate, rounded down.
    pub open spec fn step(self) -> nat {
        NANOS_PER_SECOND as nat / self.update_tick_rate
    }

    /// Time between the last frame boundary and `now`; zero if `now` lies before it.
    pub open spec fn elapsed_at(self, now: nat) -> nat {
        if now >= self.frame_end_instant {
            (now - self.frame_end_instant) as nat
        } else {
            0
        }
    }

    /// The state after a frame started at `now`: the elapsed time is added to the
    /// accumulator, which stops at the largest 64-bit value.
    pub open spec fn frame_started(self, now: nat) -> TimerState {
        TimerState {
            accumulated_time: min_nat(self.accumulated_time
                + self.elapsed_at(now), u64::MAX as nat),
            frame_start_instant: now,
            ..self
        }
    }

    /// Whether one more step may run in a tick that has already run `steps_done`.
    pub open spec fn step_is_due(self, steps_done: nat) -> bool {
        self.accumulated_time >= self.step() && steps_done <= self.max_skipped_frames
    }

    /// Whole steps owed when at most `max_catch_up + 1` may run: the number of
    /// times the step fits into the accumulator, capped.
    pub open spec fn due_steps(self, max_catch_up: nat) -> nat {
        if self.step() == 0 {
            max_catch_up + 1
        } else {
            min_nat(self.accumulated_time / self.step(), max_catch_up + 1)
        }
    }

    /// The state after `n` steps were executed: each takes exactly one step length
    /// out of the accumulator and counts once.
    pub open spec fn stepped(self, n: nat) -> TimerState {
        TimerState {
            accumulated_time: (self.accumulated_time - n * self.step()) as nat,
            update_counter: min_nat(self.update_counter + n, u64::MAX as nat),
            last_fixed_update_instant: if n > 0 {
                self.frame_start_instant
            } else {
                self.last_fixed_update_instant
            },
            ..self
        }
    }

    /// The state after the frame ended at `now`.
    pub open spec fn frame_ended(self, now: nat) -> TimerState {
        TimerState { frame_end_instant: now, ..self }
    }
}

/// Fixed-step timer of the game loop.
pub struct EngineGameloopTimer {
    update_tick_rate: u32,
    max_skipped_frames: u32,
    accumulated_time: u64,
    update_counter: u64,
    frame_start_instant: u64,
    frame_end_instant: u64,
    last_fixed_update_instant: u64,
    epoch: Instant,
}

impl View for EngineGameloopTimer {
    type V = TimerState;

    closed spec fn view(&self) -> TimerState {
        TimerState {
            update_tick_rate: self.update_tick_rate as nat,
            max_skipped_frames: self.max_skipped_frames as nat,
            accumulated_time: self.accumulated_time as nat,
            update_counter: self.update_counter as nat,
            frame_start_instant: self.frame_start_instant as nat,
            frame_end_instant: self.frame_end_instant as nat,
            last_fixed_update_instant: self.last_fixed_update_instant as nat,
        }
    }
}

impl EngineGameloopTimer {
    /// A usable timer has a positive tick rate and 64-bit quantities.
    pub open spec fn wf(&self) -> bool {
        &&& self@.update_tick_rate > 0
        &&& self@.update_tick_rate <= u32::MAX
        &&& self@.max_skipped_frames <= u32::MAX
        &&& self@.accumulated_time <= u64::MAX
        &&& self@.update_counter <= u64::MAX
        &&& self@.frame_start_instant <= u64::MAX
        &&& self@.frame_end_instant <= u64::MAX
        &&& self@.last_fixed_update_instant <= u64::MAX
    }

    /// Creates a timer that starts counting time now.
    pub fn new(update_tick_rate: u32, max_skipped_frames: u32) -> (timer: Self)
        requires
            update_tick_rate > 0,
        ensures
            timer.wf(),
            timer@ == TimerState::initial(update_tick_rate as nat, max_skipped_frames as nat),
    {
        EngineGameloopTimer {
            update_tick_rate,
            max_skipped_frames,
            accumulated_time: 0,
            update_counter: 0,
            frame_start_instant: 0,
            frame_end_instant: 0,
            last_fixed_update_instant: 0,
            epoch: Instant::now(),
        }
    }

    /// Fixed steps per second.
    pub fn update_tick_rate(&self) -> (rate: u32)
        ensures
            rate == self@.update_tick_rate,
    {
        self.update_tick_rate
    }

    /// Steps that one tick may run beyond the first to catch up.
    pub fn max_skipped_frames(&self) -> (max: u32)
        ensures
            max == self@.max_skipped_frames,
    {
        self.max_skipped_frames
    }

    /// Time that has been seen but not yet turned into steps.
    pub fn accumulated_time(&self) -> (nanos: u64)
        ensures
            nanos == self@.accumulated_time,
    {
        self.accumulated_time
    }

    /// Steps executed so far.
    pub fn update_counter(&self) -> (steps: u64)
        ensures
            steps == self@.update_counter,
    {
        self.update_counter
    }

    /// When the current frame started.
    pub fn frame_start_instant(&self) -> (nanos: u64)
        ensures
            nanos == self@.frame_start_instant,
    {
        self.frame_start_instant
    }

    /// When the previous frame ended.
    pub fn frame_end_instant(&self) -> (nanos: u64)
        ensures
            nanos == self@.frame_end_instant,
    {
        self.frame_end_instant
    }

    /// Start of the frame in which the last step was executed.
    pub fn last_fixed_update_instant(&self) -> (nanos: u64)
        ensures
            nanos == self@.last_fixed_update_instant,
    {
        self.last_fixed_update_instant
    }

    /// Length of one fixed step.
    pub fn fixed_update_step_duration(&self) -> (nanos: u64)
        requires
            self.wf(),
        ensures
            nanos == self@.step(),
    {
        NANOS_PER_SECOND / (self.update_tick_rate as u64)
    }

    /// Reads the clock: nanoseconds since the timer was created, stopping at the
    /// largest 64-bit value.
    pub fn now(&self) -> (nanos: u64) {
        let elapsed = self.epoch.elapsed();
        clamp_nanos(elapsed.as_nanos())
    }

    /// Starts a frame at the clock's current reading, which is then found in
    /// `frame_start_instant`.
    pub fn frame_start(&mut self)
        requires
            old(self).wf(),
        ensures
            final(self).wf(),
            final(self)@ == old(self)@.frame_started(final(self)@.frame_start_instant),
    {
        let now = self.now();
        self.frame_start_at(now);
    }

    /// Starts a frame at `now`: the time since the last frame boundary joins the
    /// accumulator.
    pub fn frame_start_at(&mut self, now: u64)
        requires
            old(self).wf(),
        ensures
            final(self).wf(),
            final(self)@ == old(self)@.frame_started(now as nat),
    {
        let elapsed = if now >= self.frame_end_instant {
            now - self.frame_end_instant
        } else {
            0
        };
        self.accumulated_time = self.accumulated_time.saturating_add(elapsed);
        self.frame_start_instant = now;
    }

    /// Whether one more step may run in a tick that has already run `steps_done`.
    pub fn step_is_due(&self, steps_done: u64) -> (due: bool)
        requires
            self.wf(),
        ensures
            due == self@.step_is_due(steps_done as nat),
    {
        self.accumulated_time >= self.fixed_update_step_duration() && steps_done
            <= self.max_skipped_frames as u64
    }

    /// Executes the bookkeeping of one step: takes one step length out of the
    /// accumulator, counts the step and dates it with the current frame's start.
    pub fn consume_step(&mut self)
        requires
            old(self).wf(),
            old(self)@.accumulated_time >= old(self)@.step(),
        ensures
            final(self).wf(),
            final(self)@ == old(self)@.stepped(1),
    {
        let step = self.fixed_update_step_duration();
        self.accumulated_time = self.accumulated_time - step;
        self.update_counter = self.update_counter.saturating_add(1);
        self.last_fixed_update_instant = self.frame_start_instant;
    }

    /// Takes all the steps that are owed out of the accumulator at once and returns
    /// their number. What is left in the accumulator stays there, also where the
    /// cap was reached.
    pub fn due_steps(&mut self, max_catch_up: u32) -> (steps: u64)
        requires
            old(self).wf(),
        ensures
            final(self).wf(),
            steps == old(self)@.due_steps(max_catch_up as nat),
            final(self)@ == old(self)@.stepped(steps as nat),
    {
        let step = self.fixed_update_step_duration();
        let cap: u64 = max_catch_up as u64 + 1;
        let steps: u64 = if step == 0 {
            cap
        } else {
            let fit = self.accumulated_time / step;
            if fit <= cap {
                fit
            } else {
                cap
            }
        };
        proof {
            lemma_steps_fit(self.accumulated_time as nat, step as nat, steps as nat);
        }
        self.accumulated_time = self.accumulated_time - steps * step;
        self.update_counter = self.update_counter.saturating_add(steps);
        if steps > 0 {
            self.last_fixed_update_instant = self.frame_start_instant;
        }
        steps
    }

    /// Ends the frame at the clock's current reading, which is then found in
    /// `frame_end_instant`.
    pub fn frame_end(&mut self)
        requires
            old(self).wf(),
        ensures
            final(self).wf(),
            final(self)@ == old(self)@.frame_ended(final(self)@.frame_end_instant),
    {
        let now = self.now();
        self.frame_end_at(now);
    }

    /// Ends the frame at `now`: the next frame measures its elapsed time from here.
    pub fn frame_end_at(&mut self, now: u64)
        requires
            old(self).wf(),
        ensures
            final(self).wf(),
            final(self)@ == old(self)@.frame_ended(now as nat),
    {
        self.frame_end_instant = now;
    }
}

/// A number of nanoseconds as a timestamp of the timer: the number itself where
/// 64 bits hold it, else the largest 64-bit value.
pub fn clamp_nanos(nanos: u128) -> (clamped: u64)
    ensures
        clamped == (if nanos > u64::MAX {
            u64::MAX
        } else {
            nanos as u64
        }),
{
    if nanos > u64::MAX as u128 {
        u64::MAX
    } else {
        nanos as u64
    }
}

/// `n` steps of length `step` fit into `accumulated` whenever `n` is at most the
/// quotient (or the step is zero).
proof fn lemma_steps_fit(accumulated: nat, step: nat, n: nat)
    requires
        step == 0 || n <= accumulated / step,
    ensures
        n * step <= accumulated,
{
    if step > 0 {
        assert(n * step <= (accumulated / step) * step) by (nonlinear_arith)
            requires
                n <= accumulated / step,
        ;
        assert((accumulated / step) * step <= accumulated) by (nonlinear_arith)
            requires
                step > 0,
        ;
    } else {
        assert(n * step == 0) by (nonlinear_arith)
            requires
                step == 0,
        ;
    }
}

/// The steps that are owed fit into the accumulator: taking them out leaves what
/// they did not use, and never less than nothing.
pub proof fn lemma_due_steps_fit(timer: TimerState, max_catch_up: nat)
    ensures
        timer.due_steps(max_catch_up) * timer.step() <= timer.accumulated_time,
        timer.stepped(timer.due_steps(max_catch_up)).accumulated_time == timer.accumulated_time
            - timer.due_steps(max_catch_up) * timer.step(),
{
    lemma_steps_fit(timer.accumulated_time, timer.step(), timer.due_steps(max_catch_up));
}

/// A tick that finds `accumulated` nanoseconds left over and sees `elapsed` more
/// executes min(⌊(accumulated + elapsed) / step⌋, max_catch_up + 1) steps and keeps
/// exactly what those steps did not use: the cap never empties the accumulator.
pub proof fn lemma_steps_of_one_tick(timer: TimerState, elapsed: nat, max_catch_up: nat)
    requires
        timer.update_tick_rate > 0,
        timer.step() > 0,
        timer.accumulated_time + elapsed <= u64::MAX,
    ensures
        ({
            let total = timer.accumulated_time + elapsed;
            let started = timer.frame_started(timer.frame_end_instant + elapsed);
            let steps = started.due_steps(max_catch_up);
            let after = started.stepped(steps);
            &&& started.accumulated_time == total
            &&& steps == min_nat(total / timer.step(), max_catch_up + 1)
            &&& after.accumulated_time == total - timer.step() * steps
            &&& after.update_counter == min_nat(timer.update_counter + steps, u64::MAX as nat)
            &&& (steps == max_catch_up + 1 ==> after.accumulated_time == total - timer.step() * (
            max_catch_up + 1))
        }),
{
    let total = timer.accumulated_time + elapsed;
    let started = timer.frame_started(timer.frame_end_instant + elapsed);
    let steps = started.due_steps(max_catch_up);
    assert(started.step() == timer.step());
    lemma_steps_fit(total, timer.step(), steps);
    assert(steps * timer.step() == timer.step() * steps) by (nonlinear_arith);
}

/// Running the steps of a tick one at a time comes to the same as taking them all
/// at once: after `n` steps a further step is due exactly when fewer than the owed
/// number have run.
pub proof fn lemma_step_by_step(timer: TimerState, n: nat)
    requires
        timer.update_tick_rate > 0,
        n <= timer.due_steps(timer.max_skipped_frames),
    ensures
        timer.stepped(n).step_is_due(n) == (n < timer.due_steps(timer.max_skipped_frames)),
        n < timer.due_steps(timer.max_skipped_frames) ==> timer.stepped(n).stepped(1)
            == timer.stepped(n + 1),
{
    let step = timer.step();
    let due = timer.due_steps(timer.max_skipped_frames);
    lemma_steps_fit(timer.accumulated_time, step, n);
    if step > 0 {
        let q = timer.accumulated_time / step;
        assert(timer.accumulated_time - n * step >= step <==> n + 1 <= q) by (nonlinear_arith)
            requires
                step > 0,
                q == timer.accumulated_time / step,
                n * step <= timer.accumulated_time,
        ;
    } else {
        assert(n * step == 0) by (nonlinear_arith)
            requires
                step == 0,
        ;
    }
    if n < due {
        assert((n + 1) * step == n * step + step) by (nonlinear_arith);
        assert(timer.stepped(n).stepped(1) == timer.stepped(n + 1));
    }
}

} // verus!
