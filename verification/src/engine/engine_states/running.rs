//! The phase of an engine that runs, and its tick.

use crate::engine::engine_states::shared_state::EngineSharedState;
use crate::engine::engine_states::statemachine::StateMachine;
use crate::engine::engine_states::suspended::Suspended;
use crate::engine::engine_states::update_stages_runner::UpdateStagesRunner;
use crate::engine::gameloop_timer::lemma_due_steps_fit;
use crate::engine::gameloop_timer::lemma_step_by_step;
use crate::engine::gameloop_timer::min_nat;
use crate::engine::gameloop_timer::TimerState;
use crate::engine::result::EngineUpdateResult;
use crate::engine_stages::render_stage::BoxedRenderStage;
use crate::engine_stages::render_stage::RenderStageCall;
use crate::engine_stages::render_stage::RenderStageUpdateInput;
use crate::platform::PlatformInterface;
use vstd::prelude::*;

verus! {

/// What a running engine has beyond the shared state.
#[verifier::reject_recursive_types(P)]
pub struct Running<P: PlatformInterface> {
    /// The calling thread's end of the handoff.
    pub update_stages_runner: UpdateStagesRunner,
    /// The render stages, in the order of their registration.
    pub render_stages: Vec<BoxedRenderStage<P>>,
}

/// The calls that the render stage at `position` has received once a tick is over
/// in which `rendered` stages rendered with success and rendering ended with
/// `result`.
pub open spec fn render_calls_after_tick(
    before: Seq<RenderStageCall>,
    position: int,
    rendered: int,
    result: EngineUpdateResult,
) -> Seq<RenderStageCall> {
    if position < rendered {
        before.push(RenderStageCall::Render(EngineUpdateResult::Success))
    } else if position == rendered {
        before.push(RenderStageCall::Render(result))
    } else {
        before
    }
}

/// `after` are the render stages `before` once they were rendered in order until
/// one did not succeed: `rendered` of them succeeded and rendering ended with
/// `result`.
pub open spec fn stages_rendered<P: PlatformInterface>(
    before: Seq<BoxedRenderStage<P>>,
    after: Seq<BoxedRenderStage<P>>,
    rendered: int,
    result: EngineUpdateResult,
) -> bool {
    &&& after.len() == before.len()
    &&& 0 <= rendered <= before.len()
    &&& (result == EngineUpdateResult::Success) == (rendered == before.len())
    &&& forall|j: int|
        0 <= j < before.len() ==> (#[trigger] after[j]).stage.calls() == render_calls_after_tick(
            before[j].stage.calls(),
            j,
            rendered,
            result,
        )
}

/// What the handoff has handed back in a tick that executed `steps` of the `due`
/// steps and whose updates ended with `result`: success for every step that was
/// executed and then, if the updates stopped early, `result` itself.
pub open spec fn update_results(steps: nat, due: nat, result: EngineUpdateResult) -> Seq<
    EngineUpdateResult,
> {
    let succeeded = Seq::new(steps, |i: int| EngineUpdateResult::Success);
    if steps < due {
        succeeded.push(result)
    } else {
        succeeded
    }
}

impl<P: PlatformInterface> StateMachine<Running<P>, EngineSharedState<P>> {
    /// This phase, suspended: every part is the same.
    pub open spec fn suspended(self) -> StateMachine<Suspended<P>, EngineSharedState<P>> {
        StateMachine {
            shared: self.shared,
            state: Suspended {
                update_stages_runner: self.state.update_stages_runner,
                render_stages: self.state.render_stages,
            },
        }
    }

    /// Moves every part into the suspended phase.
    pub fn suspend(self) -> (suspended: StateMachine<Suspended<P>, EngineSharedState<P>>)
        ensures
            suspended == self.suspended(),
    {
        StateMachine {
            shared: self.shared,
            state: Suspended {
                update_stages_runner: self.state.update_stages_runner,
                render_stages: self.state.render_stages,
            },
        }
    }

    /// `after` is this phase once the fixed steps that were due have been asked
    /// for: `steps` calls of the handoff returned success and the last call
    /// returned `result`. Each successful call took one step out of the timer and
    /// enqueued one job; a call that failed enqueued one more job unless it asked
    /// for a restart, and what it handed back is `result`, unaltered. Nothing but
    /// the timer and the handoff changed.
    pub open spec fn updates_ran(
        self,
        after: Self,
        steps: nat,
        result: EngineUpdateResult,
    ) -> bool {
        let timer = self.shared.internal_resources.timings@;
        let due = timer.due_steps(timer.max_skipped_frames);
        &&& steps <= due
        &&& (result == EngineUpdateResult::Success) == (steps == due)
        &&& after.shared.internal_resources.timings@ == timer.stepped(steps)
        &&& after.shared.internal_resources.timings.wf()
        &&& after.shared.create_info == self.shared.create_info
        &&& after.shared.resources == self.shared.resources
        &&& after.shared.internal_resources.dispatcher == self.shared.internal_resources.dispatcher
        &&& after.state.render_stages == self.state.render_stages
        &&& after.state.update_stages_runner.jobs_enqueued()
            == self.state.update_stages_runner.jobs_enqueued() + steps + (if result
            == EngineUpdateResult::Success || result == EngineUpdateResult::Restart {
            0nat
        } else {
            1nat
        })
        &&& after.state.update_stages_runner.results()
            == self.state.update_stages_runner.results() + update_results(steps, due, result)
        &&& after.state.update_stages_runner.initial_record()
            == self.state.update_stages_runner.initial_record()
        &&& after.state.update_stages_runner.dispatch_system()
            == self.state.update_stages_runner.dispatch_system()
    }

    /// Step 2 of a tick: for as long as a fixed step is due and the handoff
    /// returns success, asks the handoff for one update and counts the step. The
    /// first result that is not success ends the loop and is returned; its step is
    /// not counted.
    pub fn run_due_updates(&mut self) -> (result: EngineUpdateResult)
        requires
            old(self).shared.wf(),
        ensures
            final(self).shared.wf(),
            exists|steps: nat| old(self).updates_ran(*final(self), steps, result),
    {
        let ghost timer = self.shared.internal_resources.timings@;
        let ghost due = timer.due_steps(timer.max_skipped_frames);
        let mut n_loops: u64 = 0;
        proof {
            lemma_step_by_step(timer, 0);
        }
        while self.shared.internal_resources.timings.step_is_due(n_loops)
            invariant
                self.shared.wf(),
                timer == old(self).shared.internal_resources.timings@,
                timer.update_tick_rate > 0,
                due == timer.due_steps(timer.max_skipped_frames),
                n_loops <= due,
                due <= u32::MAX + 1,
                self.shared.internal_resources.timings@ == timer.stepped(n_loops as nat),
                self.shared.create_info == old(self).shared.create_info,
                self.shared.resources == old(self).shared.resources,
                self.shared.internal_resources.dispatcher
                    == old(self).shared.internal_resources.dispatcher,
                self.state.render_stages == old(self).state.render_stages,
                self.state.update_stages_runner.jobs_enqueued()
                    == old(self).state.update_stages_runner.jobs_enqueued() + n_loops,
                self.state.update_stages_runner.results() == old(self).state.update_stages_runner.results() + Seq::new(
                    n_loops as nat,
                    |i: int| EngineUpdateResult::Success,
                ),
                self.state.update_stages_runner.initial_record()
                    == old(self).state.update_stages_runner.initial_record(),
                self.state.update_stages_runner.dispatch_system()
                    == old(self).state.update_stages_runner.dispatch_system(),
                timer.stepped(n_loops as nat).step_is_due(n_loops as nat) == (n_loops < due),
            decreases due - n_loops,
        {
            match self.state.update_stages_runner.update(&mut self.shared) {
                EngineUpdateResult::Success => {},
                result => {
                    proof {
                        assert(self.state.update_stages_runner.results() =~= old(self).state.update_stages_runner.results() + update_results(
                            n_loops as nat,
                            due,
                            result,
                        ));
                        assert(old(self).updates_ran(*self, n_loops as nat, result));
                    }
                    return result;
                },
            }
            self.shared.internal_resources.timings.consume_step();
            proof {
                lemma_step_by_step(timer, n_loops as nat);
                lemma_step_by_step(timer, (n_loops + 1) as nat);
                assert(self.state.update_stages_runner.results() =~= old(self).state.update_stages_runner.results() + Seq::new(
                    (n_loops + 1) as nat,
                    |i: int| EngineUpdateResult::Success,
                ));
            }
            n_loops += 1;
        }
        proof {
            assert(self.state.update_stages_runner.results() =~= old(self).state.update_stages_runner.results() + update_results(
                n_loops as nat,
                due,
                EngineUpdateResult::Success,
            ));
            assert(old(self).updates_ran(*self, n_loops as nat, EngineUpdateResult::Success));
        }
        EngineUpdateResult::Success
    }

    /// Step 4 of a tick: renders every render stage once, in the order of
    /// registration, until one does not succeed. Returns the first result that is
    /// not success, or success.
    pub fn render(&mut self, interface: &mut P) -> (result: EngineUpdateResult)
        ensures
            final(self).shared == old(self).shared,
            final(self).state.update_stages_runner == old(self).state.update_stages_runner,
            exists|rendered: int|
                stages_rendered(
                    old(self).state.render_stages@,
                    final(self).state.render_stages@,
                    rendered,
                    result,
                ),
    {
        let count = self.state.render_stages.len();
        let mut result = EngineUpdateResult::Success;
        let mut i: usize = 0;
        while i < count && result == EngineUpdateResult::Success
            invariant
                i <= count,
                count == self.state.render_stages@.len(),
                count == old(self).state.render_stages@.len(),
                self.shared == old(self).shared,
                self.state.update_stages_runner == old(self).state.update_stages_runner,
                result != EngineUpdateResult::Success ==> i >= 1,
                forall|j: int|
                    0 <= j < i ==> (#[trigger] self.state.render_stages@[j]).stage.calls()
                        == render_calls_after_tick(
                        old(self).state.render_stages@[j].stage.calls(),
                        j,
                        if result == EngineUpdateResult::Success {
                            i as int
                        } else {
                            i - 1
                        },
                        result,
                    ),
                forall|j: int|
                    i <= j < count
                        ==> self.state.render_stages@[j] == old(self).state.render_stages@[j],
            decreases count - i,
        {
            let input = RenderStageUpdateInput::new(interface);
            result = self.state.render_stages[i].stage.render(input);
            i += 1;
        }
        proof {
            let rendered = if result == EngineUpdateResult::Success {
                i as int
            } else {
                i - 1
            };
            assert(stages_rendered(
                old(self).state.render_stages@,
                self.state.render_stages@,
                rendered,
                result,
            ));
        }
        result
    }

    /// `after` is this phase once a tick is over that started at `start`, in which
    /// `steps` fixed steps were executed and `rendered` render stages rendered
    /// with success, and that returned `result`.
    ///
    /// The tick adds the time since the last frame boundary to the accumulator.
    /// It executes the steps that are due, at most one more than the configured
    /// number of skipped frames, and for each of them it asks the handoff for one
    /// update, which enqueues one job. An update that does not succeed ends the
    /// tick: no further update is asked for, the call that failed has enqueued
    /// one more job unless it asked for a restart, and what it handed back is what
    /// the tick returns. If every update
    /// succeeded the tick renders; if every render stage succeeded as well it
    /// ends the frame, which moves the frame boundary. A tick that stops early
    /// leaves the boundary where it was.
    pub open spec fn tick_ran(
        self,
        after: Self,
        start: nat,
        steps: nat,
        rendered: int,
        result: EngineUpdateResult,
    ) -> bool {
        let timer = self.shared.internal_resources.timings@;
        let started = timer.frame_started(start);
        let due = started.due_steps(started.max_skipped_frames);
        let stepped = started.stepped(steps);
        let timer_after = after.shared.internal_resources.timings@;
        &&& after.shared.create_info == self.shared.create_info
        &&& after.shared.resources == self.shared.resources
        &&& after.shared.internal_resources.dispatcher == self.shared.internal_resources.dispatcher
        &&& after.state.update_stages_runner.initial_record()
            == self.state.update_stages_runner.initial_record()
        &&& after.state.update_stages_runner.dispatch_system()
            == self.state.update_stages_runner.dispatch_system()
        &&& after.state.update_stages_runner.jobs_enqueued()
            == self.state.update_stages_runner.jobs_enqueued() + steps + (if steps < due && result
            != EngineUpdateResult::Restart {
            1nat
        } else {
            0nat
        })
        &&& after.state.update_stages_runner.results()
            == self.state.update_stages_runner.results() + update_results(steps, due, result)
        &&& steps <= due
        &&& if steps < due {
            &&& result != EngineUpdateResult::Success
            &&& timer_after == stepped
            &&& after.state.render_stages == self.state.render_stages
        } else {
            &&& stages_rendered(
                self.state.render_stages@,
                after.state.render_stages@,
                rendered,
                result,
            )
            &&& if result == EngineUpdateResult::Success {
                timer_after == stepped.frame_ended(timer_after.frame_end_instant)
            } else {
                timer_after == stepped
            }
        }
    }

    /// One tick of a running engine.
    ///
    /// 1. Starts the frame: the time since the last frame boundary joins the
    ///    accumulator.
    /// 2. Asks the handoff for one update per fixed step that is due. A result
    ///    that is not success ends the tick at once and is returned.
    /// 3. Services the executor of asynchronous tasks once.
    /// 4. Renders every render stage once, in the order of registration. A result
    ///    that is not success ends the tick at once and is returned.
    /// 5. Ends the frame.
    pub fn tick(&mut self, interface: &mut P) -> (result: EngineUpdateResult)
        requires
            old(self).shared.wf(),
        ensures
            final(self).shared.wf(),
            exists|start: nat, steps: nat, rendered: int|
                old(self).tick_ran(*final(self), start, steps, rendered, result),
    {
        self.shared.internal_resources.timings.frame_start();
        let ghost start = self.shared.internal_resources.timings@.frame_start_instant;
        let ghost at_start = *self;
        let result = self.run_due_updates();
        let ghost steps = choose|steps: nat| at_start.updates_ran(*self, steps, result);
        if result != EngineUpdateResult::Success {
            proof {
                assert(old(self).tick_ran(*self, start, steps, 0, result));
            }
            return result;
        }
        self.shared.internal_resources.dispatcher.drive_pending();
        let ghost at_render = *self;
        let result = self.render(interface);
        let ghost rendered = choose|rendered: int|
            stages_rendered(at_render.state.render_stages@, self.state.render_stages@, rendered, result);
        if result != EngineUpdateResult::Success {
            proof {
                assert(old(self).tick_ran(*self, start, steps, rendered, result));
            }
            return result;
        }
        self.shared.internal_resources.timings.frame_end();
        proof {
            assert(old(self).tick_ran(*self, start, steps, rendered, result));
        }
        EngineUpdateResult::Success
    }
}

/// A tick that returns success has executed exactly the steps that were due when
/// its frame started: as many as fit into the accumulator, but no more than one
/// beyond the configured number of skipped frames. It has asked the handoff for
/// exactly that many updates, each of which enqueued one job. It has rendered
/// every render stage and ended the frame.
pub proof fn lemma_successful_tick<P: PlatformInterface>(
    before: StateMachine<Running<P>, EngineSharedState<P>>,
    after: StateMachine<Running<P>, EngineSharedState<P>>,
    start: nat,
    steps: nat,
    rendered: int,
)
    requires
        before.tick_ran(after, start, steps, rendered, EngineUpdateResult::Success),
    ensures
        ({
            let started = before.shared.internal_resources.timings@.frame_started(start);
            let timer_after = after.shared.internal_resources.timings@;
            &&& steps == started.due_steps(started.max_skipped_frames)
            &&& after.state.update_stages_runner.jobs_enqueued()
                == before.state.update_stages_runner.jobs_enqueued() + steps
            &&& rendered == before.state.render_stages@.len()
            &&& timer_after.accumulated_time == started.accumulated_time - steps * started.step()
            &&& timer_after.update_counter == min_nat(
                started.update_counter + steps,
                u64::MAX as nat,
            )
        }),
{
    let started = before.shared.internal_resources.timings@.frame_started(start);
    lemma_due_steps_fit(started, started.max_skipped_frames);
}

/// A tick whose updates stop early returns what the handoff handed back last, as
/// it is: the steps before it all handed back success, and the value that ended
/// them is the tick's own result.
pub proof fn lemma_failed_update_is_returned<P: PlatformInterface>(
    before: StateMachine<Running<P>, EngineSharedState<P>>,
    after: StateMachine<Running<P>, EngineSharedState<P>>,
    start: nat,
    steps: nat,
    rendered: int,
    result: EngineUpdateResult,
)
    requires
        before.tick_ran(after, start, steps, rendered, result),
        ({
            let started = before.shared.internal_resources.timings@.frame_started(start);
            steps < started.due_steps(started.max_skipped_frames)
        }),
    ensures
        result != EngineUpdateResult::Success,
        after.state.update_stages_runner.results().len()
            == before.state.update_stages_runner.results().len() + steps + 1,
        after.state.update_stages_runner.results().last() == result,
        forall|i: int|
            before.state.update_stages_runner.results().len() <= i
                < before.state.update_stages_runner.results().len() + steps
                ==> #[trigger] after.state.update_stages_runner.results()[i]
                == EngineUpdateResult::Success,
{
}

/// Suspending a running engine and resuming it at once gives back the running
/// engine exactly: the handoff with whatever job is in flight, the render stages
/// and the shared state. The next update therefore consumes the same result as if
/// the engine had never been suspended.
pub proof fn lemma_suspend_resume_is_identity<P: PlatformInterface>(
    running: StateMachine<Running<P>, EngineSharedState<P>>,
)
    ensures
        running.suspended().resumed() == running,
{
}

/// Resuming a suspended engine and suspending it at once gives back the suspended
/// engine exactly.
pub proof fn lemma_resume_suspend_is_identity<P: PlatformInterface>(
    suspended: StateMachine<Suspended<P>, EngineSharedState<P>>,
)
    ensures
        suspended.resumed().suspended() == suspended,
{
}

} // verus!
