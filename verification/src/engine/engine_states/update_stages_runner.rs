//! The update/render handoff: one fixed step of update-stage work runs as a job
//! on a worker while the calling thread renders.
//!
//! The job record is what the two threads share. It is guarded by a lock and
//! paired with a wake signal; both belong to the embedding program and are
//! reached through `SharedThreadedState`. What is decided under the lock is
//! decided here: `UpdateStagesThreadedState::run_update_job` is the body of a job,
//! and `UpdateStagesThreadedState::take_previous_result` is the rendezvous with
//! the job before.
//!
//! A job that succeeds leaves no result behind. So a call that finds no result
//! takes the job before it to have succeeded and does not wait for it: a result
//! is only ever waited for once a job has recorded one.

use crate::engine::engine_states::shared_state::EngineSharedState;
use crate::engine::resource_manager::EngineResourceManager;
use crate::engine::result::EngineUpdateResult;
use crate::engine_stages::render_stage::BoxedUpdateThreadHandler;
use crate::engine_stages::render_stage::UpdateThreadHandlerCall;
use crate::engine_stages::update_stage::BoxedUpdateStage;
use crate::engine_stages::update_stage::UpdateStageCall;
use crate::engine_stages::update_stage::UpdateStageUpdateInput;
use crate::platform::PlatformInterface;
use crate::scene_manager::SceneManager;
use crate::utils::dispatch_system::BoxedDispatchTask;
use crate::utils::dispatch_system::Dispatcher;
use std::sync::Arc;
use vstd::prelude::*;

verus! {

/// The calls that the update stage at `position` has received once a job is over
/// that ran `steps` steps with success and ended with `terminal`: its events were
/// processed, and it was updated if the job got as far as its position.
pub open spec fn stage_calls_after_job(
    before: Seq<UpdateStageCall>,
    position: int,
    steps: int,
    terminal: EngineUpdateResult,
) -> Seq<UpdateStageCall> {
    let drained = before.push(UpdateStageCall::ProcessEvents);
    if position < steps {
        drained.push(UpdateStageCall::Update(EngineUpdateResult::Success))
    } else if position == steps {
        drained.push(UpdateStageCall::Update(terminal))
    } else {
        drained
    }
}

/// The calls that an update-thread handler has received once a job is over that
/// ran `steps` steps with success and ended with `terminal`. The handler's first
/// hook is step number `position` of the job, its second hook is the step after.
pub open spec fn handler_calls_after_job(
    before: Seq<UpdateThreadHandlerCall>,
    position: int,
    steps: int,
    terminal: EngineUpdateResult,
) -> Seq<UpdateThreadHandlerCall> {
    if position + 1 < steps {
        before.push(UpdateThreadHandlerCall::PreUpdate(EngineUpdateResult::Success)).push(
            UpdateThreadHandlerCall::PostUpdate(EngineUpdateResult::Success),
        )
    } else if position + 1 == steps {
        before.push(UpdateThreadHandlerCall::PreUpdate(EngineUpdateResult::Success)).push(
            UpdateThreadHandlerCall::PostUpdate(terminal),
        )
    } else if position == steps {
        before.push(UpdateThreadHandlerCall::PreUpdate(terminal))
    } else {
        before
    }
}

/// One call that a job has made, with the place of the stage or handler in the
/// order of registration.
pub enum JobCall {
    /// `process_events` of an update stage.
    ProcessEvents {
        /// Place of the stage.
        stage: int,
    },
    /// `update` of an update stage, with what it returned.
    Update {
        /// Place of the stage.
        stage: int,
        /// What the call returned.
        result: EngineUpdateResult,
    },
    /// `pre_update` of a handler, with what it returned.
    PreUpdate {
        /// Place of the handler.
        handler: int,
        /// What the call returned.
        result: EngineUpdateResult,
    },
    /// `post_update` of a handler, with what it returned.
    PostUpdate {
        /// Place of the handler.
        handler: int,
        /// What the call returned.
        result: EngineUpdateResult,
    },
}

/// The call that a job over `stage_count` update stages makes at `position`, if
/// it runs `steps` steps with success and ends with `terminal`. First come the
/// `process_events` of all update stages; then the steps: the updates of the
/// update stages, and then for each handler its first and its second hook.
pub open spec fn job_call(
    stage_count: int,
    position: int,
    steps: int,
    terminal: EngineUpdateResult,
) -> JobCall {
    if position < stage_count {
        JobCall::ProcessEvents { stage: position }
    } else {
        let step = position - stage_count;
        let result = if step < steps {
            EngineUpdateResult::Success
        } else {
            terminal
        };
        if step < stage_count {
            JobCall::Update { stage: step, result }
        } else if (step - stage_count) % 2 == 0 {
            JobCall::PreUpdate { handler: (step - stage_count) / 2, result }
        } else {
            JobCall::PostUpdate { handler: (step - stage_count) / 2, result }
        }
    }
}

/// Number of calls that a job of `job_len` steps over `stage_count` update stages
/// makes, if it runs `steps` steps with success: one `process_events` for each
/// update stage, the steps that succeed, and the step that stops it, if one does.
pub open spec fn job_call_count(stage_count: int, job_len: int, steps: int) -> int {
    stage_count + steps + if steps < job_len {
        1int
    } else {
        0int
    }
}

/// All calls of one job, in the order in which the job makes them.
pub open spec fn job_calls(
    stage_count: int,
    job_len: int,
    steps: int,
    terminal: EngineUpdateResult,
) -> Seq<JobCall> {
    Seq::new(
        job_call_count(stage_count, job_len, steps) as nat,
        |position: int| job_call(stage_count, position, steps, terminal),
    )
}

/// The update job record: what the calling thread and the update job share.
pub struct UpdateStagesThreadedState {
    /// The update stages, in the order of their registration.
    stages: Vec<BoxedUpdateStage>,
    /// Result of a job that stopped early, until the next call consumes it.
    last_result: Option<EngineUpdateResult>,
    /// The update-thread handlers of the render stages, in the order of their
    /// registration.
    render_stage_update_handlers: Vec<BoxedUpdateThreadHandler>,
    /// The scenes that the update stages work on.
    scene_manager: SceneManager,
    /// Whether a job has signalled that it is done.
    completed: bool,
    /// Every call that jobs have made on the stages and handlers, oldest first.
    job_log: Ghost<Seq<JobCall>>,
}

impl UpdateStagesThreadedState {
    /// The update stages, in the order of their registration.
    pub closed spec fn update_stages(&self) -> Seq<BoxedUpdateStage> {
        self.stages@
    }

    /// The update-thread handlers, in the order of their registration.
    pub closed spec fn update_handlers(&self) -> Seq<BoxedUpdateThreadHandler> {
        self.render_stage_update_handlers@
    }

    /// Result of a job that stopped early and that no call has consumed yet.
    pub closed spec fn last_result(&self) -> Option<EngineUpdateResult> {
        self.last_result
    }

    /// Whether a job has signalled that it is done.
    pub closed spec fn is_completed(&self) -> bool {
        self.completed
    }

    /// Every call that jobs have made on the stages and handlers of the record,
    /// oldest first.
    pub closed spec fn job_log(&self) -> Seq<JobCall> {
        self.job_log@
    }

    /// Number of steps in one job: one per update stage, two per handler.
    pub open spec fn job_len(&self) -> int {
        (self.update_stages().len() + 2 * self.update_handlers().len()) as int
    }

    /// What the next rendezvous finds: the recorded result once the job that
    /// recorded it has signalled, success where nothing was recorded, and `None`
    /// where a result is recorded but its job has not signalled yet.
    pub open spec fn previous_result(&self) -> Option<EngineUpdateResult> {
        match self.last_result() {
            Some(result) => if self.is_completed() {
                Some(result)
            } else {
                None
            },
            None => Some(EngineUpdateResult::Success),
        }
    }

    /// The record is at rest: a result that is recorded has been signalled. Every
    /// record is at rest whenever its lock is free, since the job body records and
    /// signals in one go.
    pub open spec fn is_at_rest(&self) -> bool {
        self.last_result().is_some() ==> self.is_completed()
    }

    /// `after` is this record once a job has run on it that made `steps` steps
    /// with success and ended with `terminal`.
    ///
    /// The steps of a job are, in this order: the update of each update stage, in
    /// registration order; then, handler by handler in registration order, the
    /// first and the second hook. The job stops at the first step that does not
    /// succeed. Before the first step every update stage processes its events.
    /// The record's log of calls grows by the calls of the job in the order in
    /// which they were made, so that all processing of events comes before all
    /// updating.
    pub open spec fn job_ran(
        &self,
        after: UpdateStagesThreadedState,
        steps: int,
        terminal: EngineUpdateResult,
    ) -> bool {
        let stage_count = self.update_stages().len() as int;
        let handler_count = self.update_handlers().len() as int;
        &&& after.update_stages().len() == stage_count
        &&& after.update_handlers().len() == handler_count
        &&& 0 <= steps <= self.job_len()
        &&& (terminal == EngineUpdateResult::Success) == (steps == self.job_len())
        &&& forall|j: int|
            0 <= j < stage_count ==> (#[trigger] after.update_stages()[j]).stage.calls()
                == stage_calls_after_job(self.update_stages()[j].stage.calls(), j, steps, terminal)
        &&& forall|h: int|
            0 <= h < handler_count ==> (#[trigger] after.update_handlers()[h]).handler.calls()
                == handler_calls_after_job(
                self.update_handlers()[h].handler.calls(),
                stage_count + 2 * h,
                steps,
                terminal,
            )
        &&& after.is_completed()
        &&& after.last_result() == (if terminal == EngineUpdateResult::Success {
            self.last_result()
        } else {
            Some(terminal)
        })
        &&& after.job_log() == self.job_log() + job_calls(
            stage_count,
            self.job_len(),
            steps,
            terminal,
        )
    }

    /// A record that no job has run on yet.
    pub fn new(
        stages: Vec<BoxedUpdateStage>,
        render_stage_update_handlers: Vec<BoxedUpdateThreadHandler>,
    ) -> (record: Self)
        ensures
            record.update_stages() == stages@,
            record.update_handlers() == render_stage_update_handlers@,
            record.last_result().is_none(),
            !record.is_completed(),
            record.is_at_rest(),
            record.job_log() == Seq::<JobCall>::empty(),
    {
        UpdateStagesThreadedState {
            stages,
            last_result: None,
            render_stage_update_handlers,
            scene_manager: SceneManager::new(),
            completed: false,
            job_log: Ghost(Seq::empty()),
        }
    }

    /// The rendezvous with the job before, made under the record's lock.
    ///
    /// Returns what `previous_result` says. `None` tells the caller to sleep on the
    /// wake signal and ask again; the record is then unchanged. A recorded result
    /// is consumed: the slot and the signal are cleared. Where nothing was
    /// recorded the answer is success and the record is unchanged.
    pub fn take_previous_result(&mut self) -> (previous: Option<EngineUpdateResult>)
        ensures
            previous == old(self).previous_result(),
            final(self).update_stages() == old(self).update_stages(),
            final(self).update_handlers() == old(self).update_handlers(),
            final(self).job_log() == old(self).job_log(),
            old(self).last_result().is_some() && previous.is_some()
                ==> final(self).last_result().is_none() && !final(self).is_completed(),
            old(self).last_result().is_none() || previous.is_none() ==> *final(self) == *old(self),
            old(self).is_at_rest() ==> final(self).is_at_rest() && previous.is_some(),
            previous.is_some() ==> final(self).last_result().is_none(),
    {
        match self.last_result {
            Some(result) => {
                if self.completed {
                    self.completed = false;
                    self.last_result = None;
                    Some(result)
                } else {
                    None
                }
            },
            None => Some(EngineUpdateResult::Success),
        }
    }

    /// The body of one update job, run on a worker under the record's lock.
    ///
    /// Every update stage processes its events. Then the steps run in order until
    /// one does not succeed; its result is recorded for the next rendezvous. In
    /// every case the record is marked as completed before the body returns, and
    /// the caller owes one waiter a wake-up. Returns how the job ended.
    pub fn run_update_job(
        &mut self,
        resources: &Arc<EngineResourceManager>,
        dispatcher: &Arc<Dispatcher>,
    ) -> (terminal: EngineUpdateResult)
        ensures
            exists|steps: int| old(self).job_ran(*final(self), steps, terminal),
    {
        let stage_count = self.stages.len();
        let handler_count = self.render_stage_update_handlers.len();
        let ghost log_before = self.job_log@;
        let ghost count = stage_count as int;
        let mut i: usize = 0;
        proof {
            assert(self.job_log@ =~= log_before + Seq::new(
                0,
                |p: int| job_call(count, p, 0, EngineUpdateResult::Success),
            ));
        }
        while i < stage_count
            invariant
                i <= stage_count,
                count == stage_count,
                log_before == old(self).job_log@,
                stage_count == self.stages@.len(),
                stage_count == old(self).stages@.len(),
                self.render_stage_update_handlers@ == old(self).render_stage_update_handlers@,
                self.last_result == old(self).last_result,
                self.job_log@ == log_before + Seq::new(
                    i as nat,
                    |p: int| job_call(count, p, 0, EngineUpdateResult::Success),
                ),
                forall|j: int|
                    0 <= j < i
                        ==> (#[trigger] self.stages@[j]).stage.calls()
                            == old(self).stages@[j].stage.calls().push(UpdateStageCall::ProcessEvents),
                forall|j: int| i <= j < stage_count ==> self.stages@[j] == old(self).stages@[j],
            decreases stage_count - i,
        {
            self.stages[i].stage.process_events();
            proof {
                self.job_log@ = self.job_log@.push(JobCall::ProcessEvents { stage: i as int });
                assert(self.job_log@ =~= log_before + Seq::new(
                    (i + 1) as nat,
                    |p: int| job_call(count, p, 0, EngineUpdateResult::Success),
                ));
            }
            i += 1;
        }
        let mut terminal = EngineUpdateResult::Success;
        let mut i: usize = 0;
        proof {
            assert(self.job_log@ =~= log_before + Seq::new(
                count as nat,
                |p: int| job_call(count, p, 0, terminal),
            ));
        }
        while i < stage_count && terminal == EngineUpdateResult::Success
            invariant
                i <= stage_count,
                count == stage_count,
                log_before == old(self).job_log@,
                self.job_log@ == log_before + Seq::new(
                    (count + i) as nat,
                    |p: int|
                        job_call(
                            count,
                            p,
                            if terminal == EngineUpdateResult::Success {
                                i as int
                            } else {
                                i - 1
                            },
                            terminal,
                        ),
                ),
                stage_count == self.stages@.len(),
                stage_count == old(self).stages@.len(),
                self.render_stage_update_handlers@ == old(self).render_stage_update_handlers@,
                self.last_result == old(self).last_result,
                terminal != EngineUpdateResult::Success ==> i >= 1,
                forall|j: int|
                    0 <= j < i ==> (#[trigger] self.stages@[j]).stage.calls()
                        == stage_calls_after_job(
                        old(self).stages@[j].stage.calls(),
                        j,
                        if terminal == EngineUpdateResult::Success {
                            i as int
                        } else {
                            i - 1
                        },
                        terminal,
                    ),
                forall|j: int|
                    i <= j < stage_count
                        ==> (#[trigger] self.stages@[j]).stage.calls()
                            == old(self).stages@[j].stage.calls().push(UpdateStageCall::ProcessEvents),
            decreases stage_count - i,
        {
            let input = UpdateStageUpdateInput::new(
                resources.clone(),
                dispatcher.clone(),
                &mut self.scene_manager,
            );
            terminal = self.stages[i].stage.update(input);
            proof {
                self.job_log@ = self.job_log@.push(
                    JobCall::Update { stage: i as int, result: terminal },
                );
                assert(self.job_log@ =~= log_before + Seq::new(
                    (count + i + 1) as nat,
                    |p: int|
                        job_call(
                            count,
                            p,
                            if terminal == EngineUpdateResult::Success {
                                i + 1
                            } else {
                                i as int
                            },
                            terminal,
                        ),
                ));
            }
            i += 1;
        }
        let ghost mut steps: int = if terminal == EngineUpdateResult::Success {
            stage_count as int
        } else {
            i - 1
        };
        let mut h: usize = 0;
        proof {
            assert(self.job_log@ =~= log_before + Seq::new(
                (count + steps + if terminal == EngineUpdateResult::Success {
                    0int
                } else {
                    1int
                }) as nat,
                |p: int| job_call(count, p, steps, terminal),
            ));
        }
        while h < handler_count && terminal == EngineUpdateResult::Success
            invariant
                h <= handler_count,
                count == stage_count,
                log_before == old(self).job_log@,
                self.job_log@ == log_before + Seq::new(
                    (count + steps + if terminal == EngineUpdateResult::Success {
                        0int
                    } else {
                        1int
                    }) as nat,
                    |p: int| job_call(count, p, steps, terminal),
                ),
                handler_count == self.render_stage_update_handlers@.len(),
                handler_count == old(self).render_stage_update_handlers@.len(),
                stage_count == self.stages@.len(),
                stage_count == old(self).stages@.len(),
                self.last_result == old(self).last_result,
                0 <= steps <= stage_count + 2 * h,
                terminal == EngineUpdateResult::Success ==> steps == stage_count + 2 * h,
                terminal != EngineUpdateResult::Success ==> steps < stage_count || (h >= 1
                    && steps >= stage_count + 2 * (h - 1)),
                terminal != EngineUpdateResult::Success ==> steps < stage_count + 2 * h,
                forall|j: int|
                    0 <= j < stage_count ==> (#[trigger] self.stages@[j]).stage.calls()
                        == stage_calls_after_job(
                        old(self).stages@[j].stage.calls(),
                        j,
                        steps,
                        terminal,
                    ),
                forall|k: int|
                    0 <= k < h
                        ==> (#[trigger] self.render_stage_update_handlers@[k]).handler.calls()
                        == handler_calls_after_job(
                        old(self).render_stage_update_handlers@[k].handler.calls(),
                        stage_count + 2 * k,
                        steps,
                        terminal,
                    ),
                forall|k: int|
                    h <= k < handler_count
                        ==> self.render_stage_update_handlers@[k]
                            == old(self).render_stage_update_handlers@[k],
            decreases handler_count - h,
        {
            let input = UpdateStageUpdateInput::new(
                resources.clone(),
                dispatcher.clone(),
                &mut self.scene_manager,
            );
            let first = self.render_stage_update_handlers[h].handler.pre_update(input);
            proof {
                self.job_log@ = self.job_log@.push(
                    JobCall::PreUpdate { handler: h as int, result: first },
                );
                assert(self.job_log@ =~= log_before + Seq::new(
                    (count + steps + 1) as nat,
                    |p: int|
                        job_call(
                            count,
                            p,
                            if first == EngineUpdateResult::Success {
                                steps + 1
                            } else {
                                steps
                            },
                            first,
                        ),
                ));
            }
            if first == EngineUpdateResult::Success {
                let input = UpdateStageUpdateInput::new(
                    resources.clone(),
                    dispatcher.clone(),
                    &mut self.scene_manager,
                );
                let second = self.render_stage_update_handlers[h].handler.post_update(input);
                proof {
                    self.job_log@ = self.job_log@.push(
                        JobCall::PostUpdate { handler: h as int, result: second },
                    );
                    assert(self.job_log@ =~= log_before + Seq::new(
                        (count + steps + 2) as nat,
                        |p: int|
                            job_call(
                                count,
                                p,
                                if second == EngineUpdateResult::Success {
                                    steps + 2
                                } else {
                                    steps + 1
                                },
                                second,
                            ),
                    ));
                }
                if second == EngineUpdateResult::Success {
                    proof {
                        steps = steps + 2;
                    }
                } else {
                    terminal = second;
                    proof {
                        steps = steps + 1;
                    }
                }
            } else {
                terminal = first;
            }
            h += 1;
        }
        if terminal != EngineUpdateResult::Success {
            self.last_result = Some(terminal);
        }
        self.completed = true;
        proof {
            assert(old(self).job_ran(*self, steps, terminal));
        }
        terminal
    }
}

/// After a job has run on a record that held no unconsumed result, the next
/// rendezvous finds exactly how that job ended, without waiting: success if all
/// steps succeeded, else the result of the step that stopped it.
pub proof fn lemma_rendezvous_finds_job_result(
    before: UpdateStagesThreadedState,
    after: UpdateStagesThreadedState,
    steps: int,
    terminal: EngineUpdateResult,
)
    requires
        before.last_result().is_none(),
        before.job_ran(after, steps, terminal),
    ensures
        after.previous_result() == Some(terminal),
{
}

/// A rendezvous with a record at rest never has to wait, and the job body and the
/// rendezvous both leave the record at rest.
pub proof fn lemma_record_at_rest_never_waits(
    before: UpdateStagesThreadedState,
    after: UpdateStagesThreadedState,
    steps: int,
    terminal: EngineUpdateResult,
)
    requires
        before.job_ran(after, steps, terminal),
    ensures
        after.is_at_rest(),
        after.previous_result().is_some(),
        before.is_at_rest() ==> before.previous_result().is_some(),
{
}

/// A record that no job has run on answers the first rendezvous with success.
pub proof fn lemma_first_rendezvous_finds_success(record: UpdateStagesThreadedState)
    requires
        record.last_result().is_none(),
    ensures
        record.previous_result() == Some(EngineUpdateResult::Success),
{
}

/// Within one job every update stage has processed its events before any stage is
/// updated and before any hook runs, and both come in the order of
/// registration.
pub proof fn lemma_events_precede_updates(
    stage_count: int,
    job_len: int,
    steps: int,
    terminal: EngineUpdateResult,
)
    requires
        0 <= stage_count <= job_len,
        0 <= steps <= job_len,
    ensures
        ({
            let calls = job_calls(stage_count, job_len, steps, terminal);
            &&& calls.len() == job_call_count(stage_count, job_len, steps)
            &&& forall|p: int|
                0 <= p < stage_count ==> #[trigger] calls[p] == (JobCall::ProcessEvents { stage: p })
            &&& forall|p: int|
                stage_count <= p < calls.len() ==> !(#[trigger] calls[p] is ProcessEvents)
            &&& forall|p: int|
                stage_count <= p < calls.len() && p < 2 * stage_count ==> #[trigger] calls[p] == (
                JobCall::Update {
                    stage: p - stage_count,
                    result: if p - stage_count < steps {
                        EngineUpdateResult::Success
                    } else {
                        terminal
                    },
                })
        }),
{
}

/// A job that stops at an update stage leaves every later update stage without an
/// update and every handler without a call; it is completed all the same.
pub proof fn lemma_failed_stage_stops_job(
    before: UpdateStagesThreadedState,
    after: UpdateStagesThreadedState,
    steps: int,
    terminal: EngineUpdateResult,
)
    requires
        before.job_ran(after, steps, terminal),
        steps < before.update_stages().len(),
    ensures
        terminal != EngineUpdateResult::Success,
        after.is_completed(),
        after.last_result() == Some(terminal),
        after.update_stages()[steps].stage.calls() == before.update_stages()[steps].stage.calls().push(
            UpdateStageCall::ProcessEvents,
        ).push(UpdateStageCall::Update(terminal)),
        forall|j: int|
            steps < j < before.update_stages().len()
                ==> (#[trigger] after.update_stages()[j]).stage.calls()
                == before.update_stages()[j].stage.calls().push(UpdateStageCall::ProcessEvents),
        forall|h: int|
            0 <= h < before.update_handlers().len() ==> (
            #[trigger] after.update_handlers()[h]).handler.calls()
                == before.update_handlers()[h].handler.calls(),
{
}

/// A record behind its lock, together with the wake signal: the link between the
/// calling thread and the update jobs. The embedding program implements it.
pub trait SharedThreadedState: 'static {
    /// Whether `record` is the record that was put behind this lock. An
    /// implementation that says nothing of it leaves every record possible.
    open spec fn guards(&self, record: UpdateStagesThreadedState) -> bool {
        true
    }

    /// Takes the lock and asks the record with
    /// `UpdateStagesThreadedState::take_previous_result`; for as long as the
    /// answer is `None`, sleeps on the wake signal and asks again. Returns the
    /// answer.
    fn wait_for_previous_update_completed(&self) -> EngineUpdateResult;

    /// Makes one update job: a task that takes the lock, runs
    /// `UpdateStagesThreadedState::run_update_job` with the two handles, and wakes
    /// one waiter.
    fn update_job(
        &self,
        resources: Arc<EngineResourceManager>,
        dispatcher: Arc<Dispatcher>,
    ) -> BoxedDispatchTask;
}

/// A `SharedThreadedState` of any kind.
pub struct ThreadedStateHandle {
    /// The shared record.
    pub shared: Box<dyn SharedThreadedState>,
}

/// Puts a record behind a lock of the embedding program's choice.
pub trait ThreadedStateSharer: 'static {
    /// Takes the record over and hands back the handle to it: the lock that
    /// comes back guards this record.
    fn share(&self, record: UpdateStagesThreadedState) -> (handle: ThreadedStateHandle)
        ensures
            handle.shared.guards(record),
    ;
}

/// The calling thread's end of the handoff.
pub struct UpdateStagesRunner {
    threaded_state: ThreadedStateHandle,
    dispatch_system: Arc<Dispatcher>,
    initial_record: Ghost<UpdateStagesThreadedState>,
    jobs_enqueued: Ghost<nat>,
    results: Ghost<Seq<EngineUpdateResult>>,
}

impl UpdateStagesRunner {
    /// Builds a fresh job record from the stages and handlers, puts it behind its
    /// lock and keeps the handle: the lock that the runner holds guards the record
    /// that `initial_record` speaks of.
    pub fn new(
        stages: Vec<BoxedUpdateStage>,
        render_stage_update_handlers: Vec<BoxedUpdateThreadHandler>,
        dispatch_system: Arc<Dispatcher>,
        sharer: &Box<dyn ThreadedStateSharer>,
    ) -> (runner: Self)
        ensures
            runner.initial_record().update_stages() == stages@,
            runner.initial_record().update_handlers() == render_stage_update_handlers@,
            runner.initial_record().last_result().is_none(),
            !runner.initial_record().is_completed(),
            runner.guards(runner.initial_record()),
            runner.dispatch_system() == dispatch_system,
            runner.jobs_enqueued() == 0,
            runner.results() == Seq::<EngineUpdateResult>::empty(),
    {
        let record = UpdateStagesThreadedState::new(stages, render_stage_update_handlers);
        let ghost initial_record = record;
        let threaded_state = sharer.share(record);
        UpdateStagesRunner {
            threaded_state,
            dispatch_system,
            initial_record: Ghost(initial_record),
            jobs_enqueued: Ghost(0),
            results: Ghost(Seq::empty()),
        }
    }

    /// Whether `record` is the record behind the lock that the runner holds.
    pub closed spec fn guards(&self, record: UpdateStagesThreadedState) -> bool {
        self.threaded_state.shared.guards(record)
    }

    /// What the calls of `update` and `enqueue_after` have handed back so far,
    /// oldest first.
    pub closed spec fn results(&self) -> Seq<EngineUpdateResult> {
        self.results@
    }

    /// Number of update jobs that the runner has handed to the worker pool.
    pub closed spec fn jobs_enqueued(&self) -> nat {
        self.jobs_enqueued@
    }

    /// The job record as it was when the runner put it behind its lock.
    pub closed spec fn initial_record(&self) -> UpdateStagesThreadedState {
        self.initial_record@
    }

    /// The worker pool that the jobs are enqueued on.
    pub closed spec fn dispatch_system(&self) -> Arc<Dispatcher> {
        self.dispatch_system
    }

    /// One call per fixed step that is due. Consumes the result of the job before
    /// and returns it; unless that result is a restart, enqueues the next job.
    ///
    /// The result comes from the shared record and so from whatever the stages
    /// returned on the worker: nothing is known of it here. What follows from each
    /// value is fixed by `enqueue_after`. The shared state is only read, and what
    /// is handed back joins `results`.
    pub fn update<P: PlatformInterface>(
        &mut self,
        shared_state: &mut EngineSharedState<P>,
    ) -> (previous_message: EngineUpdateResult)
        ensures
            *final(shared_state) == *old(shared_state),
            final(self).initial_record() == old(self).initial_record(),
            final(self).dispatch_system() == old(self).dispatch_system(),
            final(self).jobs_enqueued() == old(self).jobs_enqueued() + (if previous_message
                == EngineUpdateResult::Restart {
                0nat
            } else {
                1nat
            }),
            final(self).results() == old(self).results().push(previous_message),
            forall|record: UpdateStagesThreadedState|
                final(self).guards(record) == old(self).guards(record),
    {
        let previous_message = self.wait_for_previous_update_completed();
        self.enqueue_after(previous_message, shared_state)
    }

    /// Waits, where there is something to wait for, until the job before has
    /// signalled, and consumes its result.
    fn wait_for_previous_update_completed(&mut self) -> (previous_message: EngineUpdateResult)
        ensures
            final(self).initial_record() == old(self).initial_record(),
            final(self).dispatch_system() == old(self).dispatch_system(),
            final(self).jobs_enqueued() == old(self).jobs_enqueued(),
            final(self).results() == old(self).results(),
            forall|record: UpdateStagesThreadedState|
                final(self).guards(record) == old(self).guards(record),
    {
        self.threaded_state.shared.wait_for_previous_update_completed()
    }

    /// The second half of `update`, for the result that the rendezvous gave.
    /// Hands the result back as it is and notes it in `results`. Unless it is a restart, one job is made
    /// for the resources of the shared state and enqueued on the worker pool; after
    /// a restart none is.
    pub fn enqueue_after<P: PlatformInterface>(
        &mut self,
        previous_message: EngineUpdateResult,
        shared_state: &mut EngineSharedState<P>,
    ) -> (returned: EngineUpdateResult)
        ensures
            returned == previous_message,
            *final(shared_state) == *old(shared_state),
            final(self).initial_record() == old(self).initial_record(),
            final(self).dispatch_system() == old(self).dispatch_system(),
            final(self).jobs_enqueued() == old(self).jobs_enqueued() + (if previous_message
                == EngineUpdateResult::Restart {
                0nat
            } else {
                1nat
            }),
            final(self).results() == old(self).results().push(previous_message),
            forall|record: UpdateStagesThreadedState|
                final(self).guards(record) == old(self).guards(record),
    {
        proof {
            self.results@ = self.results@.push(previous_message);
        }
        if previous_message.allows_enqueue() {
            let resources = shared_state.resources.clone();
            let dispatcher = self.dispatch_system.clone();
            let job = self.threaded_state.shared.update_job(resources, dispatcher);
            self.dispatch_system.spawn(job);
            proof {
                self.jobs_enqueued@ = self.jobs_enqueued@ + 1;
            }
        }
        previous_message
    }
}

} // verus!
