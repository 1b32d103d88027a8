//! The phase of an engine whose stages are built and wait to run.

use crate::engine::engine_states::running::Running;
use crate::engine::engine_states::shared_state::EngineSharedState;
use crate::engine::engine_states::statemachine::StateMachine;
use crate::engine::engine_states::uninitialized::Uninitialized;
use crate::engine::engine_states::update_stages_runner::UpdateStagesRunner;
use crate::engine::result::EngineUpdateResult;
use crate::engine_stages::render_stage::BoxedRenderStage;
use crate::engine_stages::render_stage::BoxedUpdateThreadHandler;
use crate::engine_stages::render_stage::RenderStageCall;
use crate::engine_stages::render_stage::RenderStageConstructorInput;
use crate::engine_stages::render_stage::UpdateThreadHandlerCall;
use crate::engine_stages::update_stage::BoxedUpdateStage;
use crate::engine_stages::update_stage::UpdateStageConstructorInput;
use crate::platform::PlatformInterface;
use vstd::prelude::*;

verus! {

/// The stages, built and in the order of their registration.
#[verifier::reject_recursive_types(P)]
pub struct Initialized<P: PlatformInterface> {
    /// The update stages.
    pub update_stages: Vec<BoxedUpdateStage>,
    /// The render stages.
    pub render_stages: Vec<BoxedRenderStage<P>>,
}

impl<P: PlatformInterface> StateMachine<Initialized<P>, EngineSharedState<P>> {
    /// `self` is what initializing makes of the configuration in `shared`: there
    /// is one update stage for each constructor of update stages and one render
    /// stage for each constructor of render stages, in the order of the
    /// configuration, and each stage is one that its constructor builds when it
    /// is handed the shared resources.
    pub open spec fn built_from(self, shared: EngineSharedState<P>) -> bool {
        &&& self.shared == shared
        &&& self.state.update_stages@.len() == shared.create_info.update_stages@.len()
        &&& self.state.render_stages@.len() == shared.create_info.render_stages@.len()
        &&& forall|j: int|
            0 <= j < self.state.update_stages@.len()
                ==> shared.create_info.update_stages@[j].builds(
                shared.resources,
                #[trigger] self.state.update_stages@[j],
            )
        &&& forall|j: int|
            0 <= j < self.state.render_stages@.len()
                ==> shared.create_info.render_stages@[j].builds(
                shared.resources,
                #[trigger] self.state.render_stages@[j],
            )
    }

    /// Builds every stage from its constructor, update stages first, each kind in
    /// the order of the configuration. Every constructor is handed the platform
    /// and the shared resources.
    pub fn initialize(
        uninitialized: StateMachine<Uninitialized, EngineSharedState<P>>,
        interface: &mut P,
    ) -> (machine: Self)
        ensures
            machine.built_from(uninitialized.shared),
    {
        let shared = uninitialized.shared;
        let mut update_stages: Vec<BoxedUpdateStage> = Vec::new();
        let update_count = shared.create_info.update_stages.len();
        let mut i: usize = 0;
        while i < update_count
            invariant
                i <= update_count,
                update_count == shared.create_info.update_stages@.len(),
                update_stages@.len() == i,
                forall|j: int|
                    0 <= j < i ==> shared.create_info.update_stages@[j].builds(
                        shared.resources,
                        #[trigger] update_stages@[j],
                    ),
            decreases update_count - i,
        {
            let input = UpdateStageConstructorInput::new(interface, shared.resources.clone());
            let stage = shared.create_info.update_stages[i].construct(input);
            update_stages.push(stage);
            i += 1;
        }
        let mut render_stages: Vec<BoxedRenderStage<P>> = Vec::new();
        let render_count = shared.create_info.render_stages.len();
        let mut i: usize = 0;
        while i < render_count
            invariant
                i <= render_count,
                render_count == shared.create_info.render_stages@.len(),
                render_stages@.len() == i,
                forall|j: int|
                    0 <= j < i ==> shared.create_info.render_stages@[j].builds(
                        shared.resources,
                        #[trigger] render_stages@[j],
                    ),
            decreases render_count - i,
        {
            let input = RenderStageConstructorInput::new(interface, shared.resources.clone());
            let stage = shared.create_info.render_stages[i].construct(input);
            render_stages.push(stage);
            i += 1;
        }
        StateMachine { shared, state: Initialized { update_stages, render_stages } }
    }

    /// `running` is what `run` makes of this phase: the shared state and the
    /// render stages are the same, each render stage has given out its handler,
    /// and the job record was built from the update stages and those handlers,
    /// the handler of each render stage at the place of that stage. The record is
    /// the one behind the lock that the handoff holds. The handoff is fresh: no
    /// job has been enqueued, no result has been handed back, and the jobs to
    /// come go to the worker pool of the shared state.
    pub open spec fn started(
        self,
        running: StateMachine<Running<P>, EngineSharedState<P>>,
    ) -> bool {
        let record = running.state.update_stages_runner.initial_record();
        &&& running.shared == self.shared
        &&& running.state.render_stages@.len() == self.state.render_stages@.len()
        &&& forall|j: int|
            0 <= j < self.state.render_stages@.len() ==> (
            #[trigger] running.state.render_stages@[j]).stage.calls()
                == self.state.render_stages@[j].stage.calls().push(
                RenderStageCall::GetUpdateThreadHandler,
            )
        &&& record.update_stages() == self.state.update_stages@
        &&& record.update_handlers().len() == self.state.render_stages@.len()
        &&& forall|j: int|
            0 <= j < record.update_handlers().len() ==> (
            #[trigger] record.update_handlers()[j]).handler.calls() == Seq::<
                UpdateThreadHandlerCall,
            >::empty()
        &&& forall|j: int|
            0 <= j < record.update_handlers().len() ==> self.state.render_stages@[j].stage.gives_out(
                #[trigger] record.update_handlers()[j],
            )
        &&& record.last_result().is_none()
        &&& !record.is_completed()
        &&& running.state.update_stages_runner.guards(record)
        &&& running.state.update_stages_runner.jobs_enqueued() == 0
        &&& running.state.update_stages_runner.results() == Seq::<EngineUpdateResult>::empty()
        &&& running.state.update_stages_runner.dispatch_system()
            == self.shared.internal_resources.dispatcher
    }

    /// Builds the update job record afresh and starts running.
    pub fn run(self) -> (running: StateMachine<Running<P>, EngineSharedState<P>>)
        ensures
            self.started(running),
    {
        let shared = self.shared;
        let update_stages = self.state.update_stages;
        let mut render_stages = self.state.render_stages;
        let mut handlers: Vec<BoxedUpdateThreadHandler> = Vec::new();
        let render_count = render_stages.len();
        let mut i: usize = 0;
        while i < render_count
            invariant
                i <= render_count,
                render_count == render_stages@.len(),
                render_count == self.state.render_stages@.len(),
                handlers@.len() == i,
                forall|j: int|
                    0 <= j < i ==> (#[trigger] render_stages@[j]).stage.calls()
                        == self.state.render_stages@[j].stage.calls().push(
                        RenderStageCall::GetUpdateThreadHandler,
                    ),
                forall|j: int| i <= j < render_count
                    ==> render_stages@[j] == self.state.render_stages@[j],
                forall|j: int|
                    0 <= j < i ==> (#[trigger] handlers@[j]).handler.calls() == Seq::<
                        UpdateThreadHandlerCall,
                    >::empty(),
                forall|j: int|
                    0 <= j < i ==> self.state.render_stages@[j].stage.gives_out(
                        #[trigger] handlers@[j],
                    ),
            decreases render_count - i,
        {
            let handler = render_stages[i].stage.get_update_thread_handler();
            handlers.push(handler);
            i += 1;
        }
        let update_stages_runner = UpdateStagesRunner::new(
            update_stages,
            handlers,
            shared.internal_resources.dispatcher.clone(),
            &shared.create_info.threaded_state_sharer,
        );
        StateMachine { shared, state: Running { update_stages_runner, render_stages } }
    }
}

} // verus!
