//! The phase of an engine that is suspended: nothing updates, nothing renders,
//! and everything is kept for resuming.

use crate::engine::engine_states::running::Running;
use crate::engine::engine_states::shared_state::EngineSharedState;
use crate::engine::engine_states::statemachine::StateMachine;
use crate::engine::engine_states::update_stages_runner::UpdateStagesRunner;
use crate::engine::result::EngineUpdateResult;
use crate::engine_stages::render_stage::BoxedRenderStage;
use crate::platform::PlatformInterface;
use vstd::prelude::*;

verus! {

/// What a running engine had, kept as it was.
#[verifier::reject_recursive_types(P)]
pub struct Suspended<P: PlatformInterface> {
    /// The calling thread's end of the handoff.
    pub update_stages_runner: UpdateStagesRunner,
    /// The render stages, in the order of their registration.
    pub render_stages: Vec<BoxedRenderStage<P>>,
}

impl<P: PlatformInterface> StateMachine<Suspended<P>, EngineSharedState<P>> {
    /// This phase, running again: every part is the same.
    pub open spec fn resumed(self) -> StateMachine<Running<P>, EngineSharedState<P>> {
        StateMachine {
            shared: self.shared,
            state: Running {
                update_stages_runner: self.state.update_stages_runner,
                render_stages: self.state.render_stages,
            },
        }
    }

    /// Moves every part into the running phase.
    pub fn resume(self) -> (running: StateMachine<Running<P>, EngineSharedState<P>>)
        ensures
            running == self.resumed(),
    {
        StateMachine {
            shared: self.shared,
            state: Running {
                update_stages_runner: self.state.update_stages_runner,
                render_stages: self.state.render_stages,
            },
        }
    }

    /// One tick of a suspended engine: services the executor of asynchronous
    /// tasks once. No time is accumulated, no update job is enqueued or awaited,
    /// and no stage renders.
    pub fn tick(&mut self, interface: &mut P) -> (result: EngineUpdateResult)
        ensures
            result == EngineUpdateResult::Success,
            *final(self) == *old(self),
            *final(interface) == *old(interface),
    {
        self.shared.internal_resources.dispatcher.drive_pending();
        EngineUpdateResult::Success
    }
}

} // verus!
