//! The lifecycle state machine: which phase the engine is in, and the moves from
//! one phase to the next.
//!
//! Exactly one phase is live at a time. A transition takes the old phase by value
//! and produces the new one; what both phases need is moved, never rebuilt. A
//! transition that the current phase does not allow changes nothing.

use crate::engine::create_info::EngineCreateInfo;
use crate::engine::engine_states::initialized::Initialized;
use crate::engine::engine_states::running::Running;
use crate::engine::engine_states::shared_state::EngineSharedState;
use crate::engine::engine_states::suspended::Suspended;
use crate::engine::engine_states::uninitialized::Uninitialized;
use crate::engine::gameloop_timer::TimerState;
use crate::platform::PlatformInitializationHandler;
use crate::platform::PlatformInterface;
use vstd::prelude::*;

verus! {

/// One phase of a state machine: the state of the phase itself and the state that
/// all phases share.
pub struct StateMachine<State, SharedState = ()> {
    /// What all phases share.
    pub shared: SharedState,
    /// What belongs to this phase.
    pub state: State,
}

impl<S> From<S> for StateMachine<S, ()> {
    fn from(state: S) -> (machine: Self) {
        return Self { shared: (), state };
    }
}

impl<S> vstd::std_specs::convert::FromSpecImpl<S> for StateMachine<S, ()> {
    open spec fn obeys_from_spec() -> bool {
        true
    }

    open spec fn from_spec(state: S) -> Self {
        StateMachine { shared: (), state }
    }
}

impl<State, SharedState> From<(State, SharedState)> for StateMachine<State, SharedState> {
    fn from(state: (State, SharedState)) -> (machine: Self) {
        let (state, shared) = state;
        return Self { shared, state };
    }
}

impl<State, SharedState> vstd::std_specs::convert::FromSpecImpl<(State, SharedState)> for StateMachine<State, SharedState> {
    open spec fn obeys_from_spec() -> bool {
        true
    }

    open spec fn from_spec(state: (State, SharedState)) -> Self {
        StateMachine { shared: state.1, state: state.0 }
    }
}

/// A phase of the engine.
pub type EngineStateMachine<T, P> = StateMachine<T, EngineSharedState<P>>;

/// The four phases that an engine can be in.
#[derive(Clone, Copy, Debug, PartialEq, Eq, Structural)]
pub enum EnginePhase {
    /// Constructed, nothing built yet.
    Uninitialized,
    /// The stages are built.
    Initialized,
    /// Ticks update and render.
    Running,
    /// Ticks neither update nor render; everything is kept for resuming.
    Suspended,
}

/// The five moves between phases.
#[derive(Clone, Copy, Debug, PartialEq, Eq, Structural)]
pub enum EngineTransition {
    /// From uninitialized to initialized.
    Initialize,
    /// From initialized to running.
    Run,
    /// From running to suspended.
    Suspend,
    /// From suspended to running.
    Resume,
    /// From any phase to uninitialized.
    Reset,
}

/// Whether `transition` is accepted in `phase`.
pub open spec fn is_allowed(phase: EnginePhase, transition: EngineTransition) -> bool {
    match transition {
        EngineTransition::Initialize => phase == EnginePhase::Uninitialized,
        EngineTransition::Run => phase == EnginePhase::Initialized,
        EngineTransition::Suspend => phase == EnginePhase::Running,
        EngineTransition::Resume => phase == EnginePhase::Suspended,
        EngineTransition::Reset => true,
    }
}

/// The phase that `transition` leads to from `phase`: the phase itself where the
/// transition is not accepted.
pub open spec fn phase_after(phase: EnginePhase, transition: EngineTransition) -> EnginePhase {
    if !is_allowed(phase, transition) {
        phase
    } else {
        match transition {
            EngineTransition::Initialize => EnginePhase::Initialized,
            EngineTransition::Run => EnginePhase::Running,
            EngineTransition::Suspend => EnginePhase::Suspended,
            EngineTransition::Resume => EnginePhase::Running,
            EngineTransition::Reset => EnginePhase::Uninitialized,
        }
    }
}

/// The engine in whichever phase it is.
#[verifier::reject_recursive_types(P)]
pub enum EngineState<P: PlatformInterface> {
    /// Constructed, nothing built yet.
    Uninitialized(EngineStateMachine<Uninitialized, P>),
    /// The stages are built.
    Initialized(EngineStateMachine<Initialized<P>, P>),
    /// Ticks update and render.
    Running(EngineStateMachine<Running<P>, P>),
    /// Ticks neither update nor render; everything is kept for resuming.
    Suspended(EngineStateMachine<Suspended<P>, P>),
    /// Stands in the slot while a transition holds the phase. No caller ever sees
    /// it.
    Invalid,
}

impl<P: PlatformInterface> EngineState<P> {
    /// The shared state of the current phase.
    pub open spec fn spec_shared(&self) -> EngineSharedState<P>
        recommends
            !(self is Invalid),
    {
        match *self {
            EngineState::Uninitialized(e) => e.shared,
            EngineState::Initialized(e) => e.shared,
            EngineState::Running(e) => e.shared,
            EngineState::Suspended(e) => e.shared,
            EngineState::Invalid => arbitrary(),
        }
    }

    /// The phase that the engine is in.
    pub open spec fn spec_phase(&self) -> EnginePhase
        recommends
            !(self is Invalid),
    {
        match *self {
            EngineState::Uninitialized(_) => EnginePhase::Uninitialized,
            EngineState::Initialized(_) => EnginePhase::Initialized,
            EngineState::Running(_) => EnginePhase::Running,
            EngineState::Suspended(_) => EnginePhase::Suspended,
            EngineState::Invalid => arbitrary(),
        }
    }

    /// The engine is in one of its four phases and its shared state is usable.
    pub open spec fn wf(&self) -> bool {
        &&& !(self is Invalid)
        &&& self.spec_shared().wf()
    }

    /// The phase that the engine is in.
    pub fn phase(&self) -> (phase: EnginePhase)
        requires
            !(self is Invalid),
        ensures
            phase == self.spec_phase(),
    {
        match self {
            EngineState::Uninitialized(_) => EnginePhase::Uninitialized,
            EngineState::Initialized(_) => EnginePhase::Initialized,
            EngineState::Running(_) => EnginePhase::Running,
            EngineState::Suspended(_) => EnginePhase::Suspended,
            EngineState::Invalid => vstd::pervasive::unreached(),
        }
    }

    /// The engine as constructed from `create_info`: uninitialized.
    pub fn new(create_info: EngineCreateInfo<P>) -> (engine: Self)
        requires
            create_info.update_tick_rate > 0,
        ensures
            engine.wf(),
            engine is Uninitialized,
            engine.spec_shared().create_info == create_info,
            engine.spec_shared().internal_resources.timings@ == TimerState::initial(
                create_info.update_tick_rate as nat,
                create_info.max_skipped_frames as nat,
            ),
    {
        EngineState::Uninitialized(EngineStateMachine::<Uninitialized, P>::new(create_info))
    }

    /// The shared state of the current phase.
    pub fn shared(&self) -> (shared: &EngineSharedState<P>)
        requires
            !(self is Invalid),
        ensures
            *shared == self.spec_shared(),
    {
        return match self {
            EngineState::Uninitialized(e) => &e.shared,
            EngineState::Initialized(e) => &e.shared,
            EngineState::Running(e) => &e.shared,
            EngineState::Suspended(e) => &e.shared,
            EngineState::Invalid => vstd::pervasive::unreached(),
        };
    }

    /// Initializes the engine: builds the stages from their constructors and lets
    /// the platform hook in before anything else learns of the new phase. The
    /// platform must have wired its event handling before this call.
    ///
    /// Only an uninitialized engine is initialized; in any other phase the call
    /// changes nothing.
    pub fn initialize(&mut self, interface: &mut P) where P: PlatformInitializationHandler
        requires
            old(self).wf(),
        ensures
            final(self).wf(),
            final(self).spec_phase() == phase_after(
                old(self).spec_phase(),
                EngineTransition::Initialize,
            ),
            !is_allowed(old(self).spec_phase(), EngineTransition::Initialize) ==> *final(self)
                == *old(self) && *final(interface) == *old(interface),
            *old(self) is Uninitialized ==> {
                &&& *final(self) matches EngineState::Initialized(machine)
                &&& machine.built_from(old(self).spec_shared())
            },
    {
        let mut taken = EngineState::Invalid;
        core::mem::swap(self, &mut taken);
        *self = match taken {
            EngineState::Uninitialized(s) => {
                let initialized = EngineStateMachine::<Initialized<P>, P>::initialize(s, interface);
                interface.pre_did_initialize();
                EngineState::Initialized(initialized)
            },
            s => s,
        }
    }

    /// Starts running: builds the update job record afresh from the update stages
    /// and the render stages' handlers, and takes over the render stages.
    ///
    /// Only an initialized engine starts running; in any other phase the call
    /// changes nothing.
    pub fn run(&mut self)
        requires
            old(self).wf(),
        ensures
            final(self).wf(),
            final(self).spec_phase() == phase_after(
                old(self).spec_phase(),
                EngineTransition::Run,
            ),
            !is_allowed(old(self).spec_phase(), EngineTransition::Run)
                ==> *final(self) == *old(self),
            *old(self) matches EngineState::Initialized(before) ==> {
                &&& *final(self) matches EngineState::Running(machine)
                &&& before.started(machine)
            },
    {
        let mut taken = EngineState::Invalid;
        core::mem::swap(self, &mut taken);
        *self = match taken {
            EngineState::Initialized(s) => EngineState::Running(s.run()),
            s => s,
        }
    }

    /// Suspends a running engine: the handoff and the render stages move on as
    /// they are. A job that is in flight is neither awaited nor cancelled.
    ///
    /// In any other phase the call changes nothing.
    pub fn suspend(&mut self)
        requires
            old(self).wf(),
        ensures
            final(self).wf(),
            final(self).spec_phase() == phase_after(
                old(self).spec_phase(),
                EngineTransition::Suspend,
            ),
            !is_allowed(old(self).spec_phase(), EngineTransition::Suspend)
                ==> *final(self) == *old(self),
            *old(self) matches EngineState::Running(before) ==> *final(self)
                == EngineState::Suspended(before.suspended()),
    {
        let mut taken = EngineState::Invalid;
        core::mem::swap(self, &mut taken);
        *self = match taken {
            EngineState::Running(s) => EngineState::Suspended(s.suspend()),
            s => s,
        }
    }

    /// Discards everything that the engine has built and constructs it anew,
    /// uninitialized, from the configuration that it was first constructed from.
    /// Accepted in every phase.
    pub fn reset(&mut self)
        requires
            old(self).wf(),
        ensures
            final(self).wf(),
            final(self).spec_phase() == phase_after(
                old(self).spec_phase(),
                EngineTransition::Reset,
            ),
            *final(self) is Uninitialized,
            final(self).spec_shared().create_info == old(self).spec_shared().create_info,
            final(self).spec_shared().internal_resources.timings@ == TimerState::initial(
                old(self).spec_shared().create_info.update_tick_rate as nat,
                old(self).spec_shared().create_info.max_skipped_frames as nat,
            ),
    {
        let mut taken = EngineState::Invalid;
        core::mem::swap(self, &mut taken);
        *self = match taken {
            EngineState::Uninitialized(s) => {
                EngineState::Uninitialized(
                    EngineStateMachine::<Uninitialized, P>::new(s.shared.create_info),
                )
            },
            EngineState::Initialized(s) => {
                EngineState::Uninitialized(
                    EngineStateMachine::<Uninitialized, P>::new(s.shared.create_info),
                )
            },
            EngineState::Running(s) => {
                EngineState::Uninitialized(
                    EngineStateMachine::<Uninitialized, P>::new(s.shared.create_info),
                )
            },
            EngineState::Suspended(s) => {
                EngineState::Uninitialized(
                    EngineStateMachine::<Uninitialized, P>::new(s.shared.create_info),
                )
            },
            EngineState::Invalid => vstd::pervasive::unreached(),
        }
    }

    /// Resumes a suspended engine: the inverse of `suspend`.
    ///
    /// In any other phase the call changes nothing.
    pub fn resume(&mut self)
        requires
            old(self).wf(),
        ensures
            final(self).wf(),
            final(self).spec_phase() == phase_after(
                old(self).spec_phase(),
                EngineTransition::Resume,
            ),
            !is_allowed(old(self).spec_phase(), EngineTransition::Resume)
                ==> *final(self) == *old(self),
            *old(self) matches EngineState::Suspended(before) ==> *final(self)
                == EngineState::Running(before.resumed()),
    {
        let mut taken = EngineState::Invalid;
        core::mem::swap(self, &mut taken);
        *self = match taken {
            EngineState::Suspended(s) => EngineState::Running(s.resume()),
            s => s,
        }
    }
}

} // verus!
