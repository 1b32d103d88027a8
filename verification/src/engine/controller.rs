//! The controller: the engine as the platform holds it.

use crate::engine::create_info::EngineCreateInfo;
use crate::engine::engine_states::statemachine::is_allowed;
use crate::engine::engine_states::statemachine::phase_after;
use crate::engine::engine_states::statemachine::EnginePhase;
use crate::engine::engine_states::statemachine::EngineState;
use crate::engine::engine_states::statemachine::EngineTransition;
use crate::engine::gameloop_timer::TimerState;
use crate::engine::result::EngineUpdateResult;
use crate::platform::PlatformInitializationHandler;
use crate::platform::PlatformInterface;
use vstd::prelude::*;

verus! {

/// Owns the engine's lifecycle state and offers the platform what it may do with
/// it.
#[verifier::reject_recursive_types(P)]
pub struct EngineController<P: PlatformInterface> {
    state: EngineState<P>,
}

impl<P: PlatformInterface> EngineController<P> {
    /// The phase that the engine is in, with all it owns.
    pub closed spec fn state(&self) -> EngineState<P> {
        self.state
    }

    /// The engine is in one of its four phases and its shared state is usable.
    pub open spec fn wf(&self) -> bool {
        self.state().wf()
    }

    /// An uninitialized engine for the given configuration.
    pub fn new(create_info: EngineCreateInfo<P>) -> (controller: Self)
        requires
            create_info.update_tick_rate > 0,
        ensures
            controller.wf(),
            controller.state() is Uninitialized,
            controller.state().spec_shared().create_info == create_info,
            controller.state().spec_shared().internal_resources.timings@ == TimerState::initial(
                create_info.update_tick_rate as nat,
                create_info.max_skipped_frames as nat,
            ),
    {
        EngineController { state: EngineState::new(create_info) }
    }

    /// The phase that the engine is in.
    pub fn phase(&self) -> (phase: EnginePhase)
        requires
            self.wf(),
        ensures
            phase == self.state().spec_phase(),
    {
        self.state.phase()
    }

    /// The phase that the engine is in, with all it owns.
    pub fn engine_state(&self) -> (state: &EngineState<P>)
        ensures
            *state == self.state(),
    {
        &self.state
    }

    /// See `EngineState::initialize`.
    pub fn initialize(&mut self, interface: &mut P) where P: PlatformInitializationHandler
        requires
            old(self).wf(),
        ensures
            final(self).wf(),
            final(self).state().spec_phase() == phase_after(
                old(self).state().spec_phase(),
                EngineTransition::Initialize,
            ),
            !is_allowed(old(self).state().spec_phase(), EngineTransition::Initialize)
                ==> final(self).state() == old(self).state()
                && *final(interface) == *old(interface),
            old(self).state() is Uninitialized ==> {
                &&& final(self).state() matches EngineState::Initialized(machine)
                &&& machine.built_from(old(self).state().spec_shared())
            },
    {
        self.state.initialize(interface)
    }

    /// See `EngineState::run`.
    pub fn run(&mut self)
        requires
            old(self).wf(),
        ensures
            final(self).wf(),
            final(self).state().spec_phase() == phase_after(
                old(self).state().spec_phase(),
                EngineTransition::Run,
            ),
            !is_allowed(old(self).state().spec_phase(), EngineTransition::Run)
                ==> final(self).state() == old(self).state(),
            old(self).state() matches EngineState::Initialized(before) ==> {
                &&& final(self).state() matches EngineState::Running(machine)
                &&& before.started(machine)
            },
    {
        self.state.run()
    }

    /// See `EngineState::suspend`.
    pub fn suspend(&mut self)
        requires
            old(self).wf(),
        ensures
            final(self).wf(),
            final(self).state().spec_phase() == phase_after(
                old(self).state().spec_phase(),
                EngineTransition::Suspend,
            ),
            !is_allowed(old(self).state().spec_phase(), EngineTransition::Suspend)
                ==> final(self).state() == old(self).state(),
            old(self).state() matches EngineState::Running(before) ==> final(self).state()
                == EngineState::Suspended(before.suspended()),
    {
        self.state.suspend()
    }

    /// See `EngineState::resume`.
    pub fn resume(&mut self)
        requires
            old(self).wf(),
        ensures
            final(self).wf(),
            final(self).state().spec_phase() == phase_after(
                old(self).state().spec_phase(),
                EngineTransition::Resume,
            ),
            !is_allowed(old(self).state().spec_phase(), EngineTransition::Resume)
                ==> final(self).state() == old(self).state(),
            old(self).state() matches EngineState::Suspended(before) ==> final(self).state()
                == EngineState::Running(before.resumed()),
    {
        self.state.resume()
    }

    /// See `EngineState::reset`.
    pub fn reset(&mut self)
        requires
            old(self).wf(),
        ensures
            final(self).wf(),
            final(self).state().spec_phase() == phase_after(
                old(self).state().spec_phase(),
                EngineTransition::Reset,
            ),
            final(self).state() is Uninitialized,
            final(self).state().spec_shared().create_info
                == old(self).state().spec_shared().create_info,
            final(self).state().spec_shared().internal_resources.timings@ == TimerState::initial(
                old(self).state().spec_shared().create_info.update_tick_rate as nat,
                old(self).state().spec_shared().create_info.max_skipped_frames as nat,
            ),
    {
        self.state.reset()
    }

    /// One tick of the engine in whichever phase it is. A running engine updates
    /// and renders, a suspended one services its executor, and an engine that has
    /// not started running does nothing and reports success.
    pub fn tick(&mut self, interface: &mut P) -> (result: EngineUpdateResult)
        requires
            old(self).wf(),
        ensures
            final(self).wf(),
            old(self).state() matches EngineState::Running(before) ==> {
                &&& final(self).state() matches EngineState::Running(after)
                &&& exists|start: nat, steps: nat, rendered: int|
                    before.tick_ran(after, start, steps, rendered, result)
            },
            !(old(self).state() is Running) ==> final(self).state() == old(self).state() && result
                == EngineUpdateResult::Success,
    {
        match &mut self.state {
            EngineState::Running(machine) => machine.tick(interface),
            EngineState::Suspended(machine) => machine.tick(interface),
            _ => EngineUpdateResult::Success,
        }
    }
}

} // verus!
