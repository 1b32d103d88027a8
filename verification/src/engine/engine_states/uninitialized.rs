//! The phase of an engine that has been constructed and nothing more.

use crate::asset_library::asset_system::AssetSystem;
use crate::engine::create_info::EngineCreateInfo;
use crate::engine::engine_states::shared_state::EngineCoreResources;
use crate::engine::engine_states::shared_state::EngineSharedState;
use crate::engine::engine_states::statemachine::StateMachine;
use crate::engine::gameloop_timer::EngineGameloopTimer;
use crate::engine::gameloop_timer::TimerState;
use crate::engine::resource_manager::EngineResourceManager;
use crate::platform::PlatformInterface;
use std::sync::Arc;
use vstd::prelude::*;

verus! {

/// Nothing is built yet.
pub struct Uninitialized {}

impl<P: PlatformInterface> StateMachine<Uninitialized, EngineSharedState<P>> {
    /// Builds the shared state from the configuration: a timer that has seen no
    /// time, the worker pool, and the asset system.
    pub fn new(create_info: EngineCreateInfo<P>) -> (machine: Self)
        requires
            create_info.update_tick_rate > 0,
        ensures
            machine.shared.wf(),
            machine.shared.create_info == create_info,
            machine.shared.internal_resources.timings@ == TimerState::initial(
                create_info.update_tick_rate as nat,
                create_info.max_skipped_frames as nat,
            ),
    {
        let timings = EngineGameloopTimer::new(
            create_info.update_tick_rate,
            create_info.max_skipped_frames,
        );
        let dispatcher = Arc::new(
            create_info.dispatch_system.create(&create_info.concurrency_settings),
        );
        let asset_system = match &create_info.asset_system {
            Some(create) => create.create(),
            None => AssetSystem::default(),
        };
        let resources = Arc::new(EngineResourceManager::new(asset_system));
        StateMachine {
            shared: EngineSharedState {
                create_info,
                internal_resources: EngineCoreResources { timings, dispatcher },
                resources,
            },
            state: Uninitialized {  },
        }
    }
}

} // verus!
