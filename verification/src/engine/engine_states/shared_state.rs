//! The state that every lifecycle phase carries.

use crate::engine::create_info::EngineCreateInfo;
use crate::engine::gameloop_timer::EngineGameloopTimer;
use crate::engine::resource_manager::EngineResourceManager;
use crate::platform::PlatformInterface;
use crate::utils::dispatch_system::Dispatcher;
use std::sync::Arc;
use vstd::prelude::*;

verus! {

/// The resources that the engine uses itself.
pub struct EngineCoreResources {
    /// The fixed-step timer.
    pub timings: EngineGameloopTimer,
    /// The worker pool.
    pub dispatcher: Arc<Dispatcher>,
}

/// What is common to all phases: the configuration the engine was constructed
/// from, and the resources that live across phases. Whichever phase is current
/// owns it; every transition moves it on.
#[verifier::reject_recursive_types(P)]
pub struct EngineSharedState<P: PlatformInterface> {
    /// The configuration captured at construction.
    pub create_info: EngineCreateInfo<P>,
    /// The engine's own resources.
    pub internal_resources: EngineCoreResources,
    /// The resources that stages share.
    pub resources: Arc<EngineResourceManager>,
}

impl<P: PlatformInterface> EngineSharedState<P> {
    /// The timer is usable and runs at the configured rate.
    pub open spec fn wf(&self) -> bool {
        &&& self.create_info.update_tick_rate > 0
        &&& self.internal_resources.timings.wf()
        &&& self.internal_resources.timings@.update_tick_rate == self.create_info.update_tick_rate
        &&& self.internal_resources.timings@.max_skipped_frames
            == self.create_info.max_skipped_frames
    }
}

} // verus!
