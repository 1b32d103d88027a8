//! What an engine is constructed from. Nothing in here changes during a run, and
//! a reset builds the engine anew from exactly this.

use crate::asset_library::asset_system::AssetSystem;
use crate::engine::engine_states::update_stages_runner::ThreadedStateSharer;
use crate::engine_stages::render_stage::RenderStageConstructor;
use crate::engine_stages::update_stage::UpdateStageConstructor;
use crate::platform::PlatformInterface;
use crate::utils::dispatch_system::Dispatcher;
use vstd::prelude::*;

verus! {

/// Sizing of the worker pool.
#[derive(Debug, Clone)]
pub struct EngineConcurrencySettings {
    /// Upper limit on the threads for asynchronous tasks, if there is one.
    pub max_async_threads: Option<usize>,
    /// Upper limit on the worker threads, if there is one.
    pub max_worker_thread: Option<usize>,
    /// Worker threads to use where the machine does not say how many it has.
    pub fallback_worker_threads: usize,
    /// Threads for asynchronous tasks to use where the machine does not say.
    pub fallback_async_threads: usize,
}

impl EngineConcurrencySettings {
    /// Every thread count that is given is at least one.
    pub open spec fn wf(&self) -> bool {
        &&& self.max_async_threads matches Some(threads) ==> threads > 0
        &&& self.max_worker_thread matches Some(threads) ==> threads > 0
        &&& self.fallback_worker_threads > 0
        &&& self.fallback_async_threads > 0
    }

    /// Whether every thread count that is given is at least one.
    pub fn is_valid(&self) -> (valid: bool)
        ensures
            valid == self.wf(),
    {
        let async_ok = match self.max_async_threads {
            Some(threads) => threads > 0,
            None => true,
        };
        let worker_ok = match self.max_worker_thread {
            Some(threads) => threads > 0,
            None => true,
        };
        async_ok && worker_ok && self.fallback_worker_threads > 0 && self.fallback_async_threads
            > 0
    }
}

/// Names and versions of the application and of the engine.
#[derive(Debug, Clone)]
pub struct ApplicationInfo {
    /// Name of the application.
    pub application_name: String,
    /// Name of the engine.
    pub engine_name: String,
    /// Major version of the application.
    pub application_major_version: u32,
    /// Minor version of the application.
    pub application_minor_version: u32,
    /// Patch version of the application.
    pub application_patch_version: u32,
    /// Major version of the engine.
    pub engine_major_version: u32,
    /// Minor version of the engine.
    pub engine_minor_version: u32,
    /// Patch version of the engine.
    pub engine_patch_version: u32,
}

/// Builds the asset system of an engine.
pub trait AssetSystemCreateFn: 'static {
    /// Builds the asset system.
    fn create(&self) -> AssetSystem;
}

/// Builds the worker pool of an engine.
pub trait DispatchSystemCreateFn: 'static {
    /// Builds a pool of the given size.
    fn create(&self, settings: &EngineConcurrencySettings) -> Dispatcher;
}

/// Information required to construct an engine.
#[verifier::reject_recursive_types(P)]
pub struct EngineCreateInfo<P: PlatformInterface> {
    /// Builds the asset system; without it the engine starts with an empty one.
    pub asset_system: Option<Box<dyn AssetSystemCreateFn>>,
    /// Builds the worker pool.
    pub dispatch_system: Box<dyn DispatchSystemCreateFn>,
    /// Puts the update job record behind its lock.
    pub threaded_state_sharer: Box<dyn ThreadedStateSharer>,
    /// Names and versions.
    pub application_info: ApplicationInfo,
    /// Fixed steps per second; more than zero.
    pub update_tick_rate: u32,
    /// Steps that one tick may run beyond the first to catch up.
    pub max_skipped_frames: u32,
    /// Upper limit on rendered frames per second, if there is one.
    pub max_frame_rate: Option<u32>,
    /// Sizing of the worker pool.
    pub concurrency_settings: EngineConcurrencySettings,
    /// Constructors of the update stages, in the order in which the stages run.
    pub update_stages: Vec<Box<dyn UpdateStageConstructor<P>>>,
    /// Constructors of the render stages, in the order in which the stages run.
    pub render_stages: Vec<Box<dyn RenderStageConstructor<P>>>,
}

} // verus!
