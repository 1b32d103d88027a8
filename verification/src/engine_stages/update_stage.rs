//! Update stages: the game's logic, run on the update thread one fixed step at a
//! time.

use crate::engine::resource_manager::EngineResourceManager;
use crate::engine::result::EngineUpdateResult;
use crate::platform::PlatformInterface;
use crate::scene_manager::SceneManager;
use crate::utils::dispatch_system::Dispatcher;
use std::sync::Arc;
use vstd::prelude::*;

verus! {

/// What a constructor of an update stage is given.
pub struct UpdateStageConstructorInput<'a, P: PlatformInterface> {
    /// The platform that the engine runs on.
    pub platform_interface: &'a mut P,
    /// The engine's resources.
    pub resources: Arc<EngineResourceManager>,
}

impl<'a, P: PlatformInterface> UpdateStageConstructorInput<'a, P> {
    /// Bundles the two.
    pub fn new(platform_interface: &'a mut P, resources: Arc<EngineResourceManager>) -> (input:
        Self)
        ensures
            input.resources == resources,
            *input.platform_interface == *old(platform_interface),
            *final(platform_interface) == *final(input.platform_interface),
    {
        Self { platform_interface, resources }
    }
}

/// What an update stage is given for one fixed step.
pub struct UpdateStageUpdateInput<'a> {
    /// The scenes of the update thread.
    pub scene_manager: &'a mut SceneManager,
    /// The engine's resources.
    pub resources: Arc<EngineResourceManager>,
    /// The worker pool.
    pub dispatcher: Arc<Dispatcher>,
}

impl<'a> UpdateStageUpdateInput<'a> {
    /// The engine's resources.
    pub fn resources(&self) -> (resources: &Arc<EngineResourceManager>)
        ensures
            *resources == self.resources,
    {
        &self.resources
    }

    /// The worker pool.
    pub fn dispatcher(&self) -> (dispatcher: &Arc<Dispatcher>)
        ensures
            *dispatcher == self.dispatcher,
    {
        &self.dispatcher
    }

    /// The scene manager, for reading.
    pub fn scene_manager(&self) -> (scene_manager: &SceneManager)
        ensures
            *scene_manager == *old(self.scene_manager),
    {
        self.scene_manager
    }

    /// The scene manager, for changing it. The two handles stay.
    pub fn scene_manager_mut(&mut self) -> (scene_manager: &mut SceneManager)
        ensures
            *scene_manager == *old(self).scene_manager,
            *final(scene_manager) == *final(self).scene_manager,
            final(self).resources == old(self).resources,
            final(self).dispatcher == old(self).dispatcher,
    {
        self.scene_manager
    }

    /// Bundles the three.
    pub fn new(
        resources: Arc<EngineResourceManager>,
        dispatcher: Arc<Dispatcher>,
        scene_manager: &'a mut SceneManager,
    ) -> (input: Self)
        ensures
            input.resources == resources,
            input.dispatcher == dispatcher,
            *input.scene_manager == *old(scene_manager),
            *final(scene_manager) == *final(input.scene_manager),
    {
        Self { scene_manager, resources, dispatcher }
    }
}

/// One call that an update stage has received.
pub enum UpdateStageCall {
    /// `process_events`.
    ProcessEvents,
    /// `update`, with what it returned.
    Update(EngineUpdateResult),
}

/// An update stage as its author writes it. Update stages run on a separate thread
/// and update the game's logic.
pub trait UpdateStage: Sized + Send + 'static {
    /// Name of the stage.
    const IDENTIFIER: &'static str;

    /// Runs one fixed step of the stage.
    fn update(&mut self, input: UpdateStageUpdateInput) -> EngineUpdateResult;
}

/// An update stage as the engine holds it.
pub trait AnyUpdateStage: Send + 'static {
    /// The calls that the stage has received so far, oldest first.
    spec fn calls(&self) -> Seq<UpdateStageCall>;

    /// Name of the stage.
    fn identifier(&self) -> &'static str;

    /// Drains the messages that are waiting for the stage.
    fn process_events(&mut self)
        ensures
            final(self).calls() == old(self).calls().push(UpdateStageCall::ProcessEvents),
    ;

    /// Runs one fixed step of the stage.
    fn update(&mut self, input: UpdateStageUpdateInput) -> (result: EngineUpdateResult)
        ensures
            final(self).calls() == old(self).calls().push(UpdateStageCall::Update(result)),
    ;
}

/// An update stage of any kind.
pub struct BoxedUpdateStage {
    /// The stage.
    pub stage: Box<dyn AnyUpdateStage>,
}

/// Builds one update stage when the engine is initialized.
pub trait UpdateStageConstructor<P: PlatformInterface>: 'static {
    /// Whether `stage` is a stage that this constructor may build when it is
    /// handed `resources`. A constructor that does not say admits every stage.
    open spec fn builds(
        &self,
        resources: Arc<EngineResourceManager>,
        stage: BoxedUpdateStage,
    ) -> bool {
        true
    }

    /// Builds the stage.
    fn construct(&self, input: UpdateStageConstructorInput<P>) -> (stage: BoxedUpdateStage)
        ensures
            self.builds(input.resources, stage),
    ;
}

} // verus!
