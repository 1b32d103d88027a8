//! Render stages: run on the calling thread once per tick, and contribute a
//! handler that runs on the update thread.

use crate::engine::resource_manager::EngineResourceManager;
use crate::engine::result::EngineUpdateResult;
use crate::engine_stages::update_stage::UpdateStageUpdateInput;
use crate::platform::PlatformInterface;
use std::sync::Arc;
use vstd::prelude::*;

verus! {

/// What a constructor of a render stage is given.
pub struct RenderStageConstructorInput<'a, P: PlatformInterface> {
    /// The platform that the engine runs on.
    pub platform_interface: &'a mut P,
    /// The engine's resources.
    pub resources: Arc<EngineResourceManager>,
}

impl<'a, P: PlatformInterface> RenderStageConstructorInput<'a, P> {
    /// The engine's resources.
    pub fn resources(&self) -> (resources: &Arc<EngineResourceManager>)
        ensures
            *resources == self.resources,
    {
        &self.resources
    }

    /// Bundles the two.
    pub fn new(platform_interface: &'a mut P, resources: Arc<EngineResourceManager>) -> (input:
        Self)
        ensures
            input.resources == resources,
            *input.platform_interface == *old(platform_interface),
            *final(platform_interface) == *final(input.platform_interface),
    {
        RenderStageConstructorInput { platform_interface, resources }
    }
}

/// What a render stage is given for one frame.
pub struct RenderStageUpdateInput<'a, P: PlatformInterface> {
    /// The platform that the engine runs on.
    pub platform: &'a mut P,
}

impl<'a, P: PlatformInterface> RenderStageUpdateInput<'a, P> {
    /// Wraps the platform.
    pub fn new(platform: &'a mut P) -> (input: Self)
        ensures
            *input.platform == *old(platform),
            *final(platform) == *final(input.platform),
    {
        Self { platform }
    }
}

/// One call that the update-thread handler of a render stage has received.
pub enum UpdateThreadHandlerCall {
    /// `process_events`.
    ProcessEvents,
    /// `pre_update`, with what it returned.
    PreUpdate(EngineUpdateResult),
    /// `post_update`, with what it returned.
    PostUpdate(EngineUpdateResult),
}

/// The part of a render stage that runs on the update thread, as its author
/// writes it. Both hooks succeed unless the author says otherwise.
pub trait RenderStageUpdateThreadHandler: Sized + Send + 'static {
    /// First hook of the pair. Unless the author writes it, it succeeds and leaves
    /// the handler and the scenes as they are.
    fn pre_update(&mut self, _input: UpdateStageUpdateInput) -> (result: EngineUpdateResult)
        default_ensures
            result == EngineUpdateResult::Success,
            *final(self) == *old(self),
            *final(_input.scene_manager) == *old(_input.scene_manager),
    {
        EngineUpdateResult::Success
    }

    /// Second hook of the pair. Unless the author writes it, it succeeds and
    /// leaves the handler and the scenes as they are.
    fn post_update(&mut self, _input: UpdateStageUpdateInput) -> (result: EngineUpdateResult)
        default_ensures
            result == EngineUpdateResult::Success,
            *final(self) == *old(self),
            *final(_input.scene_manager) == *old(_input.scene_manager),
    {
        EngineUpdateResult::Success
    }
}

/// The part of a render stage that runs on the update thread, as the engine holds
/// it.
pub trait AnyRenderStageUpdateThreadHandler: Send + 'static {
    /// The calls that the handler has received so far, oldest first.
    spec fn calls(&self) -> Seq<UpdateThreadHandlerCall>;

    /// Drains the messages that are waiting for the handler.
    fn process_events(&mut self, input: UpdateStageUpdateInput)
        ensures
            final(self).calls() == old(self).calls().push(UpdateThreadHandlerCall::ProcessEvents),
    ;

    /// First hook of the pair.
    fn pre_update(&mut self, input: UpdateStageUpdateInput) -> (result: EngineUpdateResult)
        ensures
            final(self).calls() == old(self).calls().push(
                UpdateThreadHandlerCall::PreUpdate(result),
            ),
    ;

    /// Second hook of the pair.
    fn post_update(&mut self, input: UpdateStageUpdateInput) -> (result: EngineUpdateResult)
        ensures
            final(self).calls() == old(self).calls().push(
                UpdateThreadHandlerCall::PostUpdate(result),
            ),
    ;
}

/// An update-thread handler of any kind.
pub struct BoxedUpdateThreadHandler {
    /// The handler.
    pub handler: Box<dyn AnyRenderStageUpdateThreadHandler>,
}

/// One call that a render stage has received.
pub enum RenderStageCall {
    /// `process_events`.
    ProcessEvents,
    /// `get_update_thread_handler`.
    GetUpdateThreadHandler,
    /// `render`, with what it returned.
    Render(EngineUpdateResult),
}

/// A render stage as its author writes it. Render stages run on the calling
/// thread; what they do on the update thread goes through their handler.
pub trait RenderStage<P: PlatformInterface>: Sized + 'static {
    /// Name of the stage.
    const IDENTIFIER: &'static str;

    /// The stage's handler on the update thread.
    type UpdateThreadHandler: RenderStageUpdateThreadHandler;

    /// Gives out the handler that will run on the update thread.
    fn get_update_thread_handler(&mut self) -> Self::UpdateThreadHandler;

    /// Renders one frame.
    fn render(&mut self, input: RenderStageUpdateInput<P>) -> EngineUpdateResult;
}

/// A render stage as the engine holds it.
pub trait AnyRenderStage<P: PlatformInterface>: 'static {
    /// The calls that the stage has received so far, oldest first.
    spec fn calls(&self) -> Seq<RenderStageCall>;

    /// Name of the stage.
    fn identifier(&self) -> &'static str;

    /// Whether `handler` is a handler that this stage gives out. A stage that
    /// does not say admits every handler.
    open spec fn gives_out(&self, handler: BoxedUpdateThreadHandler) -> bool {
        true
    }

    /// Gives out the handler that will run on the update thread: one of this
    /// stage's own, which has received no call yet.
    fn get_update_thread_handler(&mut self) -> (handler: BoxedUpdateThreadHandler)
        ensures
            old(self).gives_out(handler),
            final(self).calls() == old(self).calls().push(RenderStageCall::GetUpdateThreadHandler),
            handler.handler.calls() == Seq::<UpdateThreadHandlerCall>::empty(),
    ;

    /// Drains the messages that are waiting for the stage.
    fn process_events(&mut self)
        ensures
            final(self).calls() == old(self).calls().push(RenderStageCall::ProcessEvents),
    ;

    /// Renders one frame.
    fn render(&mut self, input: RenderStageUpdateInput<P>) -> (result: EngineUpdateResult)
        ensures
            final(self).calls() == old(self).calls().push(RenderStageCall::Render(result)),
    ;
}

/// A render stage of any kind.
#[verifier::reject_recursive_types(P)]
pub struct BoxedRenderStage<P: PlatformInterface> {
    /// The stage.
    pub stage: Box<dyn AnyRenderStage<P>>,
}

/// Builds one render stage when the engine is initialized.
pub trait RenderStageConstructor<P: PlatformInterface>: 'static {
    /// Whether `stage` is a stage that this constructor may build when it is
    /// handed `resources`. A constructor that does not say admits every stage.
    open spec fn builds(
        &self,
        resources: Arc<EngineResourceManager>,
        stage: BoxedRenderStage<P>,
    ) -> bool {
        true
    }

    /// Builds the stage.
    fn construct(&self, input: RenderStageConstructorInput<P>) -> (stage: BoxedRenderStage<P>)
        ensures
            self.builds(input.resources, stage),
    ;
}

} // verus!
