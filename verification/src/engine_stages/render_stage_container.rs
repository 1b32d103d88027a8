//! Holds a render stage together with the receivers of its messages.

use crate::engine::result::EngineUpdateResult;
use crate::engine_stages::render_stage::AnyRenderStage;
use crate::engine_stages::render_stage::BoxedRenderStage;
use crate::engine_stages::render_stage::BoxedUpdateThreadHandler;
use crate::engine_stages::render_stage::RenderStage;
use crate::engine_stages::render_stage::RenderStageCall;
use crate::engine_stages::render_stage::RenderStageUpdateInput;
use crate::engine_stages::update_thread_handler_container::UpdateThreadHandlerContainer;
use crate::message_bus::AnyRenderMessageReceiver;
use crate::platform::PlatformInterface;
use core::marker::PhantomData;
use vstd::prelude::*;

verus! {

/// A render stage of type `T`, made into an `AnyRenderStage`.
#[verifier::reject_recursive_types(P)]
#[verifier::reject_recursive_types(T)]
pub struct RenderStageContainer<P: PlatformInterface, T: RenderStage<P>> {
    stage: T,
    receivers: Vec<Box<dyn AnyRenderMessageReceiver<T>>>,
    calls: Ghost<Seq<RenderStageCall>>,
    platform: PhantomData<P>,
}

impl<P: PlatformInterface, T: RenderStage<P>> RenderStageContainer<P, T> {
    /// The stage inside.
    pub closed spec fn spec_stage(&self) -> T {
        self.stage
    }

    /// The receivers that are registered, in the order of their registration.
    pub closed spec fn receivers(&self) -> Seq<Box<dyn AnyRenderMessageReceiver<T>>> {
        self.receivers@
    }

    /// Registers one more receiver behind those that are registered;
    /// `process_events` serves the receivers in the order of their registration.
    pub fn add_receiver(&mut self, receiver: Box<dyn AnyRenderMessageReceiver<T>>)
        ensures
            final(self).receivers() == old(self).receivers().push(receiver),
            final(self).spec_stage() == old(self).spec_stage(),
            final(self).calls() == old(self).calls(),
    {
        self.receivers.push(receiver);
    }

    /// Forgets all receivers.
    pub fn clear_receivers(&mut self)
        ensures
            final(self).receivers() == Seq::<Box<dyn AnyRenderMessageReceiver<T>>>::empty(),
            final(self).spec_stage() == old(self).spec_stage(),
            final(self).calls() == old(self).calls(),
    {
        self.receivers.clear();
    }

    /// Wraps `stage` for the engine.
    pub fn boxed(stage: T) -> (boxed: BoxedRenderStage<P>)
        ensures
            boxed.stage.calls() == Seq::<RenderStageCall>::empty(),
    {
        let container = RenderStageContainer::from(stage);
        BoxedRenderStage { stage: Box::new(container) }
    }
}

impl<P: PlatformInterface, T: RenderStage<P>> From<T> for RenderStageContainer<P, T> {
    fn from(stage: T) -> (container: Self)
        ensures
            container.spec_stage() == stage,
            container.calls() =~= Seq::empty(),
            container.receivers() == Seq::<Box<dyn AnyRenderMessageReceiver<T>>>::empty(),
    {
        Self { stage, receivers: Vec::new(), calls: Ghost(Seq::empty()), platform: PhantomData }
    }
}

impl<P: PlatformInterface, T: RenderStage<P>> vstd::std_specs::convert::FromSpecImpl<T> for RenderStageContainer<P, T> {
    open spec fn obeys_from_spec() -> bool {
        false
    }

    open spec fn from_spec(stage: T) -> Self {
        arbitrary()
    }
}

impl<P: PlatformInterface, T: RenderStage<P>> AnyRenderStage<P> for RenderStageContainer<P, T> {
    closed spec fn calls(&self) -> Seq<RenderStageCall> {
        self.calls@
    }

    fn identifier(&self) -> (name: &'static str)
        ensures
            name@ == T::IDENTIFIER@,
    {
        T::IDENTIFIER
    }

    fn get_update_thread_handler(&mut self) -> (handler: BoxedUpdateThreadHandler) {
        let handler = self.stage.get_update_thread_handler();
        proof {
            self.calls@ = self.calls@.push(RenderStageCall::GetUpdateThreadHandler);
        }
        UpdateThreadHandlerContainer::boxed(handler)
    }

    fn process_events(&mut self) {
        let count = self.receivers.len();
        let mut i: usize = 0;
        while i < count
            invariant
                i <= count,
                count == self.receivers@.len(),
                self.calls@ == old(self).calls@,
            decreases count - i,
        {
            self.receivers[i].receive_messages(&mut self.stage);
            i += 1;
        }
        proof {
            self.calls@ = self.calls@.push(RenderStageCall::ProcessEvents);
        }
    }

    fn render(&mut self, input: RenderStageUpdateInput<P>) -> (result: EngineUpdateResult) {
        let result = self.stage.render(input);
        proof {
            self.calls@ = self.calls@.push(RenderStageCall::Render(result));
        }
        result
    }
}

} // verus!
