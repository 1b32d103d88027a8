//! Holds the update-thread handler of a render stage.

use crate::engine::result::EngineUpdateResult;
use crate::engine_stages::render_stage::AnyRenderStageUpdateThreadHandler;
use crate::engine_stages::render_stage::BoxedUpdateThreadHandler;
use crate::engine_stages::render_stage::RenderStageUpdateThreadHandler;
use crate::engine_stages::render_stage::UpdateThreadHandlerCall;
use crate::engine_stages::update_stage::UpdateStageUpdateInput;
use crate::message_bus::AnyUpdateMessageReceiver;
use vstd::prelude::*;

verus! {

/// An update-thread handler of type `T`, made into an
/// `AnyRenderStageUpdateThreadHandler`.
#[verifier::reject_recursive_types(T)]
pub struct UpdateThreadHandlerContainer<T: RenderStageUpdateThreadHandler> {
    handler: T,
    receivers: Vec<Box<dyn AnyUpdateMessageReceiver<T>>>,
    calls: Ghost<Seq<UpdateThreadHandlerCall>>,
}

impl<T: RenderStageUpdateThreadHandler> UpdateThreadHandlerContainer<T> {
    /// The handler inside.
    pub closed spec fn spec_handler(&self) -> T {
        self.handler
    }

    /// The receivers that are registered, in the order of their registration.
    pub closed spec fn receivers(&self) -> Seq<Box<dyn AnyUpdateMessageReceiver<T>>> {
        self.receivers@
    }

    /// Registers one more receiver behind those that are registered;
    /// `process_events` serves the receivers in the order of their registration.
    pub fn add_receiver(&mut self, receiver: Box<dyn AnyUpdateMessageReceiver<T>>)
        ensures
            final(self).receivers() == old(self).receivers().push(receiver),
            final(self).spec_handler() == old(self).spec_handler(),
            final(self).calls() == old(self).calls(),
    {
        self.receivers.push(receiver);
    }

    /// Wraps `handler` for the engine.
    pub fn boxed(handler: T) -> (boxed: BoxedUpdateThreadHandler)
        ensures
            boxed.handler.calls() == Seq::<UpdateThreadHandlerCall>::empty(),
    {
        let container = UpdateThreadHandlerContainer::from(handler);
        BoxedUpdateThreadHandler { handler: Box::new(container) }
    }
}

impl<T: RenderStageUpdateThreadHandler> From<T> for UpdateThreadHandlerContainer<T> {
    fn from(handler: T) -> (container: Self)
        ensures
            container.spec_handler() == handler,
            container.calls() =~= Seq::empty(),
            container.receivers() == Seq::<Box<dyn AnyUpdateMessageReceiver<T>>>::empty(),
    {
        Self { handler, receivers: Vec::new(), calls: Ghost(Seq::empty()) }
    }
}

impl<T: RenderStageUpdateThreadHandler> vstd::std_specs::convert::FromSpecImpl<T> for UpdateThreadHandlerContainer<T> {
    open spec fn obeys_from_spec() -> bool {
        false
    }

    open spec fn from_spec(handler: T) -> Self {
        arbitrary()
    }
}

impl<T: RenderStageUpdateThreadHandler> AnyRenderStageUpdateThreadHandler for UpdateThreadHandlerContainer<
    T,
> {
    closed spec fn calls(&self) -> Seq<UpdateThreadHandlerCall> {
        self.calls@
    }

    fn process_events(&mut self, input: UpdateStageUpdateInput) {
        let count = self.receivers.len();
        let mut i: usize = 0;
        while i < count
            invariant
                i <= count,
                count == self.receivers@.len(),
                self.calls@ == old(self).calls@,
            decreases count - i,
        {
            self.receivers[i].receive_messages(&mut self.handler);
            i += 1;
        }
        proof {
            self.calls@ = self.calls@.push(UpdateThreadHandlerCall::ProcessEvents);
        }
    }

    fn pre_update(&mut self, input: UpdateStageUpdateInput) -> (result: EngineUpdateResult) {
        let result = self.handler.pre_update(input);
        proof {
            self.calls@ = self.calls@.push(UpdateThreadHandlerCall::PreUpdate(result));
        }
        result
    }

    fn post_update(&mut self, input: UpdateStageUpdateInput) -> (result: EngineUpdateResult) {
        let result = self.handler.post_update(input);
        proof {
            self.calls@ = self.calls@.push(UpdateThreadHandlerCall::PostUpdate(result));
        }
        result
    }
}

} // verus!
