//! Holds an update stage together with the receivers of its messages.

use crate::engine::result::EngineUpdateResult;
use crate::engine_stages::update_stage::AnyUpdateStage;
use crate::engine_stages::update_stage::BoxedUpdateStage;
use crate::engine_stages::update_stage::UpdateStage;
use crate::engine_stages::update_stage::UpdateStageCall;
use crate::engine_stages::update_stage::UpdateStageUpdateInput;
use crate::message_bus::AnyUpdateMessageReceiver;
use vstd::prelude::*;

verus! {

/// An update stage of type `T`, made into an `AnyUpdateStage`.
#[verifier::reject_recursive_types(T)]
pub struct UpdateStageContainer<T: UpdateStage> {
    stage: T,
    receivers: Vec<Box<dyn AnyUpdateMessageReceiver<T>>>,
    calls: Ghost<Seq<UpdateStageCall>>,
}

impl<T: UpdateStage> UpdateStageContainer<T> {
    /// The stage inside.
    pub closed spec fn spec_stage(&self) -> T {
        self.stage
    }

    /// The receivers that are registered, in the order of their registration.
    pub closed spec fn receivers(&self) -> Seq<Box<dyn AnyUpdateMessageReceiver<T>>> {
        self.receivers@
    }

    /// Registers one more receiver behind those that are registered;
    /// `process_events` serves the receivers in the order of their registration.
    pub fn add_receiver(&mut self, receiver: Box<dyn AnyUpdateMessageReceiver<T>>)
        ensures
            final(self).receivers() == old(self).receivers().push(receiver),
            final(self).spec_stage() == old(self).spec_stage(),
            final(self).calls() == old(self).calls(),
    {
        self.receivers.push(receiver);
    }

    /// Forgets all receivers.
    pub fn clear_receivers(&mut self)
        ensures
            final(self).receivers() == Seq::<Box<dyn AnyUpdateMessageReceiver<T>>>::empty(),
            final(self).spec_stage() == old(self).spec_stage(),
            final(self).calls() == old(self).calls(),
    {
        self.receivers.clear();
    }

    /// Wraps `stage` for the engine.
    pub fn boxed(stage: T) -> (boxed: BoxedUpdateStage)
        ensures
            boxed.stage.calls() == Seq::<UpdateStageCall>::empty(),
    {
        let container = UpdateStageContainer::from(stage);
        BoxedUpdateStage { stage: Box::new(container) }
    }
}

impl<T: UpdateStage> From<T> for UpdateStageContainer<T> {
    fn from(stage: T) -> (container: Self)
        ensures
            container.spec_stage() == stage,
            container.calls() =~= Seq::empty(),
            container.receivers() == Seq::<Box<dyn AnyUpdateMessageReceiver<T>>>::empty(),
    {
        Self { stage, receivers: Vec::new(), calls: Ghost(Seq::empty()) }
    }
}

impl<T: UpdateStage> vstd::std_specs::convert::FromSpecImpl<T> for UpdateStageContainer<T> {
    open spec fn obeys_from_spec() -> bool {
        false
    }

    open spec fn from_spec(stage: T) -> Self {
        arbitrary()
    }
}

impl<T: UpdateStage> AnyUpdateStage for UpdateStageContainer<T> {
    closed spec fn calls(&self) -> Seq<UpdateStageCall> {
        self.calls@
    }

    fn identifier(&self) -> (name: &'static str)
        ensures
            name@ == T::IDENTIFIER@,
    {
        T::IDENTIFIER
    }

    fn process_events(&mut self) {
        let count = self.receivers.len();
        let mut i: usize = 0;
        while i < count
            invariant
                i <= count,
                count == self.receivers@.len(),
                self.calls@ == old(self).calls@,
            decreases count - i,
        {
            self.receivers[i].receive_messages(&mut self.stage);
            i += 1;
        }
        proof {
            self.calls@ = self.calls@.push(UpdateStageCall::ProcessEvents);
        }
    }

    fn update(&mut self, input: UpdateStageUpdateInput) -> (result: EngineUpdateResult) {
        let result = self.stage.update(input);
        proof {
            self.calls@ = self.calls@.push(UpdateStageCall::Update(result));
        }
        result
    }
}

} // verus!
