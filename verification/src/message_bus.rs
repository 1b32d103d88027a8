//! The stage-facing end of the message bus. The bus that feeds the receivers lives
//! outside the engine core.

use vstd::prelude::*;

verus! {

/// Receiving end of one kind of message, bound to the update stage type `T` that
/// handles it. It travels to the update thread with its stage.
pub trait AnyUpdateMessageReceiver<T>: Send {
    /// Hands every message that is waiting to `stage`.
    fn receive_messages(&mut self, stage: &mut T);
}

/// Receiving end of one kind of message, bound to the render stage type `T` that
/// handles it.
pub trait AnyRenderMessageReceiver<T> {
    /// Hands every message that is waiting to `stage`.
    fn receive_messages(&mut self, stage: &mut T);
}

} // verus!
