//! The worker pool as the engine sees it: a capability that the embedding program
//! supplies. The engine never builds a pool of its own.

use vstd::prelude::*;

verus! {

/// A piece of work that a worker runs once and to its end.
pub trait DispatchTask: Send + 'static {
    /// Does the work.
    fn run(&mut self);
}

/// A `DispatchTask` of any kind.
pub struct BoxedDispatchTask {
    /// The task.
    pub task: Box<dyn DispatchTask>,
}

/// The worker pool and executor of asynchronous tasks.
pub trait DispatchSystem: Send + Sync + 'static {
    /// Hands `task` to a worker and returns at once; nobody waits for the task.
    fn spawn(&self, task: BoxedDispatchTask);

    /// Services, on the calling thread, the background tasks that have completed.
    fn drive_pending(&self);
}

/// Handle to the dispatch system that the embedding program supplied.
pub struct Dispatcher {
    /// The dispatch system that the handle leads to.
    pub system: Box<dyn DispatchSystem>,
}

impl Dispatcher {
    /// Wraps a dispatch system: the handle leads to `system` and to nothing else.
    pub fn new(system: Box<dyn DispatchSystem>) -> (dispatcher: Self)
        ensures
            dispatcher == (Dispatcher { system }),
    {
        Dispatcher { system }
    }

    /// Hands `task` to a worker and returns at once; nobody waits for the task.
    pub fn spawn(&self, task: BoxedDispatchTask) {
        self.system.spawn(task)
    }

    /// Services, on the calling thread, the background tasks that have completed.
    pub fn drive_pending(&self) {
        self.system.drive_pending()
    }
}

} // verus!
