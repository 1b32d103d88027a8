//! Outcomes that stages and ticks hand back to the platform driver.

use vstd::prelude::*;

verus! {

/// Outcome of one stage call, one update job or one tick.
///
/// Every value other than `Success` stops the job or tick that produced it and is
/// handed to the caller unchanged; the platform driver owns all recovery policy.
#[derive(Clone, Copy, Debug, PartialEq, Eq, Structural)]
pub enum EngineUpdateResult {
    /// The work completed; the engine carries on.
    Success,
    /// The runtime phase must be torn down and rebuilt before the next update.
    Restart,
    /// A stage reported a failure.
    Failure,
    /// An invariant was violated; the engine cannot continue.
    Fatal,
}

impl EngineUpdateResult {
    /// Whether this outcome lets the current job or tick continue.
    pub fn is_success(&self) -> (success: bool)
        ensures
            success == (*self == EngineUpdateResult::Success),
    {
        match self {
            EngineUpdateResult::Success => true,
            _ => false,
        }
    }

    /// Whether a new update job may be enqueued after this outcome was consumed:
    /// every outcome but `Restart` allows it.
    pub fn allows_enqueue(&self) -> (allowed: bool)
        ensures
            allowed == (*self != EngineUpdateResult::Restart),
    {
        match self {
            EngineUpdateResult::Restart => false,
            _ => true,
        }
    }
}

} // verus!
