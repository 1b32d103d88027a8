//! What the engine asks of the windowing platform that drives it.

use crate::engine::controller::EngineController;
use vstd::prelude::*;

verus! {

/// Services of the platform that stages reach through their inputs. The engine
/// itself calls none of them: it only hands the interface on.
pub trait PlatformInterface: 'static {

}

/// Hook of the platform into the engine's initialization.
pub trait PlatformInitializationHandler {
    /// Runs once the engine has become initialized and before anything else of the
    /// engine observes that. The platform wires its event handling here.
    fn pre_did_initialize(&mut self);
}

/// Trait that is used to control the state of the game engine and interact with
/// the OS windowing library.
pub trait Platform<P: PlatformInterface> {
    /// Execute this function to run the game engine on this platform.
    fn run(self, controller: EngineController<P>);
}

} // verus!
