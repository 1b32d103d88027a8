//! The lifecycle phases of the engine and what each of them owns.

pub mod initialized;
pub mod running;
pub mod shared_state;
pub mod statemachine;
pub mod suspended;
pub mod uninitialized;
pub mod update_stages_runner;
