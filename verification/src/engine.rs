//! The engine proper: results, timing, configuration and lifecycle phases.

pub mod controller;
pub mod create_info;
pub mod engine_states;
pub mod gameloop_timer;
pub mod resource_manager;
pub mod result;
