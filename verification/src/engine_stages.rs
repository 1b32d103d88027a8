//! Update stages and render stages: the pluggable work of the engine.

pub mod render_stage;
pub mod render_stage_container;
pub mod update_stage;
pub mod update_stage_container;
pub mod update_thread_handler_container;
