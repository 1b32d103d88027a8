//! Runtime core of an interactive engine: a fixed-step timer, the update/render
//! handoff, the stage registries, the lifecycle state machine and the tick driver.

pub mod asset_library;
pub mod engine;
pub mod engine_stages;
pub mod graphics_stage;
pub mod message_bus;
pub mod platform;
pub mod scene_manager;
pub mod utils;

pub use asset_library::asset_system::AssetSystem;
pub use engine::controller::EngineController;
pub use engine::create_info::EngineCreateInfo;
pub use engine::result::EngineUpdateResult;
pub use platform::Platform;
pub use platform::PlatformInitializationHandler;
pub use platform::PlatformInterface;
