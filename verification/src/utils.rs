//! Containers and small types shared by the engine's parts.

pub mod dispatch_system;
pub mod handles;
pub mod slot_maps;
