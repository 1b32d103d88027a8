//! Assets: the virtual file system of layered mount points and the asset system
//! that sits on it.

pub mod asset_descriptor;
pub mod asset_system;
pub mod vfs;
