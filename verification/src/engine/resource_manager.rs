//! The resource handle that the engine shares with its stages.

use crate::asset_library::asset_system::AssetSystem;
use vstd::prelude::*;

verus! {

/// The resources of a running engine. Stages hold it behind an `Arc` and read it
/// from both the update thread and the render thread.
pub struct EngineResourceManager {
    asset_system: AssetSystem,
}

impl EngineResourceManager {
    /// The asset system inside.
    pub closed spec fn spec_asset_system(&self) -> &AssetSystem {
        &self.asset_system
    }

    /// Wraps an asset system.
    pub fn new(asset_system: AssetSystem) -> (manager: Self)
        ensures
            *manager.spec_asset_system() == asset_system,
    {
        EngineResourceManager { asset_system }
    }

    /// The asset system inside.
    pub fn asset_system(&self) -> (asset_system: &AssetSystem)
        ensures
            asset_system == self.spec_asset_system(),
    {
        &self.asset_system
    }
}

} // verus!
