//! A scene: one entity registry under a handle, and the messages about scenes.

use crate::scene_manager::SceneHandle;
use crate::utils::handles::Handle;
use shard_ecs::Registry;
use vstd::prelude::*;

verus! {

/// `shard_ecs::Registry`: the entities of a scene and their components. Nothing
/// of it is seen from here.
#[verifier::external_type_specification]
#[verifier::external_body]
pub struct ExRegistry(shard_ecs::Registry);

/// `<shard_ecs::Registry as Default>::default`: a registry without entities.
/// Nothing is claimed about the value.
#[verifier::external_body]
fn empty_registry() -> (registry: Registry) {
    Registry::default()
}

/// One scene: the entities that live in it.
pub struct Scene {
    handle: u32,
    registry: Registry,
}

impl Scene {
    /// The handle that the scene is known by.
    pub closed spec fn spec_handle(&self) -> SceneHandle {
        Handle { value: self.handle, marker: core::marker::PhantomData }
    }

    /// A scene without entities, known by `handle`.
    pub fn new(handle: SceneHandle) -> (scene: Scene)
        ensures
            scene.spec_handle() == handle,
    {
        Scene { handle: handle.value, registry: empty_registry() }
    }

    /// The handle that the scene is known by.
    pub fn handle(&self) -> (handle: Handle<Scene, u32>)
        ensures
            handle == self.spec_handle(),
    {
        Handle::new(self.handle)
    }

    /// The scene's entities.
    pub fn registry(&self) -> (registry: &Registry)
        ensures
            registry == self.spec_registry(),
    {
        &self.registry
    }

    /// The scene's entities as of now.
    pub closed spec fn spec_registry(&self) -> &Registry {
        &self.registry
    }

    /// The scene's entities, for changing them. The handle stays.
    pub fn registry_mut(&mut self) -> (registry: &mut Registry)
        ensures
            *registry == *old(self).spec_registry(),
            *final(registry) == *final(self).spec_registry(),
            final(self).spec_handle() == old(self).spec_handle(),
    {
        &mut self.registry
    }
}

/// Message: a scene became the current one.
#[derive(Clone)]
pub struct SceneDidBecomeCurrent {
    /// The scene in question.
    pub scene: SceneHandle,
}

/// Message: a scene was created.
#[derive(Clone)]
pub struct SceneWasCreated {
    /// The scene in question.
    pub scene: SceneHandle,
}

/// Message: a scene was destroyed.
#[derive(Clone)]
pub struct SceneWasDestroyed {
    /// The scene in question.
    pub scene: SceneHandle,
}

} // verus!
