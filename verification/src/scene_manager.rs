//! Scenes and the manager that owns them on the update thread.

pub mod scene;

use crate::scene_manager::scene::Scene;
use crate::utils::handles::Handle;
use crate::utils::handles::HandleType;
use crate::utils::slot_maps::slot_map::SlotMap;
use vstd::prelude::*;

verus! {

/// Handle to a scene.
pub type SceneHandle = Handle<Scene, u32>;

/// Owner of the scenes; update stages reach it through their input.
pub struct SceneManager {
    scenes: SlotMap<Scene, u32>,
    current: Option<u32>,
}

impl SceneManager {
    /// The scenes, by the number of their handle.
    pub closed spec fn scenes(&self) -> Map<nat, Scene> {
        self.scenes@
    }

    /// The number of the handle of the current scene, if there is one.
    pub closed spec fn current(&self) -> Option<nat> {
        match self.current {
            Some(key) => Some(key as nat),
            None => None,
        }
    }

    /// Every scene knows the handle that it is kept under, and the current scene
    /// is one of the scenes.
    pub closed spec fn wf(&self) -> bool {
        &&& self.scenes.wf()
        &&& forall|key: nat| #[trigger]
            self.scenes@.dom().contains(key) ==> self.scenes@[key].spec_handle().value == key
        &&& self.current matches Some(key) ==> self.scenes@.dom().contains(key as nat)
    }

    /// What a sound manager guarantees: the scenes know their handles and the
    /// current scene exists.
    pub proof fn lemma_scenes(&self)
        requires
            self.wf(),
        ensures
            forall|key: nat| #[trigger]
                self.scenes().dom().contains(key)
                    ==> self.scenes()[key].spec_handle().value == key,
            self.current() matches Some(key) ==> self.scenes().dom().contains(key),
    {
    }

    /// A manager without scenes.
    pub fn new() -> (manager: Self)
        ensures
            manager.wf(),
            manager.scenes() == Map::<nat, Scene>::empty(),
            manager.current().is_none(),
    {
        let scenes = SlotMap::new();
        assert(scenes@ =~= Map::<nat, Scene>::empty());
        SceneManager { scenes, current: None }
    }

    /// Whether a handle is left for one more scene: there are fewer scenes than
    /// the 32 bits of a handle can tell apart.
    pub open spec fn has_room(&self) -> bool {
        self.scenes().dom().len() <= u32::MAX
    }

    /// The number of the handle that the next scene is created under.
    pub closed spec fn next_key(&self) -> nat {
        self.scenes.next_key()
    }

    /// Creates an empty scene and returns its handle. The scene is created
    /// whenever a handle is left for it; the answer is `None` exactly where none
    /// is left, and then nothing changes.
    pub fn create_scene(&mut self) -> (created: Option<SceneHandle>)
        requires
            old(self).wf(),
        ensures
            final(self).wf(),
            final(self).current() == old(self).current(),
            created.is_some() == old(self).has_room(),
            created matches Some(handle) ==> handle.value == old(self).next_key(),
            match created {
                Some(handle) => {
                    let key = handle.value as nat;
                    &&& !old(self).scenes().dom().contains(key)
                    &&& final(self).scenes().dom() == old(self).scenes().dom().insert(key)
                    &&& final(self).scenes()[key].spec_handle() == handle
                    &&& forall|other: nat|
                        old(self).scenes().dom().contains(other) ==> final(self).scenes()[other]
                            == old(self).scenes()[other]
                },
                None => final(self).scenes() == old(self).scenes(),
            },
    {
        proof {
            self.scenes.lemma_handles_and_positions();
            self.scenes.lemma_len_counts_handles();
        }
        let handle = match self.scenes.next_handle() {
            Some(next) => SceneHandle::new(next.value),
            None => {
                return None;
            },
        };
        let scene = Scene::new(handle);
        let given = self.scenes.add(scene);
        proof {
            assert(given.value == handle.value);
            assert(self.scenes@.dom() =~= old(self).scenes@.dom().insert(handle.value as nat));
        }
        Some(handle)
    }

    /// Destroys the scene of `handle` and returns it, if there is such a scene. A
    /// current scene that is destroyed is current no more.
    pub fn destroy_scene(&mut self, handle: SceneHandle) -> (destroyed: Option<Scene>)
        requires
            old(self).wf(),
        ensures
            final(self).wf(),
            match destroyed {
                Some(scene) => {
                    let key = handle.value as nat;
                    &&& old(self).scenes().dom().contains(key)
                    &&& scene == old(self).scenes()[key]
                    &&& final(self).scenes() == old(self).scenes().remove(key)
                    &&& final(self).current() == (if old(self).current() == Some(key) {
                        None
                    } else {
                        old(self).current()
                    })
                },
                None => !old(self).scenes().dom().contains(handle.value as nat)
                    && final(self).scenes() == old(self).scenes()
                        && final(self).current() == old(self).current(),
            },
    {
        let ghost before = self.scenes;
        let destroyed = self.scenes.remove(Handle::new(handle.value));
        match destroyed {
            Some(scene) => {
                match self.current {
                    Some(key) => {
                        if key == handle.value {
                            self.current = None;
                        }
                    },
                    None => {},
                }
                Some(scene)
            },
            None => {
                proof {
                    before.lemma_same_shape(&self.scenes);
                    assert(self.scenes@ =~= before@);
                }
                None
            },
        }
    }

    /// The scene of `handle`, if there is such a scene.
    pub fn scene(&self, handle: SceneHandle) -> (scene: Option<&Scene>)
        requires
            self.wf(),
        ensures
            match scene {
                Some(scene) => self.scenes().dom().contains(handle.value as nat) && *scene
                    == self.scenes()[handle.value as nat],
                None => !self.scenes().dom().contains(handle.value as nat),
            },
    {
        self.scenes.get(Handle::new(handle.value))
    }

    /// The handle of the current scene, if there is one.
    pub fn current_scene(&self) -> (handle: Option<SceneHandle>)
        ensures
            match handle {
                Some(handle) => self.current() == Some(handle.value as nat),
                None => self.current().is_none(),
            },
    {
        match self.current {
            Some(key) => Some(SceneHandle::new(key)),
            None => None,
        }
    }

    /// Makes the scene of `handle` the current one, if there is such a scene;
    /// else nothing changes.
    pub fn set_current_scene(&mut self, handle: SceneHandle) -> (changed: bool)
        requires
            old(self).wf(),
        ensures
            final(self).wf(),
            final(self).scenes() == old(self).scenes(),
            changed == old(self).scenes().dom().contains(handle.value as nat),
            final(self).current() == (if changed {
                Some(handle.value as nat)
            } else {
                old(self).current()
            }),
    {
        if self.scenes.validate_key(Handle::new(handle.value)) {
            self.current = Some(handle.value);
            true
        } else {
            false
        }
    }

    /// Number of scenes.
    pub fn len(&self) -> (len: usize)
        requires
            self.wf(),
        ensures
            self.scenes().dom().finite(),
            len == self.scenes().dom().len(),
    {
        proof {
            self.scenes.lemma_len_counts_handles();
        }
        self.scenes.len()
    }
}

} // verus!
