//! The virtual file system: named mount points, each a stack of layers ordered by
//! version. A file is looked for in the newest layer first.

pub mod error;

use crate::asset_library::asset_descriptor::AssetDescriptor;
use crate::asset_library::vfs::error::VfsError;
use vstd::prelude::*;

verus! {

/// What `str::to_lowercase` makes of a text.
pub uninterp spec fn lowercase_of(text: Seq<char>) -> Seq<char>;

/// `str::to_lowercase`: the text with every character replaced by its lowercase
/// form as Unicode defines it.
#[verifier::external_body]
fn to_lowercase(text: &str) -> (lowered: String)
    ensures
        lowered@ == lowercase_of(text@),
{
    text.to_lowercase()
}

/// One layer of a mount point: a source of files, such as a directory or an
/// archive.
pub trait VfsMountPoint: Send + Sync + 'static {
    /// Whether `name` is the name of the mount point that the layer belongs to. A
    /// layer that does not say admits every name.
    open spec fn is_named(&self, name: Seq<char>) -> bool {
        true
    }

    /// Name of the mount point that the layer belongs to.
    fn identifier(&self) -> (name: &str)
        ensures
            self.is_named(name@),
    ;

    /// Whether the layer has the file.
    fn has_file(&self, identifier: &str) -> bool;

    /// The description of the file, if the layer has it.
    fn get_asset_descriptor(&self, identifier: &str) -> Option<AssetDescriptor>;

    /// Whether the layer may give `answer` and leave `after` in the buffer when it
    /// is asked to load `identifier` into a buffer that holds `before`. A layer
    /// that does not say admits every answer.
    open spec fn answers(
        &self,
        identifier: Seq<char>,
        before: Seq<u8>,
        after: Seq<u8>,
        answer: Result<AssetDescriptor, VfsError>,
    ) -> bool {
        true
    }

    /// Appends the bytes of the file to `buffer` and returns its description.
    fn load_asset_into(&self, identifier: &str, buffer: &mut Vec<u8>) -> (answer: Result<
        AssetDescriptor,
        VfsError,
    >)
        ensures
            self.answers(identifier@, old(buffer)@, final(buffer)@, answer),
    ;

    /// Whether `version` is the version of the layer. A layer that does not say
    /// admits every version.
    open spec fn has_version(&self, version: u64) -> bool {
        true
    }

    /// Version of the layer; a layer with a higher version shadows the others.
    fn version(&self) -> (version: u64)
        ensures
            self.has_version(version),
    ;
}

/// One layer with the version that it gave when it was asked.
pub struct MountedLayer {
    version: u64,
    layer: Box<dyn VfsMountPoint>,
}

impl MountedLayer {
    /// The version that the layer is mounted under.
    pub closed spec fn version(&self) -> u64 {
        self.version
    }

    /// Whether the layer inside may give `answer` and leave `after` in the buffer
    /// when it is asked to load `identifier` into a buffer that holds `before`.
    pub closed spec fn answers(
        &self,
        identifier: Seq<char>,
        before: Seq<u8>,
        after: Seq<u8>,
        answer: Result<AssetDescriptor, VfsError>,
    ) -> bool {
        self.layer.answers(identifier, before, after, answer)
    }

    /// Asks `mountpoint` for its version and keeps the answer with it: the layer
    /// is to be mounted under the version that is its own.
    pub fn new<M: VfsMountPoint>(mountpoint: M) -> (layer: Self)
        ensures
            mountpoint.has_version(layer.version()),
    {
        let version = mountpoint.version();
        MountedLayer::with_version(version, mountpoint)
    }

    /// Keeps `mountpoint` as a layer to be mounted under `version`.
    pub fn with_version<M: VfsMountPoint>(version: u64, mountpoint: M) -> (layer: Self)
        ensures
            layer.version() == version,
    {
        MountedLayer { version, layer: Box::new(mountpoint) }
    }
}

/// All layers of one mount point, lowest version first.
pub struct MountGroup {
    identifier: String,
    layers: Vec<MountedLayer>,
}

/// The versions in `layers`, in order.
pub closed spec fn versions_in(layers: Seq<MountedLayer>) -> Seq<u64> {
    layers.map_values(|layer: MountedLayer| layer.version)
}

/// Each version is lower than the next.
pub open spec fn strictly_ascending(versions: Seq<u64>) -> bool {
    forall|i: int, j: int| 0 <= i < j < versions.len() ==> versions[i] < versions[j]
}

/// Number of versions that are lower than `version`: the place where `version`
/// belongs among ascending versions.
pub open spec fn place_of(versions: Seq<u64>, version: u64) -> int
    decreases versions.len(),
{
    if versions.len() == 0 {
        0
    } else {
        place_of(versions.drop_last(), version) + if versions.last() < version {
            1int
        } else {
            0int
        }
    }
}

/// `versions` with `version` put in its place.
pub open spec fn with_version(versions: Seq<u64>, version: u64) -> Seq<u64> {
    versions.insert(place_of(versions, version), version)
}

/// In ascending versions exactly the first `place_of` versions are lower than
/// `version`.
pub proof fn lemma_place_of(versions: Seq<u64>, version: u64)
    requires
        strictly_ascending(versions),
    ensures
        0 <= place_of(versions, version) <= versions.len(),
        forall|i: int| 0 <= i < place_of(versions, version) ==> versions[i] < version,
        forall|i: int| place_of(versions, version) <= i < versions.len() ==> versions[i] >= version,
    decreases versions.len(),
{
    if versions.len() > 0 {
        let front = versions.drop_last();
        assert(strictly_ascending(front)) by {
            assert forall|i: int, j: int| 0 <= i < j < front.len() implies front[i] < front[j] by {
                assert(front[i] == versions[i] && front[j] == versions[j]);
            }
        }
        lemma_place_of(front, version);
        let place = place_of(versions, version);
        assert forall|i: int| 0 <= i < place implies versions[i] < version by {
            if i < front.len() {
                assert(front[i] == versions[i]);
                if versions.last() < version {
                    assert(versions[i] < versions[versions.len() - 1]);
                }
            }
        }
        assert forall|i: int| place <= i < versions.len() implies versions[i] >= version by {
            if i < front.len() {
                assert(front[i] == versions[i]);
                if versions.last() < version {
                    assert(place == place_of(front, version) + 1);
                    assert(place_of(front, version) == front.len()) by {
                        if place_of(front, version) < front.len() {
                            let k = place_of(front, version);
                            assert(front[k] >= version);
                            assert(versions[k] < versions[versions.len() - 1]);
                        }
                    }
                }
            }
        }
    }
}

/// Putting a version that is not among them into ascending versions leaves them
/// ascending.
pub proof fn lemma_with_version_ascending(versions: Seq<u64>, version: u64)
    requires
        strictly_ascending(versions),
        !versions.contains(version),
    ensures
        strictly_ascending(with_version(versions, version)),
        with_version(versions, version).contains(version),
        with_version(versions, version).len() == versions.len() + 1,
{
    lemma_place_of(versions, version);
    let place = place_of(versions, version);
    let after = with_version(versions, version);
    assert forall|i: int, j: int| 0 <= i < j < after.len() implies after[i] < after[j] by {
        if j == place {
            assert(after[i] == versions[i]);
        } else if i == place {
            assert(after[j] == versions[j - 1]);
            assert(versions.contains(versions[j - 1]));
        } else if i < place && j > place {
            assert(after[i] == versions[i] && after[j] == versions[j - 1]);
        } else if j < place {
            assert(after[i] == versions[i] && after[j] == versions[j]);
        } else {
            assert(after[i] == versions[i - 1] && after[j] == versions[j - 1]);
        }
    }
    assert(after[place] == version);
}

/// The virtual file system.
pub struct VirtualFileSystem {
    mounts: Vec<MountGroup>,
}

impl Default for VirtualFileSystem {
    fn default() -> (vfs: Self)
        ensures
            vfs.wf(),
            forall|mount_point: Seq<char>| !vfs.has_mount_point(mount_point),
    {
        Self { mounts: Vec::new() }
    }
}

impl VirtualFileSystem {
    /// Where in the list the group of `mount_point` stands, if it is there.
    closed spec fn group_index(&self, mount_point: Seq<char>) -> Option<int> {
        if exists|g: int| 0 <= g < self.mounts@.len()
            && self.mounts@[g].identifier@ == mount_point {
            Some(
                choose|g: int|
                    0 <= g < self.mounts@.len() && self.mounts@[g].identifier@ == mount_point,
            )
        } else {
            None
        }
    }

    /// Whether anything is mounted under `mount_point`.
    pub closed spec fn has_mount_point(&self, mount_point: Seq<char>) -> bool {
        self.group_index(mount_point).is_some()
    }

    /// The versions of the layers mounted under `mount_point`, lowest first.
    pub closed spec fn versions_of(&self, mount_point: Seq<char>) -> Seq<u64> {
        match self.group_index(mount_point) {
            Some(g) => versions_in(self.mounts@[g].layers@),
            None => Seq::empty(),
        }
    }

    /// The layers mounted under `mount_point`, lowest version first.
    pub closed spec fn layers_of(&self, mount_point: Seq<char>) -> Seq<MountedLayer> {
        match self.group_index(mount_point) {
            Some(g) => self.mounts@[g].layers@,
            None => Seq::empty(),
        }
    }

    /// What the layer that was asked as number `turn` answered, in a search that
    /// asked `asked` layers and ended with `read`: the layer that was asked last
    /// gave the final answer, unless the search ended without the file; every
    /// other layer answered that it does not have the file.
    pub open spec fn answer_in_turn(
        turn: int,
        asked: int,
        read: Result<AssetDescriptor, VfsError>,
    ) -> Result<AssetDescriptor, VfsError> {
        if turn == asked - 1 && read != Err::<AssetDescriptor, VfsError>(VfsError::FileNotFound) {
            read
        } else {
            Err(VfsError::FileNotFound)
        }
    }

    /// A search for `file` under `mount_point` asked `asked` layers and ended with
    /// `read`. `buffers` holds what was in the buffer before the first layer was
    /// asked and after each layer had answered.
    ///
    /// The layers are asked from the highest version down. A layer that answers
    /// `FileNotFound` passes the question on to the next; any other answer ends
    /// the search and is its result. `FileNotFound` is the result exactly where
    /// every layer was asked and every layer passed.
    pub open spec fn searched(
        &self,
        mount_point: Seq<char>,
        file: Seq<char>,
        buffers: Seq<Seq<u8>>,
        asked: int,
        read: Result<AssetDescriptor, VfsError>,
    ) -> bool {
        let layers = self.layers_of(mount_point);
        &&& 0 <= asked <= layers.len()
        &&& buffers.len() == asked + 1
        &&& forall|turn: int|
            0 <= turn < asked ==> (#[trigger] layers[layers.len() - 1 - turn]).answers(
                file,
                buffers[turn],
                buffers[turn + 1],
                Self::answer_in_turn(turn, asked, read),
            )
        &&& if read == Err::<AssetDescriptor, VfsError>(VfsError::FileNotFound) {
            asked == layers.len()
        } else {
            asked >= 1
        }
    }

    /// No mount point is listed twice, each has at least one layer, and the
    /// layers of each are in ascending order of version without repetition.
    pub closed spec fn wf(&self) -> bool {
        &&& forall|g: int, h: int|
            0 <= g < h < self.mounts@.len() ==> self.mounts@[g].identifier@
                != self.mounts@[h].identifier@
        &&& forall|g: int|
            0 <= g < self.mounts@.len() ==> (#[trigger] self.mounts@[g]).layers@.len() > 0
                && strictly_ascending(versions_in(self.mounts@[g].layers@))
    }

    /// What a sound file system guarantees of every mount point.
    pub proof fn lemma_mount_points(&self, mount_point: Seq<char>)
        requires
            self.wf(),
        ensures
            strictly_ascending(self.versions_of(mount_point)),
            self.has_mount_point(mount_point) == (self.versions_of(mount_point).len() > 0),
            self.layers_of(mount_point).len() == self.versions_of(mount_point).len(),
            forall|i: int|
                0 <= i < self.layers_of(mount_point).len() ==> (#[trigger] self.layers_of(
                    mount_point,
                )[i]).version() == self.versions_of(mount_point)[i],
    {
    }

    /// Finds the group of `mount_point`.
    fn find_group(&self, mount_point: &String) -> (found: Option<usize>)
        requires
            self.wf(),
        ensures
            match found {
                Some(g) => g < self.mounts@.len() && self.group_index(mount_point@) == Some(
                    g as int,
                ),
                None => self.group_index(mount_point@).is_none(),
            },
    {
        let count = self.mounts.len();
        let mut g: usize = 0;
        while g < count
            invariant
                self.wf(),
                g <= count,
                count == self.mounts@.len(),
                forall|h: int| 0 <= h < g ==> self.mounts@[h].identifier@ != mount_point@,
            decreases count - g,
        {
            if self.mounts[g].identifier == *mount_point {
                proof {
                    let chosen = self.group_index(mount_point@).unwrap();
                    assert(self.mounts@[chosen].identifier@ == mount_point@);
                    assert(chosen == g);
                }
                return Some(g);
            }
            g += 1;
        }
        None
    }

    /// Mounts a new layer under the mount point that the layer names, at the place
    /// that its version gives it. A layer whose version is already mounted under
    /// that mount point is refused.
    ///
    /// The name and the version are the layer's own, as it answers when asked;
    /// with them the outcome is that of `mount_layer`.
    pub fn mount<M: VfsMountPoint>(&mut self, mountpoint: M) -> (mounted: bool)
        requires
            old(self).wf(),
        ensures
            final(self).wf(),
            exists|mount_point: Seq<char>, version: u64|
                {
                    &&& mountpoint.is_named(mount_point)
                    &&& mountpoint.has_version(version)
                    &&& #[trigger] old(self).mounted_layer(
                        *final(self),
                        mount_point,
                        version,
                        mounted,
                    )
                },
    {
        let identifier = mountpoint.identifier().to_owned();
        let layer = MountedLayer::new(mountpoint);
        let ghost mount_point = identifier@;
        let ghost version = layer.version();
        let mounted = self.mount_layer(identifier, layer);
        proof {
            assert(old(self).mounted_layer(*self, mount_point, version, mounted));
        }
        mounted
    }

    /// `after` is this file system once a layer of `version` was offered for
    /// `mount_point`: it was mounted unless that version was there already, the
    /// versions of that mount point are still ascending, and every other mount
    /// point is as it was.
    pub open spec fn mounted_layer(
        &self,
        after: Self,
        mount_point: Seq<char>,
        version: u64,
        mounted: bool,
    ) -> bool {
        &&& mounted == !self.versions_of(mount_point).contains(version)
        &&& after.versions_of(mount_point) == (if mounted {
            with_version(self.versions_of(mount_point), version)
        } else {
            self.versions_of(mount_point)
        })
        &&& forall|other: Seq<char>|
            other != mount_point ==> #[trigger] after.versions_of(other) == self.versions_of(other)
    }

    /// Mounts `layer` under `identifier` at the place that its version gives it;
    /// see `mount`.
    pub fn mount_layer(&mut self, identifier: String, layer: MountedLayer) -> (mounted: bool)
        requires
            old(self).wf(),
        ensures
            final(self).wf(),
            old(self).mounted_layer(*final(self), identifier@, layer.version(), mounted),
            final(self).layers_of(identifier@) == (if mounted {
                old(self).layers_of(identifier@).insert(
                    place_of(old(self).versions_of(identifier@), layer.version()),
                    layer,
                )
            } else {
                old(self).layers_of(identifier@)
            }),
            forall|other: Seq<char>|
                other != identifier@ ==> #[trigger] final(self).layers_of(other) == old(
                    self,
                ).layers_of(other),
    {
        let version = layer.version;
        match self.find_group(&identifier) {
            Some(g) => {
                let ghost versions = versions_in(self.mounts@[g as int].layers@);
                proof {
                    lemma_place_of(versions, version);
                }
                // Search for the place of the version among the ascending versions.
                let mut low: usize = 0;
                let mut high: usize = self.mounts[g].layers.len();
                while low < high
                    invariant
                        *self == *old(self),
                        self.wf(),
                        version == layer.version(),
                        g < self.mounts@.len(),
                        versions == self.versions_of(identifier@),
                        versions == versions_in(self.mounts@[g as int].layers@),
                        strictly_ascending(versions),
                        low <= high <= versions.len(),
                        forall|i: int| 0 <= i < low ==> versions[i] < version,
                        forall|i: int| high <= i < versions.len() ==> versions[i] > version,
                    decreases high - low,
                {
                    let middle = low + (high - low) / 2;
                    let found = self.mounts[g].layers[middle].version;
                    assert(found == versions[middle as int]);
                    if found == version {
                        proof {
                            assert(versions.contains(version));
                        }
                        return false;
                    } else if found < version {
                        low = middle + 1;
                    } else {
                        high = middle;
                    }
                }
                proof {
                    assert(!versions.contains(version)) by {
                        if versions.contains(version) {
                            let i = choose|i: int| 0 <= i < versions.len()
                                && versions[i] == version;
                            assert(versions[i] == version);
                        }
                    }
                    assert(place_of(versions, version) == low) by {
                        let place = place_of(versions, version);
                        if place < low {
                            assert(versions[place] < version);
                        } else if place > low {
                            assert(versions[low as int] > version);
                        }
                    }
                    lemma_with_version_ascending(versions, version);
                }
                let ghost before = self.mounts@;
                self.mounts[g].layers.insert(low, layer);
                proof {
                    assert(versions_in(self.mounts@[g as int].layers@) =~= with_version(
                        versions,
                        version,
                    ));
                    assert(self.mounts@[g as int].identifier@ == identifier@);
                    assert forall|h: int| 0 <= h < self.mounts@.len()
                        && h != g implies self.mounts@[h] == before[h] by {}
                    self.lemma_groups_kept(old(self), g as int);
                }
                true
            },
            None => {
                let ghost before = self.mounts@;
                let mut layers: Vec<MountedLayer> = Vec::with_capacity(4);
                layers.push(layer);
                proof {
                    assert(versions_in(layers@) =~= seq![version]);
                    assert(with_version(Seq::<u64>::empty(), version) =~= seq![version]);
                }
                self.mounts.push(MountGroup { identifier, layers });
                proof {
                    let g = before.len() as int;
                    assert(self.mounts@[g].identifier@ == identifier@);
                    assert forall|h: int| 0 <= h < before.len() implies self.mounts@[h] == before[h] by {}
                    self.lemma_group_added(old(self));
                }
                true
            },
        }
    }

    /// Where every group but the one at `changed` is as in `before` and that one
    /// kept its name, every other mount point has the versions it had.
    proof fn lemma_groups_kept(&self, before: &Self, changed: int)
        requires
            before.wf(),
            0 <= changed < before.mounts@.len(),
            self.mounts@.len() == before.mounts@.len(),
            self.mounts@[changed].identifier@ == before.mounts@[changed].identifier@,
            forall|h: int|
                0 <= h < self.mounts@.len() && h != changed ==> self.mounts@[h]
                    == before.mounts@[h],
        ensures
            self.group_index(before.mounts@[changed].identifier@) == Some(changed),
            before.group_index(before.mounts@[changed].identifier@) == Some(changed),
            forall|other: Seq<char>|
                other != before.mounts@[changed].identifier@ ==> #[trigger] self.versions_of(other)
                    == before.versions_of(other),
            forall|other: Seq<char>|
                other != before.mounts@[changed].identifier@ ==> #[trigger] self.layers_of(other)
                    == before.layers_of(other),
            forall|g: int, h: int|
                0 <= g < h < self.mounts@.len() ==> self.mounts@[g].identifier@
                    != self.mounts@[h].identifier@,
    {
        let name = before.mounts@[changed].identifier@;
        assert(self.mounts@[changed].identifier@ == name);
        let s = self.group_index(name).unwrap();
        let b = before.group_index(name).unwrap();
        assert(s == changed) by {
            if s != changed {
                assert(self.mounts@[s] == before.mounts@[s]);
            }
        }
        assert forall|other: Seq<char>| other != name implies #[trigger] self.versions_of(other)
            == before.versions_of(other) by {
            if exists|g: int| 0 <= g < before.mounts@.len()
                && before.mounts@[g].identifier@ == other {
                let g = before.group_index(other).unwrap();
                assert(self.mounts@[g] == before.mounts@[g]);
                let k = self.group_index(other).unwrap();
                assert(self.mounts@[k] == before.mounts@[k]);
                assert(k == g);
            } else {
                if exists|g: int| 0 <= g < self.mounts@.len()
                    && self.mounts@[g].identifier@ == other {
                    let k = self.group_index(other).unwrap();
                    assert(self.mounts@[k] == before.mounts@[k]);
                }
            }
        }
        assert forall|other: Seq<char>| other != name implies #[trigger] self.layers_of(other)
            == before.layers_of(other) by {
            if exists|g: int| 0 <= g < before.mounts@.len()
                && before.mounts@[g].identifier@ == other {
                let g = before.group_index(other).unwrap();
                assert(self.mounts@[g] == before.mounts@[g]);
                let k = self.group_index(other).unwrap();
                assert(self.mounts@[k] == before.mounts@[k]);
                assert(k == g);
            } else {
                if exists|g: int| 0 <= g < self.mounts@.len()
                    && self.mounts@[g].identifier@ == other {
                    let k = self.group_index(other).unwrap();
                    assert(self.mounts@[k] == before.mounts@[k]);
                }
            }
        }
        assert forall|g: int, h: int| 0 <= g < h < self.mounts@.len() implies self.mounts@[g].identifier@
            != self.mounts@[h].identifier@ by {
            if g != changed {
                assert(self.mounts@[g] == before.mounts@[g]);
            }
            if h != changed {
                assert(self.mounts@[h] == before.mounts@[h]);
            }
        }
    }

    /// Where a group with a new name was added behind the groups of `before`,
    /// every other mount point has the versions it had.
    proof fn lemma_group_added(&self, before: &Self)
        requires
            before.wf(),
            self.mounts@.len() == before.mounts@.len() + 1,
            before.group_index(self.mounts@.last().identifier@).is_none(),
            forall|h: int| 0 <= h < before.mounts@.len() ==> self.mounts@[h] == before.mounts@[h],
        ensures
            self.group_index(self.mounts@.last().identifier@) == Some(before.mounts@.len() as int),
            forall|other: Seq<char>|
                other != self.mounts@.last().identifier@ ==> #[trigger] self.versions_of(other)
                    == before.versions_of(other),
            forall|other: Seq<char>|
                other != self.mounts@.last().identifier@ ==> #[trigger] self.layers_of(other)
                    == before.layers_of(other),
            forall|g: int, h: int|
                0 <= g < h < self.mounts@.len() ==> self.mounts@[g].identifier@
                    != self.mounts@[h].identifier@,
    {
        let added = before.mounts@.len() as int;
        let name = self.mounts@.last().identifier@;
        assert(self.mounts@[added].identifier@ == name);
        let s = self.group_index(name).unwrap();
        assert(s == added) by {
            if s != added {
                assert(self.mounts@[s] == before.mounts@[s]);
            }
        }
        assert forall|other: Seq<char>| other != name implies #[trigger] self.versions_of(other)
            == before.versions_of(other) by {
            if exists|g: int| 0 <= g < before.mounts@.len()
                && before.mounts@[g].identifier@ == other {
                let g = before.group_index(other).unwrap();
                assert(self.mounts@[g] == before.mounts@[g]);
                let k = self.group_index(other).unwrap();
                if k != added {
                    assert(self.mounts@[k] == before.mounts@[k]);
                }
                assert(k == g);
            } else {
                if exists|g: int| 0 <= g < self.mounts@.len()
                    && self.mounts@[g].identifier@ == other {
                    let k = self.group_index(other).unwrap();
                    if k != added {
                        assert(self.mounts@[k] == before.mounts@[k]);
                    }
                }
            }
        }
        assert forall|other: Seq<char>| other != name implies #[trigger] self.layers_of(other)
            == before.layers_of(other) by {
            if exists|g: int| 0 <= g < before.mounts@.len()
                && before.mounts@[g].identifier@ == other {
                let g = before.group_index(other).unwrap();
                assert(self.mounts@[g] == before.mounts@[g]);
                let k = self.group_index(other).unwrap();
                if k != added {
                    assert(self.mounts@[k] == before.mounts@[k]);
                }
                assert(k == g);
            } else {
                if exists|g: int| 0 <= g < self.mounts@.len()
                    && self.mounts@[g].identifier@ == other {
                    let k = self.group_index(other).unwrap();
                    if k != added {
                        assert(self.mounts@[k] == before.mounts@[k]);
                    }
                }
            }
        }
        assert forall|g: int, h: int| 0 <= g < h < self.mounts@.len() implies self.mounts@[g].identifier@
            != self.mounts@[h].identifier@ by {
            assert(self.mounts@[g] == before.mounts@[g]);
            if h != added {
                assert(self.mounts@[h] == before.mounts@[h]);
            }
        }
    }

    /// Reads a file into a fresh buffer; see `read_file_into`.
    pub fn read_file(&self, mount_point: &str, file_identifier: &str) -> (read: Result<
        (Vec<u8>, AssetDescriptor),
        VfsError,
    >)
        requires
            self.wf(),
        ensures
            !self.has_mount_point(lowercase_of(mount_point@)) ==> read == Err::<
                (Vec<u8>, AssetDescriptor),
                VfsError,
            >(VfsError::MountpointNotFound),
            self.has_mount_point(lowercase_of(mount_point@)) ==> exists|
                buffers: Seq<Seq<u8>>,
                asked: int,
            |
                {
                    &&& #[trigger] self.searched(
                        lowercase_of(mount_point@),
                        lowercase_of(file_identifier@),
                        buffers,
                        asked,
                        Self::without_bytes(read),
                    )
                    &&& buffers[0] == Seq::<u8>::empty()
                    &&& read matches Ok(found) ==> found.0@ == buffers[asked]
                },
    {
        let mut buffer = Vec::new();
        match self.read_file_into(mount_point, file_identifier, &mut buffer) {
            Ok(descriptor) => Ok((buffer, descriptor)),
            Err(e) => Err(e),
        }
    }

    /// The result of `read_file` without the bytes that were read.
    pub open spec fn without_bytes(read: Result<(Vec<u8>, AssetDescriptor), VfsError>) -> Result<
        AssetDescriptor,
        VfsError,
    > {
        match read {
            Ok(found) => Ok(found.1),
            Err(e) => Err(e),
        }
    }

    /// Looks for the file under the mount point, newest layer first, and appends
    /// its bytes to `buffer`. Both names are looked up in lowercase.
    ///
    /// Without anything mounted under the mount point the answer is
    /// `MountpointNotFound` and the buffer is untouched. Else the layers are asked
    /// from the highest version down: a layer that answers `FileNotFound` passes
    /// the question on, any other answer is final, and `FileNotFound` is the
    /// answer where every layer passed.
    pub fn read_file_into(
        &self,
        mount_point: &str,
        file_identifier: &str,
        buffer: &mut Vec<u8>,
    ) -> (read: Result<AssetDescriptor, VfsError>)
        requires
            self.wf(),
        ensures
            !self.has_mount_point(lowercase_of(mount_point@)) ==> read == Err::<
                AssetDescriptor,
                VfsError,
            >(VfsError::MountpointNotFound) && *final(buffer) == *old(buffer),
            self.has_mount_point(lowercase_of(mount_point@)) ==> exists|
                buffers: Seq<Seq<u8>>,
                asked: int,
            |
                {
                    &&& #[trigger] self.searched(
                        lowercase_of(mount_point@),
                        lowercase_of(file_identifier@),
                        buffers,
                        asked,
                        read,
                    )
                    &&& buffers[0] == old(buffer)@
                    &&& buffers[asked] == final(buffer)@
                },
    {
        let key = to_lowercase(mount_point);
        let g = match self.find_group(&key) {
            Some(g) => g,
            None => {
                return Err(VfsError::MountpointNotFound);
            },
        };
        let file = to_lowercase(file_identifier);
        let count = self.mounts[g].layers.len();
        let mut remaining = count;
        let ghost layers = self.layers_of(key@);
        let ghost mut buffers: Seq<Seq<u8>> = seq![buffer@];
        while remaining > 0
            invariant
                g < self.mounts@.len(),
                key@ == lowercase_of(mount_point@),
                file@ == lowercase_of(file_identifier@),
                layers == self.layers_of(key@),
                layers == self.mounts@[g as int].layers@,
                count == layers.len(),
                remaining <= count,
                self.has_mount_point(key@),
                buffers.len() == count - remaining + 1,
                buffers[0] == old(buffer)@,
                buffers[count - remaining] == buffer@,
                forall|turn: int|
                    0 <= turn < count - remaining ==> (#[trigger] layers[count - 1 - turn]).answers(
                        file@,
                        buffers[turn],
                        buffers[turn + 1],
                        Err::<AssetDescriptor, VfsError>(VfsError::FileNotFound),
                    ),
            decreases remaining,
        {
            remaining -= 1;
            let ghost before = buffers;
            let answer = self.mounts[g].layers[remaining].layer.load_asset_into(
                file.as_str(),
                buffer,
            );
            proof {
                buffers = buffers.push(buffer@);
                assert(layers[remaining as int].answers(
                    file@,
                    buffers[count - remaining - 1],
                    buffers[count - remaining as int],
                    answer,
                ));
                assert forall|turn: int| 0 <= turn < count - remaining - 1 implies (
                #[trigger] layers[count - 1 - turn]).answers(
                    file@,
                    buffers[turn],
                    buffers[turn + 1],
                    Err::<AssetDescriptor, VfsError>(VfsError::FileNotFound),
                ) by {
                    assert(buffers[turn] == before[turn]);
                    assert(buffers[turn + 1] == before[turn + 1]);
                }
            }
            match answer {
                Ok(descriptor) => {
                    proof {
                        let asked = count - remaining as int;
                        let read = Ok::<AssetDescriptor, VfsError>(descriptor);
                        assert(layers[count - 1 - (asked - 1)] == layers[remaining as int]);
                        assert(self.searched(key@, file@, buffers, asked, read));
                    }
                    return Ok(descriptor);
                },
                Err(e) => {
                    if !e.is_file_not_found() {
                        proof {
                            let asked = count - remaining as int;
                            let read = Err::<AssetDescriptor, VfsError>(e);
                            assert(layers[count - 1 - (asked - 1)] == layers[remaining as int]);
                            assert(self.searched(key@, file@, buffers, asked, read));
                        }
                        return Err(e);
                    }
                    proof {
                        assert(answer == Err::<AssetDescriptor, VfsError>(VfsError::FileNotFound));
                        assert(layers[count - 1 - (count - remaining - 1)] == layers[remaining as int]);
                    }
                },
            }
        }
        proof {
            let read = Err::<AssetDescriptor, VfsError>(VfsError::FileNotFound);
            assert(self.searched(key@, file@, buffers, count as int, read));
        }
        Err(VfsError::FileNotFound)
    }
}

} // verus!
