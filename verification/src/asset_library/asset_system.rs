//! The asset system: finds assets in the virtual file system and decodes them.

pub mod error;
pub mod toml_nesting;

use crate::asset_library::asset_descriptor::AssetDescriptor;
use crate::asset_library::asset_system::error::AssetSystemError;
use crate::asset_library::asset_system::error::DecodeError;
use crate::asset_library::asset_system::toml_nesting::toml_nesting;
use crate::asset_library::asset_system::toml_nesting::toml_nests_beyond;
use crate::asset_library::vfs::error::VfsError;
use crate::asset_library::vfs::lowercase_of;
use crate::asset_library::vfs::VfsMountPoint;
use crate::asset_library::vfs::VirtualFileSystem;
use vstd::prelude::*;
use vstd::string::StringSliceAdditionalSpecFns;
use vstd::utf8::valid_utf8;

verus! {

/// `serde_yaml::Value`: a YAML document. Nothing of it is seen from here.
#[verifier::external_type_specification]
#[verifier::external_body]
pub struct ExYamlValue(serde_yaml::Value);

/// `serde_cbor::Value`: a CBOR document. Nothing of it is seen from here.
#[verifier::external_type_specification]
#[verifier::external_body]
pub struct ExCborValue(serde_cbor::Value);

/// `serde_json::Value`: a JSON document. Nothing of it is seen from here.
#[verifier::external_type_specification]
#[verifier::external_body]
pub struct ExJsonValue(serde_json::Value);

/// `toml::Value`: a TOML document. Nothing of it is seen from here.
#[verifier::external_type_specification]
#[verifier::external_body]
pub struct ExTomlValue(toml::Value);

/// `serde_yaml::from_slice`, asked for a `serde_yaml::Value`: the document that
/// the bytes are the YAML of, or why there is none. Nothing is claimed about the
/// result. The decoder bounds the nesting that it follows by itself and answers
/// deeper input with an error.
#[verifier::external_body]
fn yaml_from_slice(bytes: &[u8]) -> (decoded: Result<serde_yaml::Value, serde_yaml::Error>) {
    serde_yaml::from_slice(bytes)
}

/// `serde_cbor::from_slice`, asked for a `serde_cbor::Value`: the document that
/// the bytes are the CBOR of, or why there is none. Nothing is claimed about the
/// result.
#[verifier::external_body]
fn cbor_from_slice(bytes: &[u8]) -> (decoded: Result<serde_cbor::Value, serde_cbor::Error>) {
    serde_cbor::from_slice(bytes)
}

/// `serde_json::from_slice`, asked for a `serde_json::Value`: the document that
/// the bytes are the JSON of, or why there is none. Nothing is claimed about the
/// result.
#[verifier::external_body]
fn json_from_slice(bytes: &[u8]) -> (decoded: Result<serde_json::Value, serde_json::Error>) {
    serde_json::from_slice(bytes)
}

/// `core::str::from_utf8`: the bytes as text, where they are the UTF-8 of a
/// text, and nothing where they are not.
#[verifier::external_body]
fn text_of(bytes: &[u8]) -> (text: Option<&str>)
    ensures
        text.is_some() == valid_utf8(bytes@),
        text matches Some(t) ==> t.spec_bytes() == bytes@,
{
    core::str::from_utf8(bytes).ok()
}

/// The most levels that a TOML asset may have open at once, by the count of
/// `toml_nesting`. Everyday documents stay far below it: a document without
/// brackets whose keys have no dots counts one level, however long it is.
pub const TOML_NESTING_LIMIT: usize = 128;

/// `toml::from_str`, asked for a `toml::Value`: the document that the text is
/// the TOML of, or why there is none. Nothing is claimed about the result.
///
/// The decoder lets arrays and inline tables nest only so far, and a key have
/// only so many parts, but every inline table may hold a key of many parts, and
/// the document that comes of it is as deep as all of these together. Building
/// and releasing that document takes stack for every level. `toml_nesting`
/// counts a level for every bracket that is open, for every part of a key whose
/// value is being read and for every part of the table's name, and it tells
/// strings and comments from structure as the decoder does, so no value of the
/// document lies deeper than the count. Texts that count more than
/// `TOML_NESTING_LIMIT` levels are left out.
#[verifier::external_body]
fn toml_from_str(text: &str) -> (decoded: Result<toml::Value, toml::de::Error>)
    requires
        toml_nesting(text.spec_bytes()) <= TOML_NESTING_LIMIT,
{
    toml::from_str(text)
}

/// A decoded asset: the document that its bytes spell, in the data model of the
/// format it was written in. Turning the document into a value of a type of the
/// caller's is the caller's last step.
#[derive(Debug)]
pub enum AssetDocument {
    /// A YAML document.
    Yaml(serde_yaml::Value),
    /// A CBOR document.
    Cbor(serde_cbor::Value),
    /// A JSON document.
    Json(serde_json::Value),
    /// A TOML document.
    Toml(toml::Value),
}

impl AssetDocument {
    /// The format that the document was decoded from.
    pub open spec fn spec_format(&self) -> AssetFormat {
        match self {
            AssetDocument::Yaml(_) => AssetFormat::Yaml,
            AssetDocument::Cbor(_) => AssetFormat::Cbor,
            AssetDocument::Json(_) => AssetFormat::Json,
            AssetDocument::Toml(_) => AssetFormat::Toml,
        }
    }

    /// The format that the document was decoded from.
    pub fn format(&self) -> (format: AssetFormat)
        ensures
            format == self.spec_format(),
    {
        match self {
            AssetDocument::Yaml(_) => AssetFormat::Yaml,
            AssetDocument::Cbor(_) => AssetFormat::Cbor,
            AssetDocument::Json(_) => AssetFormat::Json,
            AssetDocument::Toml(_) => AssetFormat::Toml,
        }
    }
}

impl DecodeError {
    /// The format whose decoder gave the error.
    pub open spec fn spec_format(&self) -> AssetFormat {
        match self {
            DecodeError::Yaml(_) => AssetFormat::Yaml,
            DecodeError::Cbor(_) => AssetFormat::Cbor,
            DecodeError::Json(_) => AssetFormat::Json,
            DecodeError::Toml(_) => AssetFormat::Toml,
            DecodeError::TomlNotText => AssetFormat::Toml,
        }
    }
}

/// What decoding `bytes` in `format` came to.
///
/// TOML is text: bytes that are not UTF-8 are no TOML. A TOML text that has more
/// than `TOML_NESTING_LIMIT` levels open at once is refused. No decoder sees
/// either. Everything else goes to the decoder of the format, which answers
/// with a document of that format or with its error.
pub open spec fn decoded_in(
    format: AssetFormat,
    bytes: Seq<u8>,
    decoded: Result<AssetDocument, AssetSystemError>,
) -> bool {
    if format == AssetFormat::Toml && !valid_utf8(bytes) {
        decoded == Err::<AssetDocument, AssetSystemError>(
            AssetSystemError::Other(DecodeError::TomlNotText),
        )
    } else if format == AssetFormat::Toml && toml_nesting(bytes) > TOML_NESTING_LIMIT {
        decoded == Err::<AssetDocument, AssetSystemError>(AssetSystemError::NestingLimitExceeded)
    } else {
        match decoded {
            Ok(document) => document.spec_format() == format,
            Err(AssetSystemError::Other(reason)) => reason.spec_format() == format && !(reason
                is TomlNotText),
            Err(_) => false,
        }
    }
}

/// What decoding the bytes of an asset whose description names the format
/// `name` came to: `UnknownAssetFormat` where the asset system decodes no
/// format of that name, and else what decoding in that format came to.
pub open spec fn asset_decoded(
    name: Seq<char>,
    bytes: Seq<u8>,
    decoded: Result<AssetDocument, AssetSystemError>,
) -> bool {
    match format_named(name) {
        Some(format) => decoded_in(format, bytes, decoded),
        None => decoded == Err::<AssetDocument, AssetSystemError>(
            AssetSystemError::UnknownAssetFormat,
        ),
    }
}

/// A format that the asset system decodes.
#[derive(Clone, Copy, Debug, PartialEq, Eq, Structural)]
pub enum AssetFormat {
    /// YAML, under the names `yaml` and `yml`.
    Yaml,
    /// CBOR, under the name `cbor`.
    Cbor,
    /// JSON, under the name `json`.
    Json,
    /// TOML, under the name `toml`.
    Toml,
}

/// The format that goes by `name`, if the asset system decodes it.
pub open spec fn format_named(name: Seq<char>) -> Option<AssetFormat> {
    if name == "yaml"@ || name == "yml"@ {
        Some(AssetFormat::Yaml)
    } else if name == "cbor"@ {
        Some(AssetFormat::Cbor)
    } else if name == "json"@ {
        Some(AssetFormat::Json)
    } else if name == "toml"@ {
        Some(AssetFormat::Toml)
    } else {
        None
    }
}

/// Whether two texts are the same.
fn same_text(left: &str, right: &str) -> (same: bool)
    ensures
        same == (left@ == right@),
{
    left.to_owned() == right.to_owned()
}

impl AssetFormat {
    /// The format that goes by `name`, if the asset system decodes it. Names are
    /// matched as they are written: in lowercase.
    pub fn from_name(name: &str) -> (format: Option<AssetFormat>)
        ensures
            format == format_named(name@),
    {
        if same_text(name, "yaml") || same_text(name, "yml") {
            Some(AssetFormat::Yaml)
        } else if same_text(name, "cbor") {
            Some(AssetFormat::Cbor)
        } else if same_text(name, "json") {
            Some(AssetFormat::Json)
        } else if same_text(name, "toml") {
            Some(AssetFormat::Toml)
        } else {
            None
        }
    }

    /// Decodes `bytes`, which are in this format. The bytes go to the decoder
    /// of the format; what it answers is its own affair. TOML goes to it as the
    /// text that the bytes are the UTF-8 of, unless it nests beyond
    /// `TOML_NESTING_LIMIT`.
    pub fn decode(self, bytes: &[u8]) -> (decoded: Result<AssetDocument, AssetSystemError>)
        ensures
            decoded_in(self, bytes@, decoded),
    {
        match self {
            AssetFormat::Yaml => match yaml_from_slice(bytes) {
                Ok(value) => Ok(AssetDocument::Yaml(value)),
                Err(e) => Err(AssetSystemError::Other(DecodeError::Yaml(e))),
            },
            AssetFormat::Cbor => match cbor_from_slice(bytes) {
                Ok(value) => Ok(AssetDocument::Cbor(value)),
                Err(e) => Err(AssetSystemError::Other(DecodeError::Cbor(e))),
            },
            AssetFormat::Json => match json_from_slice(bytes) {
                Ok(value) => Ok(AssetDocument::Json(value)),
                Err(e) => Err(AssetSystemError::Other(DecodeError::Json(e))),
            },
            AssetFormat::Toml => match text_of(bytes) {
                Some(text) => if toml_nests_beyond(bytes, TOML_NESTING_LIMIT) {
                    Err(AssetSystemError::NestingLimitExceeded)
                } else {
                    match toml_from_str(text) {
                        Ok(value) => Ok(AssetDocument::Toml(value)),
                        Err(e) => Err(AssetSystemError::Other(DecodeError::Toml(e))),
                    }
                },
                None => Err(AssetSystemError::Other(DecodeError::TomlNotText)),
            },
        }
    }
}

/// Whether a directory entry is an asset archive to load: a file whose extension
/// is the wanted one.
pub fn is_archive_file(is_file: bool, extension: Option<&str>, wanted_extension: &str) -> (wanted:
    bool)
    ensures
        wanted == (is_file && extension.is_some() && extension.unwrap()@ == wanted_extension@),
{
    match extension {
        Some(found) => is_file && same_text(found, wanted_extension),
        None => false,
    }
}

/// Loads assets by mount point and identifier.
pub struct AssetSystem {
    vfs: VirtualFileSystem,
}

impl Default for AssetSystem {
    fn default() -> (system: Self)
        ensures
            system.wf(),
            forall|mount_point: Seq<char>| !system.vfs().has_mount_point(mount_point),
    {
        Self { vfs: Default::default() }
    }
}

impl AssetSystem {
    /// The virtual file system that the assets are read from.
    pub closed spec fn vfs(&self) -> VirtualFileSystem {
        self.vfs
    }

    /// The virtual file system is sound.
    pub open spec fn wf(&self) -> bool {
        self.vfs().wf()
    }

    /// What loading and decoding an asset came to, where the virtual file system
    /// answered `answer` and the buffer then held `bytes`: an error of the file
    /// system comes back as `Vfs`, and an asset that was found is decoded from
    /// `bytes` in the format that its description names.
    pub open spec fn loaded_from(
        answer: Result<AssetDescriptor, VfsError>,
        bytes: Seq<u8>,
        loaded: Result<AssetDocument, AssetSystemError>,
    ) -> bool {
        match answer {
            Ok(descriptor) => asset_decoded(descriptor.spec_format(), bytes, loaded),
            Err(e) => loaded == Err::<AssetDocument, AssetSystemError>(AssetSystemError::Vfs(e)),
        }
    }

    /// Decodes an asset, allocates internal byte buffer temporarily. The asset
    /// system supports the YAML, CBOR, TOML and JSON formats.
    ///
    /// The asset is looked for as `VirtualFileSystem::read_file_into` looks for a
    /// file, with a buffer that starts out empty, and what was found is decoded
    /// from what the buffer holds in the end.
    pub fn load_asset_as_type(&self, mount_point: &str, identifier: &str) -> (loaded: Result<
        AssetDocument,
        AssetSystemError,
    >)
        requires
            self.wf(),
        ensures
            !self.vfs().has_mount_point(lowercase_of(mount_point@)) ==> loaded == Err::<
                AssetDocument,
                AssetSystemError,
            >(AssetSystemError::Vfs(VfsError::MountpointNotFound)),
            self.vfs().has_mount_point(lowercase_of(mount_point@)) ==> exists|
                buffers: Seq<Seq<u8>>,
                asked: int,
                answer: Result<AssetDescriptor, VfsError>,
            |
                {
                    &&& #[trigger] self.vfs().searched(
                        lowercase_of(mount_point@),
                        lowercase_of(identifier@),
                        buffers,
                        asked,
                        answer,
                    )
                    &&& buffers[0] == Seq::<u8>::empty()
                    &&& Self::loaded_from(answer, buffers[asked], loaded)
                },
    {
        let mut buffer = Vec::new();
        self.load_asset_as_type_using_buffer(mount_point, identifier, &mut buffer)
    }

    /// Decodes an asset, using the provided buffer as intermediate: the asset's
    /// bytes are appended to it and decoded from the whole of it.
    ///
    /// The asset is looked for as `VirtualFileSystem::read_file_into` looks for a
    /// file, and what was found is decoded from what the buffer holds in the end.
    pub fn load_asset_as_type_using_buffer(
        &self,
        mount_point: &str,
        identifier: &str,
        buffer: &mut Vec<u8>,
    ) -> (loaded: Result<AssetDocument, AssetSystemError>)
        requires
            self.wf(),
        ensures
            !self.vfs().has_mount_point(lowercase_of(mount_point@)) ==> loaded == Err::<
                AssetDocument,
                AssetSystemError,
            >(AssetSystemError::Vfs(VfsError::MountpointNotFound))
                && *final(buffer) == *old(buffer),
            self.vfs().has_mount_point(lowercase_of(mount_point@)) ==> exists|
                buffers: Seq<Seq<u8>>,
                asked: int,
                answer: Result<AssetDescriptor, VfsError>,
            |
                {
                    &&& #[trigger] self.vfs().searched(
                        lowercase_of(mount_point@),
                        lowercase_of(identifier@),
                        buffers,
                        asked,
                        answer,
                    )
                    &&& buffers[0] == old(buffer)@
                    &&& buffers[asked] == final(buffer)@
                    &&& Self::loaded_from(answer, final(buffer)@, loaded)
                },
    {
        let found = self.load_asset_as_blob_into(mount_point, identifier, buffer);
        proof {
            if self.vfs().has_mount_point(lowercase_of(mount_point@)) {
                let (buffers, asked) = choose|buffers: Seq<Seq<u8>>, asked: int|
                    {
                        &&& #[trigger] self.vfs().searched(
                            lowercase_of(mount_point@),
                            lowercase_of(identifier@),
                            buffers,
                            asked,
                            Self::answer_of_vfs(found),
                        )
                        &&& buffers[0] == old(buffer)@
                        &&& buffers[asked] == buffer@
                    };
                assert(self.vfs().searched(
                    lowercase_of(mount_point@),
                    lowercase_of(identifier@),
                    buffers,
                    asked,
                    Self::answer_of_vfs(found),
                ));
            }
        }
        match found {
            Ok(descriptor) => decode_asset(&descriptor, buffer.as_slice()),
            Err(e) => Err(e),
        }
    }

    /// What the virtual file system answered where loading an asset came to
    /// `loaded`.
    pub open spec fn answer_of_vfs(loaded: Result<AssetDescriptor, AssetSystemError>) -> Result<
        AssetDescriptor,
        VfsError,
    > {
        match loaded {
            Ok(descriptor) => Ok(descriptor),
            Err(AssetSystemError::Vfs(e)) => Err(e),
            Err(_) => arbitrary(),
        }
    }

    /// Appends the asset's bytes to `buffer` and returns its description. The
    /// asset is looked for as `VirtualFileSystem::read_file_into` looks for a
    /// file, and an error of the file system comes back as `Vfs`.
    pub fn load_asset_as_blob_into(&self, mount_point: &str, identifier: &str, buffer: &mut Vec<
        u8,
    >) -> (loaded: Result<AssetDescriptor, AssetSystemError>)
        requires
            self.wf(),
        ensures
            loaded matches Err(e) ==> e is Vfs,
            !self.vfs().has_mount_point(lowercase_of(mount_point@)) ==> loaded == Err::<
                AssetDescriptor,
                AssetSystemError,
            >(AssetSystemError::Vfs(VfsError::MountpointNotFound))
                && *final(buffer) == *old(buffer),
            self.vfs().has_mount_point(lowercase_of(mount_point@)) ==> exists|
                buffers: Seq<Seq<u8>>,
                asked: int,
            |
                {
                    &&& #[trigger] self.vfs().searched(
                        lowercase_of(mount_point@),
                        lowercase_of(identifier@),
                        buffers,
                        asked,
                        Self::answer_of_vfs(loaded),
                    )
                    &&& buffers[0] == old(buffer)@
                    &&& buffers[asked] == final(buffer)@
                },
    {
        match self.vfs.read_file_into(mount_point, identifier, buffer) {
            Ok(descriptor) => Ok(descriptor),
            Err(e) => Err(AssetSystemError::from(e)),
        }
    }

    /// Mounts a layer in the virtual file system, under the name and the version
    /// that are the layer's own; see `VirtualFileSystem::mount`.
    pub fn mount<M: VfsMountPoint>(&mut self, mountpoint: M) -> (mounted: bool)
        requires
            old(self).wf(),
        ensures
            final(self).wf(),
            exists|mount_point: Seq<char>, version: u64|
                {
                    &&& mountpoint.is_named(mount_point)
                    &&& mountpoint.has_version(version)
                    &&& #[trigger] old(self).vfs().mounted_layer(
                        final(self).vfs(),
                        mount_point,
                        version,
                        mounted,
                    )
                },
    {
        let ghost before = self.vfs;
        let mounted = self.vfs.mount(mountpoint);
        proof {
            let (mount_point, version) = choose|mount_point: Seq<char>, version: u64|
                {
                    &&& mountpoint.is_named(mount_point)
                    &&& mountpoint.has_version(version)
                    &&& #[trigger] before.mounted_layer(self.vfs, mount_point, version, mounted)
                };
            assert(old(self).vfs().mounted_layer(self.vfs(), mount_point, version, mounted));
        }
        mounted
    }
}

/// Decodes the bytes of the asset that `descriptor` describes. The format is the
/// one that the description names: without such a format the answer is
/// `UnknownAssetFormat`, and with it the answer is that of decoding in that
/// format.
pub fn decode_asset(descriptor: &AssetDescriptor, bytes: &[u8]) -> (decoded: Result<
    AssetDocument,
    AssetSystemError,
>)
    ensures
        asset_decoded(descriptor.spec_format(), bytes@, decoded),
{
    match AssetFormat::from_name(descriptor.format()) {
        Some(format) => format.decode(bytes),
        None => Err(AssetSystemError::UnknownAssetFormat),
    }
}

} // verus!
