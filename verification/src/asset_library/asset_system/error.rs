//! What can go wrong in the asset system.

use crate::asset_library::vfs::error::VfsError;
use vstd::prelude::*;

verus! {

/// `std::io::Error`: why reading or writing failed. Nothing of it is seen from
/// here.
#[verifier::external_type_specification]
#[verifier::external_body]
pub struct ExIoError(std::io::Error);

/// `serde_yaml::Error`: why bytes are no YAML document. Nothing of it is seen
/// from here.
#[verifier::external_type_specification]
#[verifier::external_body]
pub struct ExYamlError(serde_yaml::Error);

/// `serde_cbor::Error`: why bytes are no CBOR document. Nothing of it is seen
/// from here.
#[verifier::external_type_specification]
#[verifier::external_body]
pub struct ExCborError(serde_cbor::Error);

/// `serde_json::Error`: why bytes are no JSON document. Nothing of it is seen
/// from here.
#[verifier::external_type_specification]
#[verifier::external_body]
pub struct ExJsonError(serde_json::Error);

/// `toml::de::Error`: why bytes are no TOML document. Nothing of it is seen from
/// here.
#[verifier::external_type_specification]
#[verifier::external_body]
pub struct ExTomlError(toml::de::Error);

/// Failure to read an asset archive; the text says why.
#[derive(Debug)]
pub struct AssetArchiveError {
    /// Why the archive could not be read.
    pub reason: String,
}

/// The error of the decoder that was asked to read an asset's bytes.
#[derive(Debug)]
pub enum DecodeError {
    /// The bytes are not a YAML document.
    Yaml(serde_yaml::Error),
    /// The bytes are not a CBOR document.
    Cbor(serde_cbor::Error),
    /// The bytes are not a JSON document.
    Json(serde_json::Error),
    /// The text is not a TOML document.
    Toml(toml::de::Error),
    /// The bytes of a TOML asset are not UTF-8, so they are no text at all.
    TomlNotText,
}

/// Failure of the asset system.
#[derive(Debug)]
pub enum AssetSystemError {
    /// The virtual file system could not deliver the asset.
    Vfs(VfsError),
    /// Reading from disk failed.
    Io(std::io::Error),
    /// The asset's bytes could not be decoded.
    Other(DecodeError),
    /// An asset archive could not be read.
    Archive(AssetArchiveError),
    /// The asset is in a format that the asset system does not decode.
    UnknownAssetFormat,
    /// The asset nests deeper than the asset system lets through to a decoder.
    NestingLimitExceeded,
}

impl From<std::io::Error> for AssetSystemError {
    fn from(e: std::io::Error) -> (error: Self) {
        Self::Io(e)
    }
}

impl vstd::std_specs::convert::FromSpecImpl<std::io::Error> for AssetSystemError {
    open spec fn obeys_from_spec() -> bool {
        true
    }

    open spec fn from_spec(e: std::io::Error) -> Self {
        AssetSystemError::Io(e)
    }
}

impl From<VfsError> for AssetSystemError {
    fn from(e: VfsError) -> (error: Self) {
        Self::Vfs(e)
    }
}

impl vstd::std_specs::convert::FromSpecImpl<VfsError> for AssetSystemError {
    open spec fn obeys_from_spec() -> bool {
        true
    }

    open spec fn from_spec(e: VfsError) -> Self {
        AssetSystemError::Vfs(e)
    }
}

impl From<DecodeError> for AssetSystemError {
    fn from(e: DecodeError) -> (error: Self) {
        Self::Other(e)
    }
}

impl vstd::std_specs::convert::FromSpecImpl<DecodeError> for AssetSystemError {
    open spec fn obeys_from_spec() -> bool {
        true
    }

    open spec fn from_spec(e: DecodeError) -> Self {
        AssetSystemError::Other(e)
    }
}

impl From<AssetArchiveError> for AssetSystemError {
    fn from(e: AssetArchiveError) -> (error: Self) {
        AssetSystemError::Archive(e)
    }
}

impl vstd::std_specs::convert::FromSpecImpl<AssetArchiveError> for AssetSystemError {
    open spec fn obeys_from_spec() -> bool {
        true
    }

    open spec fn from_spec(e: AssetArchiveError) -> Self {
        AssetSystemError::Archive(e)
    }
}

} // verus!
