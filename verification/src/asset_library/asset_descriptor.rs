//! What is known of an asset besides its bytes.

use vstd::prelude::*;

verus! {

/// Describes one asset: the name it is found by and the format of its bytes.
#[derive(Debug, Clone)]
pub struct AssetDescriptor {
    identifier: String,
    format: String,
}

impl AssetDescriptor {
    /// The name that the asset is found by.
    pub closed spec fn spec_identifier(&self) -> Seq<char> {
        self.identifier@
    }

    /// The format of the asset's bytes, as a file extension.
    pub closed spec fn spec_format(&self) -> Seq<char> {
        self.format@
    }

    /// Describes the asset `identifier`, whose bytes are in `format`.
    pub fn new(identifier: String, format: String) -> (descriptor: Self)
        ensures
            descriptor.spec_identifier() == identifier@,
            descriptor.spec_format() == format@,
    {
        AssetDescriptor { identifier, format }
    }

    /// The name that the asset is found by.
    pub fn identifier(&self) -> (identifier: &str)
        ensures
            identifier@ == self.spec_identifier(),
    {
        self.identifier.as_str()
    }

    /// The format of the asset's bytes, as a file extension.
    pub fn format(&self) -> (format: &str)
        ensures
            format@ == self.spec_format(),
    {
        self.format.as_str()
    }
}

} // verus!
