//! What can go wrong in the virtual file system.

use vstd::prelude::*;

verus! {

/// Failure of a lookup in the virtual file system.
#[derive(Debug, Clone)]
pub enum VfsError {
    /// Nothing is mounted under the mount point that was asked for.
    MountpointNotFound,
    /// No layer of the mount point has the file.
    FileNotFound,
    /// A layer has the file and could not deliver it; the text says why.
    Other(String),
}

impl VfsError {
    /// Whether the error only says that one layer does not have the file, so that
    /// the search goes on with the next layer.
    pub fn is_file_not_found(&self) -> (missing: bool)
        ensures
            missing == (*self is FileNotFound),
    {
        match self {
            VfsError::FileNotFound => true,
            _ => false,
        }
    }

    /// The error in words.
    pub fn message(&self) -> (text: String)
        ensures
            *self is MountpointNotFound ==> text@ == "mount point not found"@,
            *self is FileNotFound ==> text@ == "file not found"@,
            *self matches VfsError::Other(reason) ==> text@ == reason@,
    {
        match self {
            VfsError::MountpointNotFound => "mount point not found".to_owned(),
            VfsError::FileNotFound => "file not found".to_owned(),
            VfsError::Other(reason) => reason.clone(),
        }
    }
}

} // verus!
