use vstd::prelude::*;

verus! {

/// An opaque reference to a text file that the user attached.
#[derive(Debug, Clone, PartialEq, Eq)]
pub struct Reference {
    pub reference_id: String,
    pub name: String,
    pub size: u64,
}

/// An opaque reference to a directory that the user authorized.
#[derive(Debug, Clone, PartialEq, Eq)]
pub struct DirectoryReference {
    pub reference_id: String,
    pub name: String,
}

/// A request to release a file or directory reference.
#[derive(Debug, Clone, PartialEq, Eq)]
pub struct ReleaseRequest {
    pub reference_id: String,
}

/// A request to open or reveal a listed directory entry.
#[derive(Debug, Clone, PartialEq, Eq)]
pub struct DirectoryEntryActionRequest {
    pub target_reference_id: String,
    pub relative_path: String,
}

} // verus!
