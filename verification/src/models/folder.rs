use vstd::prelude::*;

verus! {

/// A folder as the `folders` table holds it.
#[derive(Debug, Clone, PartialEq, Eq)]
pub struct Folder {
    pub id: u128,
    pub name: String,
    pub parent_id: Option<u128>,
    pub owner_id: u128,
    pub created_at: i64,
    pub updated_at: i64,
}

/// Body of a folder creation: its name and, optionally, its parent.
#[derive(Debug, Clone, PartialEq, Eq)]
pub struct CreateFolderRequest {
    pub name: String,
    pub parent_id: Option<u128>,
}

/// Body of a folder rename.
#[derive(Debug, Clone, PartialEq, Eq)]
pub struct RenameFolderRequest {
    pub name: String,
}

} // verus!
