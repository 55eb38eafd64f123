use vstd::prelude::*;

verus! {

/// A stored file as the `files` table holds it.
#[derive(Debug, Clone, PartialEq, Eq)]
pub struct FileRecord {
    pub id: u128,
    pub name: String,
    pub original_name: String,
    pub mime_type: String,
    pub size: i64,
    pub sha256_hash: String,
    pub folder_id: Option<u128>,
    pub owner_id: u128,
    pub storage_path: String,
    pub created_at: i64,
    pub updated_at: i64,
}

/// Query parameters of an upload: the folder that receives the file.
#[derive(Debug, Clone, PartialEq, Eq)]
pub struct FileUploadParams {
    pub folder_id: Option<u128>,
}

/// Query parameters of a listing: the folder to list, or the root.
#[derive(Debug, Clone, PartialEq, Eq)]
pub struct FileListParams {
    pub folder_id: Option<u128>,
}

/// Body of a rename request.
#[derive(Debug, Clone, PartialEq, Eq)]
pub struct FileRenameRequest {
    pub name: String,
}

/// Body of a move request: the destination folder, or the root.
#[derive(Debug, Clone, PartialEq, Eq)]
pub struct FileMoveRequest {
    pub folder_id: Option<u128>,
}

} // verus!
