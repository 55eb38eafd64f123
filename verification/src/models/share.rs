use vstd::prelude::*;

verus! {

/// A public link to a file or a folder.
#[derive(Debug, Clone, PartialEq, Eq)]
pub struct ShareLink {
    pub id: u128,
    pub file_id: Option<u128>,
    pub folder_id: Option<u128>,
    pub token: String,
    pub expires_at: Option<i64>,
    pub download_count: i32,
    pub max_downloads: Option<i32>,
    /// Never serialised to clients.
    pub password_hash: Option<String>,
    pub created_by: u128,
    pub created_at: i64,
}

/// Body of a share-link creation.
#[derive(Debug, Clone, PartialEq, Eq)]
pub struct CreateShareLinkRequest {
    pub file_id: Option<u128>,
    pub folder_id: Option<u128>,
    pub expires_in_hours: Option<i64>,
    pub max_downloads: Option<i32>,
    pub password: Option<String>,
}

/// What a client is told of a new share link.
#[derive(Debug, Clone, PartialEq, Eq)]
pub struct ShareLinkResponse {
    pub id: u128,
    pub token: String,
    pub url: String,
    pub expires_at: Option<i64>,
    pub max_downloads: Option<i32>,
}

/// Body of a request to open a share link.
#[derive(Debug, Clone, PartialEq, Eq)]
pub struct ShareAccessRequest {
    pub password: Option<String>,
}

} // verus!
