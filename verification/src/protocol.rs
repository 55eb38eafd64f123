//! What the handlers exchange with the code that runs them: the action each
//! step asks for, the event that reports how the action went, and the reply
//! that ends a request.

use vstd::prelude::*;
use crate::models::{FileRecord, Folder, UserStorage};

verus! {

/// The HTTP status of a reply.
#[derive(Debug, Clone, Copy, PartialEq, Eq)]
pub enum Status {
    Success,
    Created,
    NoContent,
    BadRequest,
    NotFound,
    Conflict,
    PayloadTooLarge,
    InternalServerError,
}

/// The numeric HTTP code of a status.
pub open spec fn status_code(s: Status) -> u16 {
    match s {
        Status::Success => 200,
        Status::Created => 201,
        Status::NoContent => 204,
        Status::BadRequest => 400,
        Status::NotFound => 404,
        Status::Conflict => 409,
        Status::PayloadTooLarge => 413,
        Status::InternalServerError => 500,
    }
}

impl Status {
    /// The numeric HTTP code of this status.
    pub fn code(&self) -> (c: u16)
        ensures
            c == status_code(*self),
    {
        match self {
            Status::Success => 200,
            Status::Created => 201,
            Status::NoContent => 204,
            Status::BadRequest => 400,
            Status::NotFound => 404,
            Status::Conflict => 409,
            Status::PayloadTooLarge => 413,
            Status::InternalServerError => 500,
        }
    }
}

/// What a multipart field says of itself before its bytes are read.
#[derive(Debug, Clone, PartialEq, Eq)]
pub struct FieldMeta {
    pub file_name: Option<String>,
    pub content_type: Option<String>,
}

/// The columns of a new row of `files`.
#[derive(Debug, Clone, PartialEq, Eq)]
pub struct NewFile {
    pub id: u128,
    pub name: String,
    pub original_name: String,
    pub mime_type: String,
    pub size: i64,
    pub sha256_hash: String,
    pub folder_id: Option<u128>,
    pub owner_id: u128,
    pub storage_path: String,
}

/// An operation a handler asks its runner to perform.
#[derive(Debug, Clone, PartialEq, Eq)]
pub enum Action {
    /// Take the next field of the multipart body.
    NextField,
    /// Read the bytes of the field just taken.
    ReadFieldBytes,
    /// `SELECT * FROM users WHERE id = $user_id` (exactly one row).
    FetchUser { user_id: u128 },
    /// Create a directory and its missing parents.
    CreateDirAll { path: String },
    /// Create (or truncate) the file at `path` and write `data` to it.
    WriteNewFile { path: String, data: Vec<u8> },
    /// Insert a row into `files`, returning it.
    InsertFile { file: NewFile },
    /// `UPDATE users SET storage_used = storage_used + $amount WHERE id = $user_id`.
    AddStorageUsed { user_id: u128, amount: i64 },
    /// `UPDATE users SET storage_used = storage_used - $amount WHERE id = $user_id`.
    SubtractStorageUsed { user_id: u128, amount: i64 },
    /// The files of `owner_id` in `folder_id` (the root when `None`), by name.
    ListFiles { owner_id: u128, folder_id: Option<u128> },
    /// The file `id` if `owner_id` owns it.
    FindFile { id: u128, owner_id: u128 },
    /// Read the stored file at `path`.
    ReadStoredFile { path: String },
    /// Remove the stored file at `path`.
    RemoveStoredFile { path: String },
    /// `DELETE FROM files WHERE id = $id`.
    DeleteFileRecord { id: u128 },
    /// Rename the file `id` of `owner_id`, returning the updated row if any.
    RenameFile { name: String, id: u128, owner_id: u128 },
    /// Move the file `id` of `owner_id` into `folder_id`, returning the updated row if any.
    MoveFile { folder_id: Option<u128>, id: u128, owner_id: u128 },
    /// The folder `id` if `owner_id` owns it.
    FindFolder { id: u128, owner_id: u128 },
    /// Insert a row into `folders`, returning it.
    InsertFolder { name: String, parent_id: Option<u128>, owner_id: u128 },
    /// The folders of `owner_id` in `parent_id` (the root when `None`), by name.
    ListFolders { owner_id: u128, parent_id: Option<u128> },
    /// Rename the folder `id` of `owner_id`, returning the updated row if any.
    RenameFolder { name: String, id: u128, owner_id: u128 },
    /// `DELETE FROM folders WHERE id = $id AND owner_id = $owner_id`.
    DeleteFolder { id: u128, owner_id: u128 },
}

/// How an action went. `Err(())` stands for any failure of the operation.
#[derive(Debug, PartialEq, Eq)]
pub enum Event {
    /// The request has arrived; no action has been performed yet.
    Begin,
    /// Outcome of `NextField`: a field, or `None` when the body has no more.
    Field(Result<Option<FieldMeta>, ()>),
    /// Outcome of `ReadFieldBytes`.
    FieldBytes(Result<Vec<u8>, ()>),
    /// Outcome of `FetchUser`.
    User(Result<UserStorage, ()>),
    /// Outcome of `CreateDirAll`, `WriteNewFile` or `RemoveStoredFile`.
    Stored(Result<(), ()>),
    /// Outcome of `ReadStoredFile`.
    StoredBytes(Result<Vec<u8>, ()>),
    /// Outcome of a query for at most one file.
    FileRow(Result<Option<FileRecord>, ()>),
    /// Outcome of `InsertFile`.
    FileInserted(Result<FileRecord, ()>),
    /// Outcome of `ListFiles`.
    FileRows(Result<Vec<FileRecord>, ()>),
    /// Outcome of a query for at most one folder.
    FolderRow(Result<Option<Folder>, ()>),
    /// Outcome of `InsertFolder`.
    FolderInserted(Result<Folder, ()>),
    /// Outcome of `ListFolders`.
    FolderRows(Result<Vec<Folder>, ()>),
    /// Outcome of a statement that returns no rows: the rows it affected.
    Executed(Result<u64, ()>),
}

/// The reply that ends a request.
#[derive(Debug, Clone, PartialEq, Eq)]
pub enum Reply {
    /// A bare status.
    Status(Status),
    /// 201 with the new file record.
    CreatedFile(FileRecord),
    /// 200 with a file record.
    File(FileRecord),
    /// 200 with file records.
    Files(Vec<FileRecord>),
    /// 200 with the stored bytes and their headers.
    Download { content_type: String, content_disposition: String, body: Vec<u8> },
    /// 201 with the new folder.
    CreatedFolder(Folder),
    /// 200 with a folder.
    Folder(Folder),
    /// 200 with folders.
    Folders(Vec<Folder>),
}

/// What a handler does next: perform an action, or reply and end.
#[derive(Debug, Clone, PartialEq, Eq)]
pub enum Step {
    Perform(Action),
    Reply(Reply),
}

/// The status a reply is sent with.
pub open spec fn reply_status(r: Reply) -> Status {
    match r {
        Reply::Status(s) => s,
        Reply::CreatedFile(_) => Status::Created,
        Reply::CreatedFolder(_) => Status::Created,
        _ => Status::Success,
    }
}

impl Reply {
    /// The status this reply is sent with.
    pub fn status(&self) -> (s: Status)
        ensures
            s == reply_status(*self),
    {
        match self {
            Reply::Status(s) => *s,
            Reply::CreatedFile(_) => Status::Created,
            Reply::CreatedFolder(_) => Status::Created,
            _ => Status::Success,
        }
    }
}

/// The user an action is scoped to, for the actions that name one.
pub open spec fn action_user(a: Action) -> Option<u128> {
    match a {
        Action::FetchUser { user_id } => Some(user_id),
        Action::InsertFile { file } => Some(file.owner_id),
        Action::AddStorageUsed { user_id, .. } => Some(user_id),
        Action::SubtractStorageUsed { user_id, .. } => Some(user_id),
        Action::ListFiles { owner_id, .. } => Some(owner_id),
        Action::FindFile { owner_id, .. } => Some(owner_id),
        Action::RenameFile { owner_id, .. } => Some(owner_id),
        Action::MoveFile { owner_id, .. } => Some(owner_id),
        Action::FindFolder { owner_id, .. } => Some(owner_id),
        Action::InsertFolder { owner_id, .. } => Some(owner_id),
        Action::ListFolders { owner_id, .. } => Some(owner_id),
        Action::RenameFolder { owner_id, .. } => Some(owner_id),
        Action::DeleteFolder { owner_id, .. } => Some(owner_id),
        _ => None,
    }
}

/// A step acts only for `user`: every action that names a user names `user`.
pub open spec fn scoped_to(s: Step, user: u128) -> bool {
    s matches Step::Perform(a) ==> (action_user(a) matches Some(u) ==> u == user)
}

/// Each status is sent with its HTTP code, and each reply with its status:
/// 201 for created files and folders, 200 for other data, the status itself
/// for a bare status.
pub proof fn statuses_are_their_http_codes()
    ensures
        status_code(Status::Success) == 200,
        status_code(Status::Created) == 201,
        status_code(Status::NoContent) == 204,
        status_code(Status::BadRequest) == 400,
        status_code(Status::NotFound) == 404,
        status_code(Status::Conflict) == 409,
        status_code(Status::PayloadTooLarge) == 413,
        status_code(Status::InternalServerError) == 500,
        forall|a: Status, b: Status| status_code(a) == status_code(b) ==> a == b,
        forall|s: Status| #[trigger] reply_status(Reply::Status(s)) == s,
        forall|r: FileRecord| #[trigger] reply_status(Reply::CreatedFile(r)) == Status::Created,
        forall|g: Folder| #[trigger] reply_status(Reply::CreatedFolder(g)) == Status::Created,
        forall|r: FileRecord| #[trigger] reply_status(Reply::File(r)) == Status::Success,
        forall|v: Vec<FileRecord>| #[trigger] reply_status(Reply::Files(v)) == Status::Success,
        forall|g: Folder| #[trigger] reply_status(Reply::Folder(g)) == Status::Success,
        forall|v: Vec<Folder>| #[trigger] reply_status(Reply::Folders(v)) == Status::Success,
        forall|t: String, d: String, b: Vec<u8>|
            #[trigger] reply_status(Reply::Download { content_type: t, content_disposition: d, body: b })
                == Status::Success,
{
}

} // verus!
