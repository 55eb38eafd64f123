//! File handlers: upload, list, download, delete, rename and move the
//! caller's files.

use vstd::prelude::*;
use vstd::string::*;
use crate::handlers::{internal_error, QueryStage};
use crate::models::FileRecord;
use crate::outside::{hex_encode, new_uuid, sha256, sha256_digest};
use crate::protocol::{Action, Event, NewFile, Reply, Status, Step};
use crate::text::{is_v4_uuid, attachment_header, content_disposition, file_path_in, hex_lower, stored_file_path, user_dir, user_directory};

verus! {

/// The reply to a query for one of the caller's files.
pub open spec fn file_reply(e: Event) -> Step {
    match e {
        Event::FileRow(Ok(Some(record))) => Step::Reply(Reply::File(record)),
        Event::FileRow(Ok(None)) => Step::Reply(Reply::Status(Status::NotFound)),
        _ => internal_error(),
    }
}

fn reply_with_file(e: Event) -> (s: Step)
    ensures
        s == file_reply(e),
{
    match e {
        Event::FileRow(Ok(Some(record))) => Step::Reply(Reply::File(record)),
        Event::FileRow(Ok(None)) => Step::Reply(Reply::Status(Status::NotFound)),
        _ => Step::Reply(Reply::Status(Status::InternalServerError)),
    }
}

/// `Some` text as it is, `None` as the default.
pub open spec fn text_or(t: Option<String>, default: Seq<char>) -> Seq<char> {
    match t {
        Some(s) => s@,
        None => default,
    }
}

// ---------------------------------------------------------------- upload

/// How far an upload has got.
#[derive(Debug, PartialEq, Eq)]
pub enum UploadStage {
    Start,
    /// The first multipart field is awaited.
    AwaitingField,
    /// The bytes of the field are awaited.
    AwaitingBytes { original_name: String, mime_type: String },
    /// The uploader's storage accounting is awaited.
    AwaitingUser { original_name: String, mime_type: String, data: Vec<u8> },
    /// The owner's directory is being created.
    MakingDir { file: NewFile, data: Vec<u8> },
    /// The bytes are being written to `file.storage_path`.
    Writing { file: NewFile },
    /// The record is being inserted; `size` bytes are to be charged.
    Inserting { size: i64 },
    /// The uploader is being charged for `record`.
    Charging { record: FileRecord },
    Done,
}

/// An upload by `user_id` into `folder_id` (the root when `None`), with the
/// files kept under `upload_dir`.
#[derive(Debug, PartialEq, Eq)]
pub struct UploadFlow {
    pub user_id: u128,
    pub folder_id: Option<u128>,
    pub upload_dir: String,
    pub stage: UploadStage,
}

/// The row an upload inserts for the bytes `data`: a new version-4 id,
/// named after the field, owned by the uploader, in the requested folder, of
/// the size of `data`, with the 64-digit hexadecimal SHA-256 of `data`,
/// stored at the path of its id under the uploader's directory.
pub open spec fn is_new_file_for(
    f: UploadFlow,
    file: NewFile,
    original_name: String,
    mime_type: String,
    data: Vec<u8>,
) -> bool {
    &&& file.name == original_name
    &&& file.original_name == original_name
    &&& file.mime_type == mime_type
    &&& file.size == data@.len() as i64
    &&& is_v4_uuid(file.id)
    &&& file.sha256_hash@ == hex_lower(sha256(data@))
    &&& file.sha256_hash@.len() == 64
    &&& file.folder_id == f.folder_id
    &&& file.owner_id == f.user_id
    &&& file.storage_path@ == stored_file_path(f.upload_dir@, f.user_id, file.id)
}

/// What holds of an upload at every stage.
pub open spec fn upload_wf(f: UploadFlow) -> bool {
    match f.stage {
        UploadStage::MakingDir { file, data } => is_new_file_for(
            f,
            file,
            file.original_name,
            file.mime_type,
            data,
        ),
        UploadStage::Writing { file } => {
            &&& is_v4_uuid(file.id)
            &&& file.sha256_hash@.len() == 64
            &&& file.folder_id == f.folder_id
            &&& file.owner_id == f.user_id
            &&& file.storage_path@ == stored_file_path(f.upload_dir@, f.user_id, file.id)
        },
        _ => true,
    }
}

/// The quota check of an upload adds the stored bytes to the bytes in use
/// in 64-bit arithmetic; it is meant for the inputs on which that sum fits.
pub open spec fn upload_sum_fits(f: UploadFlow, e: Event) -> bool {
    match (f.stage, e) {
        (UploadStage::AwaitingUser { data, .. }, Event::User(Ok(user))) => i64::MIN
            <= user.storage_used + (data@.len() as i64) <= i64::MAX,
        _ => true,
    }
}

/// The flow `g` has ended with the reply `status`.
pub open spec fn upload_ends(f: UploadFlow, g: UploadFlow, s: Step, status: Status) -> bool {
    g == (UploadFlow { stage: UploadStage::Done, ..f }) && s == Step::Reply(Reply::Status(status))
}

/// One step of an upload: the first field of the multipart body is the
/// file; it is refused when it would take the uploader beyond the storage
/// limit; otherwise it is written under the uploader's directory, recorded,
/// and charged to the uploader.
pub open spec fn upload_next(f: UploadFlow, e: Event, g: UploadFlow, s: Step) -> bool {
    &&& g.user_id == f.user_id
    &&& g.folder_id == f.folder_id
    &&& g.upload_dir == f.upload_dir
    &&& match f.stage {
        UploadStage::Start => g.stage == UploadStage::AwaitingField && s == Step::Perform(
            Action::NextField,
        ),
        UploadStage::AwaitingField => match e {
            Event::Field(Ok(Some(meta))) => {
                &&& s == Step::Perform(Action::ReadFieldBytes)
                &&& g.stage matches UploadStage::AwaitingBytes { original_name, mime_type }
                &&& original_name@ == text_or(meta.file_name, "unnamed"@)
                &&& mime_type@ == text_or(meta.content_type, "application/octet-stream"@)
            },
            Event::Field(_) => upload_ends(f, g, s, Status::BadRequest),
            _ => upload_ends(f, g, s, Status::InternalServerError),
        },
        UploadStage::AwaitingBytes { original_name, mime_type } => match e {
            Event::FieldBytes(Ok(data)) => {
                &&& g.stage == UploadStage::AwaitingUser { original_name, mime_type, data }
                &&& s == Step::Perform(Action::FetchUser { user_id: f.user_id })
            },
            Event::FieldBytes(Err(_)) => upload_ends(f, g, s, Status::BadRequest),
            _ => upload_ends(f, g, s, Status::InternalServerError),
        },
        UploadStage::AwaitingUser { original_name, mime_type, data } => match e {
            Event::User(Ok(user)) => if user.storage_used + (data@.len() as i64) > user.storage_limit {
                upload_ends(f, g, s, Status::PayloadTooLarge)
            } else {
                &&& g.stage matches UploadStage::MakingDir { file, data: kept }
                &&& kept == data
                &&& is_new_file_for(f, file, original_name, mime_type, data)
                &&& s matches Step::Perform(Action::CreateDirAll { path })
                &&& path@ == user_dir(f.upload_dir@, f.user_id)
            },
            _ => upload_ends(f, g, s, Status::InternalServerError),
        },
        UploadStage::MakingDir { file, data } => match e {
            Event::Stored(Ok(_)) => {
                &&& g.stage == UploadStage::Writing { file }
                &&& s == Step::Perform(Action::WriteNewFile { path: file.storage_path, data })
            },
            _ => upload_ends(f, g, s, Status::InternalServerError),
        },
        UploadStage::Writing { file } => match e {
            Event::Stored(Ok(_)) => {
                &&& g.stage == UploadStage::Inserting { size: file.size }
                &&& s == Step::Perform(Action::InsertFile { file })
            },
            _ => upload_ends(f, g, s, Status::InternalServerError),
        },
        UploadStage::Inserting { size } => match e {
            Event::FileInserted(Ok(record)) => {
                &&& g.stage == UploadStage::Charging { record }
                &&& s == Step::Perform(Action::AddStorageUsed { user_id: f.user_id, amount: size })
            },
            _ => upload_ends(f, g, s, Status::InternalServerError),
        },
        UploadStage::Charging { record } => match e {
            Event::Executed(Ok(_)) => {
                &&& g.stage == UploadStage::Done
                &&& s == Step::Reply(Reply::CreatedFile(record))
            },
            _ => upload_ends(f, g, s, Status::InternalServerError),
        },
        UploadStage::Done => upload_ends(f, g, s, Status::InternalServerError),
    }
}

impl UploadFlow {
    pub fn new(user_id: u128, folder_id: Option<u128>, upload_dir: String) -> (f: Self)
        ensures
            f == (UploadFlow { user_id, folder_id, upload_dir, stage: UploadStage::Start }),
            upload_wf(f),
    {
        UploadFlow { user_id, folder_id, upload_dir, stage: UploadStage::Start }
    }
}

/// The row an upload inserts for a file of `size` bytes whose SHA-256
/// digest is `digest`, under the new id `id`, and the directory to create
/// for it: the uploader's directory under `upload_dir`.
pub fn new_file_row(
    user_id: u128,
    folder_id: Option<u128>,
    upload_dir: &str,
    original_name: String,
    mime_type: String,
    size: i64,
    digest: &[u8],
    id: u128,
) -> (res: (NewFile, String))
    ensures
        res.0.id == id,
        res.0.name == original_name,
        res.0.original_name == original_name,
        res.0.mime_type == mime_type,
        res.0.size == size,
        res.0.sha256_hash@ == hex_lower(digest@),
        res.0.sha256_hash@.len() == 2 * digest@.len(),
        res.0.folder_id == folder_id,
        res.0.owner_id == user_id,
        res.0.storage_path@ == stored_file_path(upload_dir@, user_id, id),
        res.1@ == user_dir(upload_dir@, user_id),
{
    let sha256_hash = hex_encode(digest);
    let dir = user_directory(upload_dir, user_id);
    let storage_path = file_path_in(dir.as_str(), id);
    let file = NewFile {
        id,
        name: original_name.clone(),
        original_name,
        mime_type,
        size,
        sha256_hash,
        folder_id,
        owner_id: user_id,
        storage_path,
    };
    (file, dir)
}

fn end_upload(user_id: u128, folder_id: Option<u128>, upload_dir: String, status: Status) -> (res: (
    UploadFlow,
    Step,
))
    ensures
        res.0 == (UploadFlow { user_id, folder_id, upload_dir, stage: UploadStage::Done }),
        res.1 == Step::Reply(Reply::Status(status)),
{
    (UploadFlow { user_id, folder_id, upload_dir, stage: UploadStage::Done }, Step::Reply(Reply::Status(status)))
}

/// Uploads a file.
pub fn upload(flow: UploadFlow, event: Event) -> (res: (UploadFlow, Step))
    requires
        upload_wf(flow),
        upload_sum_fits(flow, event),
    ensures
        upload_next(flow, event, res.0, res.1),
        upload_wf(res.0),
{
    let UploadFlow { user_id, folder_id, upload_dir, stage } = flow;
    match stage {
        UploadStage::Start => {
            let g = UploadFlow { user_id, folder_id, upload_dir, stage: UploadStage::AwaitingField };
            (g, Step::Perform(Action::NextField))
        },
        UploadStage::AwaitingField => match event {
            Event::Field(Ok(Some(meta))) => {
                let original_name = match meta.file_name {
                    Some(n) => n,
                    None => String::from_str("unnamed"),
                };
                let mime_type = match meta.content_type {
                    Some(t) => t,
                    None => String::from_str("application/octet-stream"),
                };
                let g = UploadFlow {
                    user_id,
                    folder_id,
                    upload_dir,
                    stage: UploadStage::AwaitingBytes { original_name, mime_type },
                };
                (g, Step::Perform(Action::ReadFieldBytes))
            },
            Event::Field(_) => end_upload(user_id, folder_id, upload_dir, Status::BadRequest),
            _ => end_upload(user_id, folder_id, upload_dir, Status::InternalServerError),
        },
        UploadStage::AwaitingBytes { original_name, mime_type } => match event {
            Event::FieldBytes(Ok(data)) => {
                let g = UploadFlow {
                    user_id,
                    folder_id,
                    upload_dir,
                    stage: UploadStage::AwaitingUser { original_name, mime_type, data },
                };
                (g, Step::Perform(Action::FetchUser { user_id }))
            },
            Event::FieldBytes(Err(_)) => end_upload(user_id, folder_id, upload_dir, Status::BadRequest),
            _ => end_upload(user_id, folder_id, upload_dir, Status::InternalServerError),
        },
        UploadStage::AwaitingUser { original_name, mime_type, data } => match event {
            Event::User(Ok(user)) => {
                let size = data.len() as i64;
                if user.storage_used + size > user.storage_limit {
                    return end_upload(user_id, folder_id, upload_dir, Status::PayloadTooLarge);
                }
                let digest = sha256_digest(data.as_slice());
                let id = new_uuid();
                let (file, dir) = new_file_row(
                    user_id,
                    folder_id,
                    upload_dir.as_str(),
                    original_name,
                    mime_type,
                    size,
                    digest.as_slice(),
                    id,
                );
                let g = UploadFlow { user_id, folder_id, upload_dir, stage: UploadStage::MakingDir { file, data } };
                (g, Step::Perform(Action::CreateDirAll { path: dir }))
            },
            _ => end_upload(user_id, folder_id, upload_dir, Status::InternalServerError),
        },
        UploadStage::MakingDir { file, data } => match event {
            Event::Stored(Ok(_)) => {
                let path = file.storage_path.clone();
                let g = UploadFlow { user_id, folder_id, upload_dir, stage: UploadStage::Writing { file } };
                (g, Step::Perform(Action::WriteNewFile { path, data }))
            },
            _ => end_upload(user_id, folder_id, upload_dir, Status::InternalServerError),
        },
        UploadStage::Writing { file } => match event {
            Event::Stored(Ok(_)) => {
                let size = file.size;
                let g = UploadFlow { user_id, folder_id, upload_dir, stage: UploadStage::Inserting { size } };
                (g, Step::Perform(Action::InsertFile { file }))
            },
            _ => end_upload(user_id, folder_id, upload_dir, Status::InternalServerError),
        },
        UploadStage::Inserting { size } => match event {
            Event::FileInserted(Ok(record)) => {
                let g = UploadFlow { user_id, folder_id, upload_dir, stage: UploadStage::Charging { record } };
                (g, Step::Perform(Action::AddStorageUsed { user_id, amount: size }))
            },
            _ => end_upload(user_id, folder_id, upload_dir, Status::InternalServerError),
        },
        UploadStage::Charging { record } => match event {
            Event::Executed(Ok(_)) => {
                let g = UploadFlow { user_id, folder_id, upload_dir, stage: UploadStage::Done };
                (g, Step::Reply(Reply::CreatedFile(record)))
            },
            _ => end_upload(user_id, folder_id, upload_dir, Status::InternalServerError),
        },
        UploadStage::Done => end_upload(user_id, folder_id, upload_dir, Status::InternalServerError),
    }
}

// ---------------------------------------------------------------- list

/// A request for the files of `user_id` in `folder_id` (the root when
/// `None`).
#[derive(Debug, Clone, PartialEq, Eq)]
pub struct ListFilesFlow {
    pub user_id: u128,
    pub folder_id: Option<u128>,
    pub stage: QueryStage,
}

impl ListFilesFlow {
    pub fn new(user_id: u128, folder_id: Option<u128>) -> (f: Self)
        ensures
            f == (ListFilesFlow { user_id, folder_id, stage: QueryStage::Start }),
    {
        ListFilesFlow { user_id, folder_id, stage: QueryStage::Start }
    }
}

/// One step of a file listing.
pub open spec fn list_step(f: ListFilesFlow, e: Event) -> (ListFilesFlow, Step) {
    match f.stage {
        QueryStage::Start => (
            ListFilesFlow { stage: QueryStage::Awaiting, ..f },
            Step::Perform(Action::ListFiles { owner_id: f.user_id, folder_id: f.folder_id }),
        ),
        QueryStage::Awaiting => (
            ListFilesFlow { stage: QueryStage::Done, ..f },
            match e {
                Event::FileRows(Ok(files)) => Step::Reply(Reply::Files(files)),
                _ => internal_error(),
            },
        ),
        QueryStage::Done => (f, internal_error()),
    }
}

/// Lists files.
pub fn list(flow: ListFilesFlow, event: Event) -> (res: (ListFilesFlow, Step))
    ensures
        res == list_step(flow, event),
{
    let mut flow = flow;
    match flow.stage {
        QueryStage::Start => {
            flow.stage = QueryStage::Awaiting;
            let action = Action::ListFiles { owner_id: flow.user_id, folder_id: flow.folder_id };
            (flow, Step::Perform(action))
        },
        QueryStage::Awaiting => {
            flow.stage = QueryStage::Done;
            match event {
                Event::FileRows(Ok(files)) => (flow, Step::Reply(Reply::Files(files))),
                _ => (flow, Step::Reply(Reply::Status(Status::InternalServerError))),
            }
        },
        QueryStage::Done => (flow, Step::Reply(Reply::Status(Status::InternalServerError))),
    }
}

// ---------------------------------------------------------------- download

/// How far a download has got.
#[derive(Debug, Clone, PartialEq, Eq)]
pub enum DownloadStage {
    Start,
    /// The record is being looked up among the caller's files.
    Looking,
    /// The stored bytes are being read.
    Reading { mime_type: String, original_name: String },
    Done,
}

/// A request by `user_id` for the bytes of the file `file_id`.
#[derive(Debug, Clone, PartialEq, Eq)]
pub struct DownloadFlow {
    pub user_id: u128,
    pub file_id: u128,
    pub stage: DownloadStage,
}

impl DownloadFlow {
    pub fn new(user_id: u128, file_id: u128) -> (f: Self)
        ensures
            f == (DownloadFlow { user_id, file_id, stage: DownloadStage::Start }),
    {
        DownloadFlow { user_id, file_id, stage: DownloadStage::Start }
    }
}

/// One step of a download: the bytes are sent with the recorded type, as
/// an attachment under the name the file was uploaded with.
pub open spec fn download_next(f: DownloadFlow, e: Event, g: DownloadFlow, s: Step) -> bool {
    &&& g.user_id == f.user_id
    &&& g.file_id == f.file_id
    &&& match f.stage {
        DownloadStage::Start => {
            &&& g.stage == DownloadStage::Looking
            &&& s == Step::Perform(Action::FindFile { id: f.file_id, owner_id: f.user_id })
        },
        DownloadStage::Looking => match e {
            Event::FileRow(Ok(Some(record))) => {
                &&& g.stage == DownloadStage::Reading {
                    mime_type: record.mime_type,
                    original_name: record.original_name,
                }
                &&& s == Step::Perform(Action::ReadStoredFile { path: record.storage_path })
            },
            Event::FileRow(Ok(None)) => g.stage == DownloadStage::Done && s == Step::Reply(
                Reply::Status(Status::NotFound),
            ),
            _ => g.stage == DownloadStage::Done && s == internal_error(),
        },
        DownloadStage::Reading { mime_type, original_name } => match e {
            Event::StoredBytes(Ok(bytes)) => {
                &&& g.stage == DownloadStage::Done
                &&& s matches Step::Reply(Reply::Download { content_type, content_disposition, body })
                &&& content_type == mime_type
                &&& content_disposition@ == attachment_header(original_name@)
                &&& body == bytes
            },
            _ => g.stage == DownloadStage::Done && s == internal_error(),
        },
        DownloadStage::Done => g.stage == DownloadStage::Done && s == internal_error(),
    }
}

/// Downloads a file.
pub fn download(flow: DownloadFlow, event: Event) -> (res: (DownloadFlow, Step))
    ensures
        download_next(flow, event, res.0, res.1),
{
    let DownloadFlow { user_id, file_id, stage } = flow;
    let done = DownloadFlow { user_id, file_id, stage: DownloadStage::Done };
    match stage {
        DownloadStage::Start => (
            DownloadFlow { user_id, file_id, stage: DownloadStage::Looking },
            Step::Perform(Action::FindFile { id: file_id, owner_id: user_id }),
        ),
        DownloadStage::Looking => match event {
            Event::FileRow(Ok(Some(record))) => {
                let g = DownloadFlow {
                    user_id,
                    file_id,
                    stage: DownloadStage::Reading {
                        mime_type: record.mime_type,
                        original_name: record.original_name,
                    },
                };
                (g, Step::Perform(Action::ReadStoredFile { path: record.storage_path }))
            },
            Event::FileRow(Ok(None)) => (done, Step::Reply(Reply::Status(Status::NotFound))),
            _ => (done, Step::Reply(Reply::Status(Status::InternalServerError))),
        },
        DownloadStage::Reading { mime_type, original_name } => match event {
            Event::StoredBytes(Ok(body)) => {
                let header = content_disposition(original_name.as_str());
                let reply = Reply::Download { content_type: mime_type, content_disposition: header, body };
                (done, Step::Reply(reply))
            },
            _ => (done, Step::Reply(Reply::Status(Status::InternalServerError))),
        },
        DownloadStage::Done => (done, Step::Reply(Reply::Status(Status::InternalServerError))),
    }
}

// ---------------------------------------------------------------- delete

/// How far a file deletion has got.
#[derive(Debug, Clone, Copy, PartialEq, Eq)]
pub enum DeleteStage {
    Start,
    /// The record is being looked up among the caller's files.
    Looking,
    /// The stored bytes of a file of `size` bytes are being removed.
    Removing { size: i64 },
    /// The record of a file of `size` bytes is being deleted.
    DeletingRecord { size: i64 },
    /// The owner is being credited.
    Crediting,
    Done,
}

/// A request by `user_id` to delete the file `file_id`.
#[derive(Debug, Clone, Copy, PartialEq, Eq)]
pub struct DeleteFileFlow {
    pub user_id: u128,
    pub file_id: u128,
    pub stage: DeleteStage,
}

impl DeleteFileFlow {
    pub fn new(user_id: u128, file_id: u128) -> (f: Self)
        ensures
            f == (DeleteFileFlow { user_id, file_id, stage: DeleteStage::Start }),
    {
        DeleteFileFlow { user_id, file_id, stage: DeleteStage::Start }
    }
}

/// One step of a file deletion: only a file found among the caller's is
/// deleted; the outcome of removing its stored bytes is ignored; the record
/// goes, then its size is credited back to the caller.
pub open spec fn delete_step(f: DeleteFileFlow, e: Event) -> (DeleteFileFlow, Step) {
    let done = DeleteFileFlow { stage: DeleteStage::Done, ..f };
    match f.stage {
        DeleteStage::Start => (
            DeleteFileFlow { stage: DeleteStage::Looking, ..f },
            Step::Perform(Action::FindFile { id: f.file_id, owner_id: f.user_id }),
        ),
        DeleteStage::Looking => match e {
            Event::FileRow(Ok(Some(record))) => (
                DeleteFileFlow { stage: DeleteStage::Removing { size: record.size }, ..f },
                Step::Perform(Action::RemoveStoredFile { path: record.storage_path }),
            ),
            Event::FileRow(Ok(None)) => (done, Step::Reply(Reply::Status(Status::NotFound))),
            _ => (done, internal_error()),
        },
        DeleteStage::Removing { size } => (
            DeleteFileFlow { stage: DeleteStage::DeletingRecord { size }, ..f },
            Step::Perform(Action::DeleteFileRecord { id: f.file_id }),
        ),
        DeleteStage::DeletingRecord { size } => match e {
            Event::Executed(Ok(_)) => (
                DeleteFileFlow { stage: DeleteStage::Crediting, ..f },
                Step::Perform(Action::SubtractStorageUsed { user_id: f.user_id, amount: size }),
            ),
            _ => (done, internal_error()),
        },
        DeleteStage::Crediting => match e {
            Event::Executed(Ok(_)) => (done, Step::Reply(Reply::Status(Status::NoContent))),
            _ => (done, internal_error()),
        },
        DeleteStage::Done => (done, internal_error()),
    }
}

/// Deletes a file.
pub fn delete(flow: DeleteFileFlow, event: Event) -> (res: (DeleteFileFlow, Step))
    ensures
        res == delete_step(flow, event),
{
    let mut flow = flow;
    let stage = flow.stage;
    flow.stage = DeleteStage::Done;
    match stage {
        DeleteStage::Start => {
            flow.stage = DeleteStage::Looking;
            let action = Action::FindFile { id: flow.file_id, owner_id: flow.user_id };
            (flow, Step::Perform(action))
        },
        DeleteStage::Looking => match event {
            Event::FileRow(Ok(Some(record))) => {
                flow.stage = DeleteStage::Removing { size: record.size };
                (flow, Step::Perform(Action::RemoveStoredFile { path: record.storage_path }))
            },
            Event::FileRow(Ok(None)) => (flow, Step::Reply(Reply::Status(Status::NotFound))),
            _ => (flow, Step::Reply(Reply::Status(Status::InternalServerError))),
        },
        DeleteStage::Removing { size } => {
            flow.stage = DeleteStage::DeletingRecord { size };
            let action = Action::DeleteFileRecord { id: flow.file_id };
            (flow, Step::Perform(action))
        },
        DeleteStage::DeletingRecord { size } => match event {
            Event::Executed(Ok(_)) => {
                flow.stage = DeleteStage::Crediting;
                let action = Action::SubtractStorageUsed { user_id: flow.user_id, amount: size };
                (flow, Step::Perform(action))
            },
            _ => (flow, Step::Reply(Reply::Status(Status::InternalServerError))),
        },
        DeleteStage::Crediting => match event {
            Event::Executed(Ok(_)) => (flow, Step::Reply(Reply::Status(Status::NoContent))),
            _ => (flow, Step::Reply(Reply::Status(Status::InternalServerError))),
        },
        DeleteStage::Done => (flow, Step::Reply(Reply::Status(Status::InternalServerError))),
    }
}

// ---------------------------------------------------------------- rename

/// A request by `user_id` to rename the file `file_id` to `name`.
#[derive(Debug, Clone, PartialEq, Eq)]
pub struct RenameFileFlow {
    pub user_id: u128,
    pub file_id: u128,
    pub name: String,
    pub stage: QueryStage,
}

impl RenameFileFlow {
    pub fn new(user_id: u128, file_id: u128, name: String) -> (f: Self)
        ensures
            f == (RenameFileFlow { user_id, file_id, name, stage: QueryStage::Start }),
    {
        RenameFileFlow { user_id, file_id, name, stage: QueryStage::Start }
    }
}

/// One step of a file rename.
pub open spec fn rename_step(f: RenameFileFlow, e: Event) -> (RenameFileFlow, Step) {
    match f.stage {
        QueryStage::Start => (
            RenameFileFlow { stage: QueryStage::Awaiting, ..f },
            Step::Perform(Action::RenameFile { name: f.name, id: f.file_id, owner_id: f.user_id }),
        ),
        QueryStage::Awaiting => (RenameFileFlow { stage: QueryStage::Done, ..f }, file_reply(e)),
        QueryStage::Done => (f, internal_error()),
    }
}

/// Renames a file.
pub fn rename(flow: RenameFileFlow, event: Event) -> (res: (RenameFileFlow, Step))
    ensures
        res == rename_step(flow, event),
{
    let mut flow = flow;
    match flow.stage {
        QueryStage::Start => {
            flow.stage = QueryStage::Awaiting;
            let action = Action::RenameFile {
                name: flow.name.clone(),
                id: flow.file_id,
                owner_id: flow.user_id,
            };
            (flow, Step::Perform(action))
        },
        QueryStage::Awaiting => {
            flow.stage = QueryStage::Done;
            (flow, reply_with_file(event))
        },
        QueryStage::Done => (flow, Step::Reply(Reply::Status(Status::InternalServerError))),
    }
}

// ---------------------------------------------------------------- move

/// A request by `user_id` to move the file `file_id` into `folder_id` (the
/// root when `None`).
#[derive(Debug, Clone, PartialEq, Eq)]
pub struct MoveFileFlow {
    pub user_id: u128,
    pub file_id: u128,
    pub folder_id: Option<u128>,
    pub stage: QueryStage,
}

impl MoveFileFlow {
    pub fn new(user_id: u128, file_id: u128, folder_id: Option<u128>) -> (f: Self)
        ensures
            f == (MoveFileFlow { user_id, file_id, folder_id, stage: QueryStage::Start }),
    {
        MoveFileFlow { user_id, file_id, folder_id, stage: QueryStage::Start }
    }
}

/// One step of a file move.
pub open spec fn move_step(f: MoveFileFlow, e: Event) -> (MoveFileFlow, Step) {
    match f.stage {
        QueryStage::Start => (
            MoveFileFlow { stage: QueryStage::Awaiting, ..f },
            Step::Perform(Action::MoveFile { folder_id: f.folder_id, id: f.file_id, owner_id: f.user_id }),
        ),
        QueryStage::Awaiting => (MoveFileFlow { stage: QueryStage::Done, ..f }, file_reply(e)),
        QueryStage::Done => (f, internal_error()),
    }
}

/// Moves a file to another folder.
pub fn move_file(flow: MoveFileFlow, event: Event) -> (res: (MoveFileFlow, Step))
    ensures
        res == move_step(flow, event),
{
    let mut flow = flow;
    match flow.stage {
        QueryStage::Start => {
            flow.stage = QueryStage::Awaiting;
            let action = Action::MoveFile { folder_id: flow.folder_id, id: flow.file_id, owner_id: flow.user_id };
            (flow, Step::Perform(action))
        },
        QueryStage::Awaiting => {
            flow.stage = QueryStage::Done;
            (flow, reply_with_file(event))
        },
        QueryStage::Done => (flow, Step::Reply(Reply::Status(Status::InternalServerError))),
    }
}

} // verus!
