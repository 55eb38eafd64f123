use backend::handlers::files::{
    delete, download, list, move_file, rename, upload, DeleteFileFlow, DownloadFlow, ListFilesFlow, MoveFileFlow,
    RenameFileFlow, UploadFlow,
};
use backend::models::{FileRecord, UserStorage};
use backend::protocol::{Action, Event, FieldMeta, NewFile, Reply, Status, Step};

const USER: u128 = 0x0123_4567_89ab_cdef_0123_4567_89ab_cdef;
const FILE: u128 = 0xfedc_ba98_7654_3210_fedc_ba98_7654_3210;

fn record(size: i64) -> FileRecord {
    FileRecord {
        id: FILE,
        name: "notes.txt".to_string(),
        original_name: "notes.txt".to_string(),
        mime_type: "text/plain".to_string(),
        size,
        sha256_hash: "00".to_string(),
        folder_id: None,
        owner_id: USER,
        storage_path: "up/x/y".to_string(),
        created_at: 1_700_000_000_000_000,
        updated_at: 1_700_000_000_000_000,
    }
}

fn uuid_text(v: u128) -> String {
    let h = format!("{:032x}", v);
    format!("{}-{}-{}-{}-{}", &h[0..8], &h[8..12], &h[12..16], &h[16..20], &h[20..32])
}

/// Feeds the events to an upload and returns every step it took.
fn run_upload(mut flow: UploadFlow, events: Vec<Event>) -> Vec<Step> {
    let mut steps = Vec::new();
    for e in events {
        let (g, s) = upload(flow, e);
        flow = g;
        steps.push(s);
    }
    steps
}

fn field(name: Option<&str>, ty: Option<&str>) -> Event {
    Event::Field(Ok(Some(FieldMeta {
        file_name: name.map(|s| s.to_string()),
        content_type: ty.map(|s| s.to_string()),
    })))
}

#[test]
fn upload_success_writes_records_and_charges() {
    let flow = UploadFlow::new(USER, Some(7), "up".to_string());
    let steps = run_upload(
        flow,
        vec![
            Event::Begin,
            field(Some("hello.txt"), Some("text/plain")),
            Event::FieldBytes(Ok(b"abc".to_vec())),
            Event::User(Ok(UserStorage { storage_used: 10, storage_limit: 13 })),
            Event::Stored(Ok(())),
            Event::Stored(Ok(())),
            Event::FileInserted(Ok(record(3))),
            Event::Executed(Ok(1)),
        ],
    );
    assert_eq!(steps[0], Step::Perform(Action::NextField));
    assert_eq!(steps[1], Step::Perform(Action::ReadFieldBytes));
    assert_eq!(steps[2], Step::Perform(Action::FetchUser { user_id: USER }));
    let dir = format!("up/{}", uuid_text(USER));
    assert_eq!(steps[3], Step::Perform(Action::CreateDirAll { path: dir.clone() }));
    let file: NewFile = match &steps[5] {
        Step::Perform(Action::InsertFile { file }) => file.clone(),
        other => panic!("unexpected step {:?}", other),
    };
    let path = format!("{}/{}", dir, uuid_text(file.id));
    assert_eq!(steps[4], Step::Perform(Action::WriteNewFile { path: path.clone(), data: b"abc".to_vec() }));
    assert_eq!(file.name, "hello.txt");
    assert_eq!(file.original_name, "hello.txt");
    assert_eq!(file.mime_type, "text/plain");
    assert_eq!(file.size, 3);
    assert_eq!(file.sha256_hash, "ba7816bf8f01cfea414140de5dae2223b00361a396177a9cb410ff61f20015ad");
    assert_eq!(file.sha256_hash.len(), 64);
    assert_eq!(file.folder_id, Some(7));
    assert_eq!(file.owner_id, USER);
    assert_eq!(file.storage_path, path);
    assert_eq!(steps[6], Step::Perform(Action::AddStorageUsed { user_id: USER, amount: 3 }));
    assert_eq!(steps[7], Step::Reply(Reply::CreatedFile(record(3))));
}

#[test]
fn upload_defaults_name_and_type() {
    let steps = run_upload(
        UploadFlow::new(USER, None, String::new()),
        vec![
            Event::Begin,
            field(None, None),
            Event::FieldBytes(Ok(vec![])),
            Event::User(Ok(UserStorage { storage_used: 0, storage_limit: 0 })),
            Event::Stored(Ok(())),
            Event::Stored(Ok(())),
        ],
    );
    match &steps[5] {
        Step::Perform(Action::InsertFile { file }) => {
            assert_eq!(file.name, "unnamed");
            assert_eq!(file.original_name, "unnamed");
            assert_eq!(file.mime_type, "application/octet-stream");
            assert_eq!(file.size, 0);
            assert_eq!(file.sha256_hash, "e3b0c44298fc1c149afbf4c8996fb92427ae41e4649b934ca495991b7852b855");
            assert_eq!(file.folder_id, None);
            assert_eq!(file.storage_path, format!("{}/{}", uuid_text(USER), uuid_text(file.id)));
        },
        other => panic!("unexpected step {:?}", other),
    }
}

#[test]
fn upload_over_limit_is_refused() {
    let steps = run_upload(
        UploadFlow::new(USER, None, "up".to_string()),
        vec![
            Event::Begin,
            field(Some("big.bin"), None),
            Event::FieldBytes(Ok(vec![0u8; 4])),
            Event::User(Ok(UserStorage { storage_used: 10, storage_limit: 13 })),
            Event::Stored(Ok(())),
        ],
    );
    assert_eq!(steps[3], Step::Reply(Reply::Status(Status::PayloadTooLarge)));
    assert_eq!(steps[4], Step::Reply(Reply::Status(Status::InternalServerError)));
}

#[test]
fn upload_without_field_or_with_bad_body_is_bad_request() {
    let none = run_upload(UploadFlow::new(USER, None, "up".to_string()), vec![Event::Begin, Event::Field(Ok(None))]);
    assert_eq!(none[1], Step::Reply(Reply::Status(Status::BadRequest)));
    let err = run_upload(UploadFlow::new(USER, None, "up".to_string()), vec![Event::Begin, Event::Field(Err(()))]);
    assert_eq!(err[1], Step::Reply(Reply::Status(Status::BadRequest)));
    let bytes = run_upload(
        UploadFlow::new(USER, None, "up".to_string()),
        vec![Event::Begin, field(Some("a"), None), Event::FieldBytes(Err(()))],
    );
    assert_eq!(bytes[2], Step::Reply(Reply::Status(Status::BadRequest)));
}

#[test]
fn upload_failures_after_the_check_are_internal_errors() {
    let prefix = || {
        vec![
            Event::Begin,
            field(Some("a"), None),
            Event::FieldBytes(Ok(vec![1, 2])),
            Event::User(Ok(UserStorage { storage_used: 0, storage_limit: 100 })),
        ]
    };
    let mut user_err = prefix();
    user_err[3] = Event::User(Err(()));
    assert_eq!(run_upload(UploadFlow::new(USER, None, "u".into()), user_err)[3], Step::Reply(Reply::Status(Status::InternalServerError)));
    let mut dir_err = prefix();
    dir_err.push(Event::Stored(Err(())));
    assert_eq!(run_upload(UploadFlow::new(USER, None, "u".into()), dir_err)[4], Step::Reply(Reply::Status(Status::InternalServerError)));
    let mut write_err = prefix();
    write_err.push(Event::Stored(Ok(())));
    write_err.push(Event::Stored(Err(())));
    assert_eq!(run_upload(UploadFlow::new(USER, None, "u".into()), write_err)[5], Step::Reply(Reply::Status(Status::InternalServerError)));
    let mut insert_err = prefix();
    insert_err.extend([Event::Stored(Ok(())), Event::Stored(Ok(())), Event::FileInserted(Err(()))]);
    assert_eq!(run_upload(UploadFlow::new(USER, None, "u".into()), insert_err)[6], Step::Reply(Reply::Status(Status::InternalServerError)));
    let mut charge_err = prefix();
    charge_err.extend([
        Event::Stored(Ok(())),
        Event::Stored(Ok(())),
        Event::FileInserted(Ok(record(2))),
        Event::Executed(Err(())),
    ]);
    assert_eq!(run_upload(UploadFlow::new(USER, None, "u".into()), charge_err)[7], Step::Reply(Reply::Status(Status::InternalServerError)));
}

#[test]
fn upload_ids_differ_between_uploads() {
    let events = || {
        vec![
            Event::Begin,
            field(Some("a"), None),
            Event::FieldBytes(Ok(vec![1])),
            Event::User(Ok(UserStorage { storage_used: 0, storage_limit: 100 })),
            Event::Stored(Ok(())),
            Event::Stored(Ok(())),
        ]
    };
    let id = |steps: Vec<Step>| match &steps[5] {
        Step::Perform(Action::InsertFile { file }) => file.id,
        _ => panic!(),
    };
    let a = id(run_upload(UploadFlow::new(USER, None, "u".into()), events()));
    let b = id(run_upload(UploadFlow::new(USER, None, "u".into()), events()));
    assert_ne!(a, b);
    for v in [a, b] {
        assert_eq!((v >> 76) & 0xf, 4);
        assert_eq!((v >> 62) & 0x3, 2);
    }
}

#[test]
fn list_files_of_folder_and_root() {
    let (f, s) = list(ListFilesFlow::new(USER, Some(9)), Event::Begin);
    assert_eq!(s, Step::Perform(Action::ListFiles { owner_id: USER, folder_id: Some(9) }));
    let (_, s) = list(f, Event::FileRows(Ok(vec![record(1)])));
    assert_eq!(s, Step::Reply(Reply::Files(vec![record(1)])));
    let (f, s) = list(ListFilesFlow::new(USER, None), Event::Begin);
    assert_eq!(s, Step::Perform(Action::ListFiles { owner_id: USER, folder_id: None }));
    let (_, s) = list(f, Event::FileRows(Err(())));
    assert_eq!(s, Step::Reply(Reply::Status(Status::InternalServerError)));
}

#[test]
fn download_sends_bytes_as_attachment() {
    let (f, s) = download(DownloadFlow::new(USER, FILE), Event::Begin);
    assert_eq!(s, Step::Perform(Action::FindFile { id: FILE, owner_id: USER }));
    let (f, s) = download(f, Event::FileRow(Ok(Some(record(3)))));
    assert_eq!(s, Step::Perform(Action::ReadStoredFile { path: "up/x/y".to_string() }));
    let (_, s) = download(f, Event::StoredBytes(Ok(b"abc".to_vec())));
    assert_eq!(
        s,
        Step::Reply(Reply::Download {
            content_type: "text/plain".to_string(),
            content_disposition: "attachment; filename=\"notes.txt\"".to_string(),
            body: b"abc".to_vec(),
        })
    );
}

#[test]
fn download_missing_or_unreadable() {
    let (f, _) = download(DownloadFlow::new(USER, FILE), Event::Begin);
    let (_, s) = download(f.clone(), Event::FileRow(Ok(None)));
    assert_eq!(s, Step::Reply(Reply::Status(Status::NotFound)));
    let (_, s) = download(f.clone(), Event::FileRow(Err(())));
    assert_eq!(s, Step::Reply(Reply::Status(Status::InternalServerError)));
    let (g, _) = download(f, Event::FileRow(Ok(Some(record(3)))));
    let (_, s) = download(g, Event::StoredBytes(Err(())));
    assert_eq!(s, Step::Reply(Reply::Status(Status::InternalServerError)));
}

#[test]
fn delete_removes_record_and_credits_size() {
    let (f, s) = delete(DeleteFileFlow::new(USER, FILE), Event::Begin);
    assert_eq!(s, Step::Perform(Action::FindFile { id: FILE, owner_id: USER }));
    let (f, s) = delete(f, Event::FileRow(Ok(Some(record(42)))));
    assert_eq!(s, Step::Perform(Action::RemoveStoredFile { path: "up/x/y".to_string() }));
    // The outcome of the removal is ignored.
    let (f, s) = delete(f, Event::Stored(Err(())));
    assert_eq!(s, Step::Perform(Action::DeleteFileRecord { id: FILE }));
    let (f, s) = delete(f, Event::Executed(Ok(1)));
    assert_eq!(s, Step::Perform(Action::SubtractStorageUsed { user_id: USER, amount: 42 }));
    let (f, s) = delete(f, Event::Executed(Ok(1)));
    assert_eq!(s, Step::Reply(Reply::Status(Status::NoContent)));
    let (_, s) = delete(f, Event::Begin);
    assert_eq!(s, Step::Reply(Reply::Status(Status::InternalServerError)));
}

#[test]
fn delete_missing_file_is_not_found() {
    let (f, _) = delete(DeleteFileFlow::new(USER, FILE), Event::Begin);
    let (_, s) = delete(f, Event::FileRow(Ok(None)));
    assert_eq!(s, Step::Reply(Reply::Status(Status::NotFound)));
    let (_, s) = delete(f, Event::FileRow(Err(())));
    assert_eq!(s, Step::Reply(Reply::Status(Status::InternalServerError)));
}

#[test]
fn delete_database_failures_are_internal_errors() {
    let (f, _) = delete(DeleteFileFlow::new(USER, FILE), Event::Begin);
    let (f, _) = delete(f, Event::FileRow(Ok(Some(record(5)))));
    let (f, _) = delete(f, Event::Stored(Ok(())));
    let (_, s) = delete(f, Event::Executed(Err(())));
    assert_eq!(s, Step::Reply(Reply::Status(Status::InternalServerError)));
    let (g, _) = delete(f, Event::Executed(Ok(1)));
    let (_, s) = delete(g, Event::Executed(Err(())));
    assert_eq!(s, Step::Reply(Reply::Status(Status::InternalServerError)));
}

#[test]
fn rename_file_scoped_to_owner() {
    let (f, s) = rename(RenameFileFlow::new(USER, FILE, "new.txt".to_string()), Event::Begin);
    assert_eq!(s, Step::Perform(Action::RenameFile { name: "new.txt".to_string(), id: FILE, owner_id: USER }));
    let (_, s) = rename(f.clone(), Event::FileRow(Ok(Some(record(1)))));
    assert_eq!(s, Step::Reply(Reply::File(record(1))));
    let (_, s) = rename(f.clone(), Event::FileRow(Ok(None)));
    assert_eq!(s, Step::Reply(Reply::Status(Status::NotFound)));
    let (_, s) = rename(f, Event::FileRow(Err(())));
    assert_eq!(s, Step::Reply(Reply::Status(Status::InternalServerError)));
}

#[test]
fn move_file_scoped_to_owner() {
    let (f, s) = move_file(MoveFileFlow::new(USER, FILE, Some(3)), Event::Begin);
    assert_eq!(s, Step::Perform(Action::MoveFile { folder_id: Some(3), id: FILE, owner_id: USER }));
    let (_, s) = move_file(f.clone(), Event::FileRow(Ok(Some(record(1)))));
    assert_eq!(s, Step::Reply(Reply::File(record(1))));
    let (_, s) = move_file(f, Event::FileRow(Ok(None)));
    assert_eq!(s, Step::Reply(Reply::Status(Status::NotFound)));
    let (_, s) = move_file(MoveFileFlow::new(USER, FILE, None), Event::Begin);
    assert_eq!(s, Step::Perform(Action::MoveFile { folder_id: None, id: FILE, owner_id: USER }));
}
