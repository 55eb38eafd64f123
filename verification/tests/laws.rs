use backend::handlers::files::{delete, new_file_row, upload, DeleteFileFlow, UploadFlow};
use backend::handlers::folders::{create, CreateFolderFlow};
use backend::models::{FileRecord, UserStorage};
use backend::protocol::{Action, Event, FieldMeta, Reply, Status, Step};

const USER: u128 = 0x1111_2222_3333_4444_5555_6666_7777_8888;

fn action_user(a: &Action) -> Option<u128> {
    match a {
        Action::FetchUser { user_id } => Some(*user_id),
        Action::InsertFile { file } => Some(file.owner_id),
        Action::AddStorageUsed { user_id, .. } | Action::SubtractStorageUsed { user_id, .. } => Some(*user_id),
        Action::ListFiles { owner_id, .. }
        | Action::FindFile { owner_id, .. }
        | Action::RenameFile { owner_id, .. }
        | Action::MoveFile { owner_id, .. }
        | Action::FindFolder { owner_id, .. }
        | Action::InsertFolder { owner_id, .. }
        | Action::ListFolders { owner_id, .. }
        | Action::RenameFolder { owner_id, .. }
        | Action::DeleteFolder { owner_id, .. } => Some(*owner_id),
        _ => None,
    }
}

fn stored(size: i64) -> FileRecord {
    FileRecord {
        id: 9,
        name: "a".into(),
        original_name: "a".into(),
        mime_type: "text/plain".into(),
        size,
        sha256_hash: String::new(),
        folder_id: None,
        owner_id: USER,
        storage_path: "p".into(),
        created_at: 0,
        updated_at: 0,
    }
}

fn upload_steps(data: Vec<u8>, used: i64, limit: i64) -> Vec<Step> {
    let events = vec![
        Event::Begin,
        Event::Field(Ok(Some(FieldMeta { file_name: Some("a".into()), content_type: None }))),
        Event::FieldBytes(Ok(data.clone())),
        Event::User(Ok(UserStorage { storage_used: used, storage_limit: limit })),
        Event::Stored(Ok(())),
        Event::Stored(Ok(())),
        Event::FileInserted(Ok(stored(data.len() as i64))),
        Event::Executed(Ok(1)),
        Event::Begin,
    ];
    let mut flow = UploadFlow::new(USER, None, "root".into());
    let mut steps = Vec::new();
    for e in events {
        let (g, s) = upload(flow, e);
        flow = g;
        steps.push(s);
    }
    steps
}

fn storage_change(steps: &[Step]) -> i64 {
    steps
        .iter()
        .map(|s| match s {
            Step::Perform(Action::AddStorageUsed { amount, .. }) => *amount,
            Step::Perform(Action::SubtractStorageUsed { amount, .. }) => -*amount,
            _ => 0,
        })
        .sum()
}

#[test]
fn every_action_names_only_the_caller() {
    for s in upload_steps(vec![1, 2, 3], 0, 10) {
        if let Step::Perform(a) = s {
            assert!(action_user(&a).map_or(true, |u| u == USER));
        }
    }
}

#[test]
fn handlers_stop_asking_after_replying() {
    let steps = upload_steps(vec![1], 0, 10);
    assert_eq!(steps.iter().filter(|s| matches!(s, Step::Perform(_))).count(), 7);
    assert_eq!(steps[8], Step::Reply(Reply::Status(Status::InternalServerError)));
}

#[test]
fn upload_at_exactly_the_limit_is_accepted() {
    let steps = upload_steps(vec![0; 5], 5, 10);
    assert_eq!(steps[7], Step::Reply(Reply::CreatedFile(stored(5))));
    let over = upload_steps(vec![0; 6], 5, 10);
    assert_eq!(over[3], Step::Reply(Reply::Status(Status::PayloadTooLarge)));
}

#[test]
fn delete_gives_back_what_upload_took() {
    let up = upload_steps(vec![7; 12], 0, 100);
    assert_eq!(storage_change(&up), 12);
    let events = vec![
        Event::Begin,
        Event::FileRow(Ok(Some(stored(12)))),
        Event::Stored(Ok(())),
        Event::Executed(Ok(1)),
        Event::Executed(Ok(1)),
    ];
    let mut flow = DeleteFileFlow::new(USER, 9);
    let mut down = Vec::new();
    for e in events {
        let (g, s) = delete(flow, e);
        flow = g;
        down.push(s);
    }
    assert_eq!(down[4], Step::Reply(Reply::Status(Status::NoContent)));
    assert_eq!(storage_change(&up) + storage_change(&down), 0);
}

#[test]
fn folder_is_inserted_under_parent_only_after_lookup() {
    let (f, s) = create(CreateFolderFlow::new(USER, "x".into(), Some(3)), Event::Begin);
    assert_eq!(s, Step::Perform(Action::FindFolder { id: 3, owner_id: USER }));
    let (_, s) = create(f, Event::FolderRow(Ok(None)));
    assert_eq!(s, Step::Reply(Reply::Status(Status::NotFound)));
}

#[test]
fn new_file_row_from_digest_and_id() {
    let digest = [0x00u8, 0x0f, 0xa0, 0xff];
    let (file, dir) = new_file_row(
        USER,
        Some(4),
        "/srv/files/",
        "photo.png".to_string(),
        "image/png".to_string(),
        1234,
        &digest,
        0x0123_4567_89ab_cdef_0123_4567_89ab_cdef,
    );
    assert_eq!(dir, "/srv/files/11112222-3333-4444-5555-666677778888");
    assert_eq!(
        file.storage_path,
        "/srv/files/11112222-3333-4444-5555-666677778888/01234567-89ab-cdef-0123-456789abcdef"
    );
    assert_eq!(file.sha256_hash, "000fa0ff");
    assert_eq!(file.id, 0x0123_4567_89ab_cdef_0123_4567_89ab_cdef);
    assert_eq!(file.name, "photo.png");
    assert_eq!(file.original_name, "photo.png");
    assert_eq!(file.mime_type, "image/png");
    assert_eq!(file.size, 1234);
    assert_eq!(file.folder_id, Some(4));
    assert_eq!(file.owner_id, USER);
}

