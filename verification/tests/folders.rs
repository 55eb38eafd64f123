use backend::handlers::folders::{
    create, delete, get, list, rename, CreateFolderFlow, DeleteFolderFlow, GetFolderFlow, ListFoldersFlow,
    RenameFolderFlow,
};
use backend::models::Folder;
use backend::protocol::{Action, Event, Reply, Status, Step};

const USER: u128 = 77;

fn folder(id: u128) -> Folder {
    Folder {
        id,
        name: "docs".to_string(),
        parent_id: None,
        owner_id: USER,
        created_at: 0,
        updated_at: 0,
    }
}

#[test]
fn create_folder_at_root() {
    let (f, s) = create(CreateFolderFlow::new(USER, "docs".to_string(), None), Event::Begin);
    assert_eq!(s, Step::Perform(Action::InsertFolder { name: "docs".to_string(), parent_id: None, owner_id: USER }));
    let (_, s) = create(f, Event::FolderInserted(Ok(folder(1))));
    assert_eq!(s, Step::Reply(Reply::CreatedFolder(folder(1))));
}

#[test]
fn create_folder_checks_parent_first() {
    let (f, s) = create(CreateFolderFlow::new(USER, "sub".to_string(), Some(5)), Event::Begin);
    assert_eq!(s, Step::Perform(Action::FindFolder { id: 5, owner_id: USER }));
    let (f, s) = create(f, Event::FolderRow(Ok(Some(folder(5)))));
    assert_eq!(s, Step::Perform(Action::InsertFolder { name: "sub".to_string(), parent_id: Some(5), owner_id: USER }));
    let (_, s) = create(f, Event::FolderInserted(Err(())));
    assert_eq!(s, Step::Reply(Reply::Status(Status::Conflict)));
}

#[test]
fn create_folder_refusals() {
    let (f, s) = create(CreateFolderFlow::new(USER, String::new(), Some(5)), Event::Begin);
    assert_eq!(s, Step::Reply(Reply::Status(Status::BadRequest)));
    let (_, s) = create(f, Event::Begin);
    assert_eq!(s, Step::Reply(Reply::Status(Status::InternalServerError)));
    let (f, _) = create(CreateFolderFlow::new(USER, "sub".to_string(), Some(5)), Event::Begin);
    let (_, s) = create(f.clone(), Event::FolderRow(Ok(None)));
    assert_eq!(s, Step::Reply(Reply::Status(Status::NotFound)));
    let (_, s) = create(f, Event::FolderRow(Err(())));
    assert_eq!(s, Step::Reply(Reply::Status(Status::InternalServerError)));
}

#[test]
fn list_folders_of_parent_and_root() {
    let (f, s) = list(ListFoldersFlow::new(USER, Some(2)), Event::Begin);
    assert_eq!(s, Step::Perform(Action::ListFolders { owner_id: USER, parent_id: Some(2) }));
    let (_, s) = list(f.clone(), Event::FolderRows(Ok(vec![folder(3)])));
    assert_eq!(s, Step::Reply(Reply::Folders(vec![folder(3)])));
    let (_, s) = list(f, Event::FolderRows(Err(())));
    assert_eq!(s, Step::Reply(Reply::Status(Status::InternalServerError)));
    let (_, s) = list(ListFoldersFlow::new(USER, None), Event::Begin);
    assert_eq!(s, Step::Perform(Action::ListFolders { owner_id: USER, parent_id: None }));
}

#[test]
fn get_folder() {
    let (f, s) = get(GetFolderFlow::new(USER, 4), Event::Begin);
    assert_eq!(s, Step::Perform(Action::FindFolder { id: 4, owner_id: USER }));
    assert_eq!(get(f.clone(), Event::FolderRow(Ok(Some(folder(4))))).1, Step::Reply(Reply::Folder(folder(4))));
    assert_eq!(get(f.clone(), Event::FolderRow(Ok(None))).1, Step::Reply(Reply::Status(Status::NotFound)));
    assert_eq!(get(f, Event::FolderRow(Err(()))).1, Step::Reply(Reply::Status(Status::InternalServerError)));
}

#[test]
fn rename_folder() {
    let (f, s) = rename(RenameFolderFlow::new(USER, 4, "new".to_string()), Event::Begin);
    assert_eq!(s, Step::Perform(Action::RenameFolder { name: "new".to_string(), id: 4, owner_id: USER }));
    assert_eq!(rename(f.clone(), Event::FolderRow(Ok(Some(folder(4))))).1, Step::Reply(Reply::Folder(folder(4))));
    assert_eq!(rename(f, Event::FolderRow(Ok(None))).1, Step::Reply(Reply::Status(Status::NotFound)));
}

#[test]
fn delete_folder_not_found_when_no_row() {
    let (f, s) = delete(DeleteFolderFlow::new(USER, 4), Event::Begin);
    assert_eq!(s, Step::Perform(Action::DeleteFolder { id: 4, owner_id: USER }));
    assert_eq!(delete(f.clone(), Event::Executed(Ok(0))).1, Step::Reply(Reply::Status(Status::NotFound)));
    assert_eq!(delete(f.clone(), Event::Executed(Ok(1))).1, Step::Reply(Reply::Status(Status::NoContent)));
    assert_eq!(delete(f.clone(), Event::Executed(Ok(3))).1, Step::Reply(Reply::Status(Status::NoContent)));
    assert_eq!(delete(f, Event::Executed(Err(()))).1, Step::Reply(Reply::Status(Status::InternalServerError)));
}

#[test]
fn mismatched_event_is_internal_error() {
    let (f, _) = get(GetFolderFlow::new(USER, 4), Event::Begin);
    assert_eq!(get(f, Event::Executed(Ok(1))).1, Step::Reply(Reply::Status(Status::InternalServerError)));
}
