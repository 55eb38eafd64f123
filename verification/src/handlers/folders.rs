//! Folder handlers: create, list, get, rename and delete the caller's
//! folders.

use vstd::prelude::*;
use crate::handlers::{internal_error, QueryStage};
use crate::protocol::{Action, Event, Reply, Status, Step};

verus! {

/// The reply to a query for one of the caller's folders.
pub open spec fn folder_reply(e: Event) -> Step {
    match e {
        Event::FolderRow(Ok(Some(folder))) => Step::Reply(Reply::Folder(folder)),
        Event::FolderRow(Ok(None)) => Step::Reply(Reply::Status(Status::NotFound)),
        _ => internal_error(),
    }
}

fn reply_with_folder(e: Event) -> (s: Step)
    ensures
        s == folder_reply(e),
{
    match e {
        Event::FolderRow(Ok(Some(folder))) => Step::Reply(Reply::Folder(folder)),
        Event::FolderRow(Ok(None)) => Step::Reply(Reply::Status(Status::NotFound)),
        _ => Step::Reply(Reply::Status(Status::InternalServerError)),
    }
}

// ---------------------------------------------------------------- create

/// How far a folder creation has got.
#[derive(Debug, Clone, Copy, PartialEq, Eq)]
pub enum CreateStage {
    Start,
    /// The parent folder is being looked up among the caller's.
    CheckingParent,
    /// The new row is being inserted.
    Inserting,
    Done,
}

/// A request to create the folder `name` under `parent_id` (the root when
/// `None`) for `user_id`.
#[derive(Debug, Clone, PartialEq, Eq)]
pub struct CreateFolderFlow {
    pub user_id: u128,
    pub name: String,
    pub parent_id: Option<u128>,
    pub stage: CreateStage,
}

impl CreateFolderFlow {
    pub fn new(user_id: u128, name: String, parent_id: Option<u128>) -> (f: Self)
        ensures
            f == (CreateFolderFlow { user_id, name, parent_id, stage: CreateStage::Start }),
    {
        CreateFolderFlow { user_id, name, parent_id, stage: CreateStage::Start }
    }
}

/// One step of a folder creation. An empty name is refused before anything
/// is asked; a parent must be one of the caller's folders; a failed insert
/// (such as a duplicate name) is a conflict.
pub open spec fn create_step(f: CreateFolderFlow, e: Event) -> (CreateFolderFlow, Step) {
    let insert = Action::InsertFolder { name: f.name, parent_id: f.parent_id, owner_id: f.user_id };
    match f.stage {
        CreateStage::Start => if f.name@.len() == 0 {
            (
                CreateFolderFlow { stage: CreateStage::Done, ..f },
                Step::Reply(Reply::Status(Status::BadRequest)),
            )
        } else {
            match f.parent_id {
                Some(parent) => (
                    CreateFolderFlow { stage: CreateStage::CheckingParent, ..f },
                    Step::Perform(Action::FindFolder { id: parent, owner_id: f.user_id }),
                ),
                None => (CreateFolderFlow { stage: CreateStage::Inserting, ..f }, Step::Perform(insert)),
            }
        },
        CreateStage::CheckingParent => match e {
            Event::FolderRow(Ok(Some(_))) => (
                CreateFolderFlow { stage: CreateStage::Inserting, ..f },
                Step::Perform(insert),
            ),
            Event::FolderRow(Ok(None)) => (
                CreateFolderFlow { stage: CreateStage::Done, ..f },
                Step::Reply(Reply::Status(Status::NotFound)),
            ),
            _ => (CreateFolderFlow { stage: CreateStage::Done, ..f }, internal_error()),
        },
        CreateStage::Inserting => (
            CreateFolderFlow { stage: CreateStage::Done, ..f },
            match e {
                Event::FolderInserted(Ok(folder)) => Step::Reply(Reply::CreatedFolder(folder)),
                Event::FolderInserted(Err(_)) => Step::Reply(Reply::Status(Status::Conflict)),
                _ => internal_error(),
            },
        ),
        CreateStage::Done => (f, internal_error()),
    }
}

/// Creates a folder.
pub fn create(flow: CreateFolderFlow, event: Event) -> (res: (CreateFolderFlow, Step))
    ensures
        res == create_step(flow, event),
{
    let mut flow = flow;
    match flow.stage {
        CreateStage::Start => {
            if flow.name.as_str().is_empty() {
                flow.stage = CreateStage::Done;
                (flow, Step::Reply(Reply::Status(Status::BadRequest)))
            } else {
                match flow.parent_id {
                    Some(parent) => {
                        let user_id = flow.user_id;
                        flow.stage = CreateStage::CheckingParent;
                        (flow, Step::Perform(Action::FindFolder { id: parent, owner_id: user_id }))
                    },
                    None => {
                        let insert = Action::InsertFolder {
                            name: flow.name.clone(),
                            parent_id: None,
                            owner_id: flow.user_id,
                        };
                        flow.stage = CreateStage::Inserting;
                        (flow, Step::Perform(insert))
                    },
                }
            }
        },
        CreateStage::CheckingParent => {
            flow.stage = CreateStage::Done;
            match event {
                Event::FolderRow(Ok(Some(_))) => {
                    let insert = Action::InsertFolder {
                        name: flow.name.clone(),
                        parent_id: flow.parent_id,
                        owner_id: flow.user_id,
                    };
                    flow.stage = CreateStage::Inserting;
                    (flow, Step::Perform(insert))
                },
                Event::FolderRow(Ok(None)) => (flow, Step::Reply(Reply::Status(Status::NotFound))),
                _ => (flow, Step::Reply(Reply::Status(Status::InternalServerError))),
            }
        },
        CreateStage::Inserting => {
            flow.stage = CreateStage::Done;
            match event {
                Event::FolderInserted(Ok(folder)) => (flow, Step::Reply(Reply::CreatedFolder(folder))),
                Event::FolderInserted(Err(_)) => (flow, Step::Reply(Reply::Status(Status::Conflict))),
                _ => (flow, Step::Reply(Reply::Status(Status::InternalServerError))),
            }
        },
        CreateStage::Done => (flow, Step::Reply(Reply::Status(Status::InternalServerError))),
    }
}

// ---------------------------------------------------------------- list

/// A request for the folders of `user_id` directly under `parent_id` (the
/// root when `None`).
#[derive(Debug, Clone, PartialEq, Eq)]
pub struct ListFoldersFlow {
    pub user_id: u128,
    pub parent_id: Option<u128>,
    pub stage: QueryStage,
}

impl ListFoldersFlow {
    pub fn new(user_id: u128, parent_id: Option<u128>) -> (f: Self)
        ensures
            f == (ListFoldersFlow { user_id, parent_id, stage: QueryStage::Start }),
    {
        ListFoldersFlow { user_id, parent_id, stage: QueryStage::Start }
    }
}

/// One step of a folder listing.
pub open spec fn list_step(f: ListFoldersFlow, e: Event) -> (ListFoldersFlow, Step) {
    match f.stage {
        QueryStage::Start => (
            ListFoldersFlow { stage: QueryStage::Awaiting, ..f },
            Step::Perform(Action::ListFolders { owner_id: f.user_id, parent_id: f.parent_id }),
        ),
        QueryStage::Awaiting => (
            ListFoldersFlow { stage: QueryStage::Done, ..f },
            match e {
                Event::FolderRows(Ok(folders)) => Step::Reply(Reply::Folders(folders)),
                _ => internal_error(),
            },
        ),
        QueryStage::Done => (f, internal_error()),
    }
}

/// Lists folders.
pub fn list(flow: ListFoldersFlow, event: Event) -> (res: (ListFoldersFlow, Step))
    ensures
        res == list_step(flow, event),
{
    let mut flow = flow;
    match flow.stage {
        QueryStage::Start => {
            flow.stage = QueryStage::Awaiting;
            let action = Action::ListFolders { owner_id: flow.user_id, parent_id: flow.parent_id };
            (flow, Step::Perform(action))
        },
        QueryStage::Awaiting => {
            flow.stage = QueryStage::Done;
            match event {
                Event::FolderRows(Ok(folders)) => (flow, Step::Reply(Reply::Folders(folders))),
                _ => (flow, Step::Reply(Reply::Status(Status::InternalServerError))),
            }
        },
        QueryStage::Done => (flow, Step::Reply(Reply::Status(Status::InternalServerError))),
    }
}

// ---------------------------------------------------------------- get

/// A request for the folder `folder_id` of `user_id`.
#[derive(Debug, Clone, PartialEq, Eq)]
pub struct GetFolderFlow {
    pub user_id: u128,
    pub folder_id: u128,
    pub stage: QueryStage,
}

impl GetFolderFlow {
    pub fn new(user_id: u128, folder_id: u128) -> (f: Self)
        ensures
            f == (GetFolderFlow { user_id, folder_id, stage: QueryStage::Start }),
    {
        GetFolderFlow { user_id, folder_id, stage: QueryStage::Start }
    }
}

/// One step of a folder lookup.
pub open spec fn get_step(f: GetFolderFlow, e: Event) -> (GetFolderFlow, Step) {
    match f.stage {
        QueryStage::Start => (
            GetFolderFlow { stage: QueryStage::Awaiting, ..f },
            Step::Perform(Action::FindFolder { id: f.folder_id, owner_id: f.user_id }),
        ),
        QueryStage::Awaiting => (GetFolderFlow { stage: QueryStage::Done, ..f }, folder_reply(e)),
        QueryStage::Done => (f, internal_error()),
    }
}

/// Gets one folder.
pub fn get(flow: GetFolderFlow, event: Event) -> (res: (GetFolderFlow, Step))
    ensures
        res == get_step(flow, event),
{
    let mut flow = flow;
    match flow.stage {
        QueryStage::Start => {
            flow.stage = QueryStage::Awaiting;
            let action = Action::FindFolder { id: flow.folder_id, owner_id: flow.user_id };
            (flow, Step::Perform(action))
        },
        QueryStage::Awaiting => {
            flow.stage = QueryStage::Done;
            (flow, reply_with_folder(event))
        },
        QueryStage::Done => (flow, Step::Reply(Reply::Status(Status::InternalServerError))),
    }
}

// ---------------------------------------------------------------- rename

/// A request to rename the folder `folder_id` of `user_id` to `name`.
#[derive(Debug, Clone, PartialEq, Eq)]
pub struct RenameFolderFlow {
    pub user_id: u128,
    pub folder_id: u128,
    pub name: String,
    pub stage: QueryStage,
}

impl RenameFolderFlow {
    pub fn new(user_id: u128, folder_id: u128, name: String) -> (f: Self)
        ensures
            f == (RenameFolderFlow { user_id, folder_id, name, stage: QueryStage::Start }),
    {
        RenameFolderFlow { user_id, folder_id, name, stage: QueryStage::Start }
    }
}

/// One step of a folder rename.
pub open spec fn rename_step(f: RenameFolderFlow, e: Event) -> (RenameFolderFlow, Step) {
    match f.stage {
        QueryStage::Start => (
            RenameFolderFlow { stage: QueryStage::Awaiting, ..f },
            Step::Perform(Action::RenameFolder { name: f.name, id: f.folder_id, owner_id: f.user_id }),
        ),
        QueryStage::Awaiting => (RenameFolderFlow { stage: QueryStage::Done, ..f }, folder_reply(e)),
        QueryStage::Done => (f, internal_error()),
    }
}

/// Renames a folder.
pub fn rename(flow: RenameFolderFlow, event: Event) -> (res: (RenameFolderFlow, Step))
    ensures
        res == rename_step(flow, event),
{
    let mut flow = flow;
    match flow.stage {
        QueryStage::Start => {
            flow.stage = QueryStage::Awaiting;
            let action = Action::RenameFolder {
                name: flow.name.clone(),
                id: flow.folder_id,
                owner_id: flow.user_id,
            };
            (flow, Step::Perform(action))
        },
        QueryStage::Awaiting => {
            flow.stage = QueryStage::Done;
            (flow, reply_with_folder(event))
        },
        QueryStage::Done => (flow, Step::Reply(Reply::Status(Status::InternalServerError))),
    }
}

// ---------------------------------------------------------------- delete

/// A request to delete the folder `folder_id` of `user_id`.
#[derive(Debug, Clone, PartialEq, Eq)]
pub struct DeleteFolderFlow {
    pub user_id: u128,
    pub folder_id: u128,
    pub stage: QueryStage,
}

impl DeleteFolderFlow {
    pub fn new(user_id: u128, folder_id: u128) -> (f: Self)
        ensures
            f == (DeleteFolderFlow { user_id, folder_id, stage: QueryStage::Start }),
    {
        DeleteFolderFlow { user_id, folder_id, stage: QueryStage::Start }
    }
}

/// One step of a folder deletion: no row deleted means no such folder of the
/// caller.
pub open spec fn delete_step(f: DeleteFolderFlow, e: Event) -> (DeleteFolderFlow, Step) {
    match f.stage {
        QueryStage::Start => (
            DeleteFolderFlow { stage: QueryStage::Awaiting, ..f },
            Step::Perform(Action::DeleteFolder { id: f.folder_id, owner_id: f.user_id }),
        ),
        QueryStage::Awaiting => (
            DeleteFolderFlow { stage: QueryStage::Done, ..f },
            match e {
                Event::Executed(Ok(rows)) => if rows == 0 {
                    Step::Reply(Reply::Status(Status::NotFound))
                } else {
                    Step::Reply(Reply::Status(Status::NoContent))
                },
                _ => internal_error(),
            },
        ),
        QueryStage::Done => (f, internal_error()),
    }
}

/// Deletes a folder.
pub fn delete(flow: DeleteFolderFlow, event: Event) -> (res: (DeleteFolderFlow, Step))
    ensures
        res == delete_step(flow, event),
{
    let mut flow = flow;
    match flow.stage {
        QueryStage::Start => {
            flow.stage = QueryStage::Awaiting;
            let action = Action::DeleteFolder { id: flow.folder_id, owner_id: flow.user_id };
            (flow, Step::Perform(action))
        },
        QueryStage::Awaiting => {
            flow.stage = QueryStage::Done;
            match event {
                Event::Executed(Ok(rows)) => {
                    if rows == 0 {
                        (flow, Step::Reply(Reply::Status(Status::NotFound)))
                    } else {
                        (flow, Step::Reply(Reply::Status(Status::NoContent)))
                    }
                },
                _ => (flow, Step::Reply(Reply::Status(Status::InternalServerError))),
            }
        },
        QueryStage::Done => (flow, Step::Reply(Reply::Status(Status::InternalServerError))),
    }
}

} // verus!
