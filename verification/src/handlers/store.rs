//! A model of what the database and the disk hold and of what each action
//! does to them when it succeeds, as the statements the actions stand for
//! read. The laws across requests are stated over this model: they hold of
//! the handlers wherever the store behaves as described here.

use vstd::prelude::*;
use vstd::set::fold::{is_fun_commutative, lemma_fold_empty, lemma_fold_insert};
use crate::models::{FileRecord, Folder, UserStorage};
use crate::protocol::{Action, Event, Step};

verus! {

/// The rows of `users`, `files` and `folders`, by id, and the stored bytes,
/// by path.
pub struct Store {
    pub users: Map<u128, UserStorage>,
    pub files: Map<u128, FileRecord>,
    pub folders: Map<u128, Folder>,
    pub disk: Map<Seq<char>, Seq<u8>>,
}

/// The file `id` if `owner` owns it.
pub open spec fn owned_file(st: Store, id: u128, owner: u128) -> Option<FileRecord> {
    if st.files.contains_key(id) && st.files[id].owner_id == owner {
        Some(st.files[id])
    } else {
        None
    }
}

/// The folder `id` if `owner` owns it.
pub open spec fn owned_folder(st: Store, id: u128, owner: u128) -> Option<Folder> {
    if st.folders.contains_key(id) && st.folders[id].owner_id == owner {
        Some(st.folders[id])
    } else {
        None
    }
}

/// `rows` holds exactly the files of `owner` in `folder_id`.
pub open spec fn lists_files(st: Store, rows: Seq<FileRecord>, owner: u128, folder_id: Option<u128>) -> bool {
    forall|r: FileRecord|
        rows.contains(r) <==> (exists|id: u128|
            st.files.contains_key(id) && #[trigger] st.files[id] == r && r.owner_id == owner && r.folder_id == folder_id)
}

/// `rows` holds exactly the folders of `owner` under `parent_id`.
pub open spec fn lists_folders(st: Store, rows: Seq<Folder>, owner: u128, parent_id: Option<u128>) -> bool {
    forall|g: Folder|
        rows.contains(g) <==> (exists|id: u128|
            st.folders.contains_key(id) && #[trigger] st.folders[id] == g && g.owner_id == owner && g.parent_id == parent_id)
}

/// The action `a`, performed successfully on `st`, answers `e` and leaves
/// `st2`. Taking multipart fields touches no store; the update of
/// `updated_at` and the timestamps of new rows are left free.
pub open spec fn executes(st: Store, a: Action, e: Event, st2: Store) -> bool {
    match a {
        Action::NextField => st2 == st,
        Action::ReadFieldBytes => st2 == st,
        Action::FetchUser { user_id } => {
            &&& st.users.contains_key(user_id)
            &&& e == Event::User(Ok(st.users[user_id]))
            &&& st2 == st
        },
        Action::CreateDirAll { .. } => e == Event::Stored(Ok(())) && st2 == st,
        Action::WriteNewFile { path, data } => {
            &&& e == Event::Stored(Ok(()))
            &&& st2 == (Store { disk: st.disk.insert(path@, data@), ..st })
        },
        Action::InsertFile { file } => {
            &&& !st.files.contains_key(file.id)
            &&& e matches Event::FileInserted(Ok(r))
            &&& r.id == file.id && r.name == file.name && r.original_name == file.original_name
            &&& r.mime_type == file.mime_type && r.size == file.size && r.sha256_hash == file.sha256_hash
            &&& r.folder_id == file.folder_id && r.owner_id == file.owner_id && r.storage_path == file.storage_path
            &&& st2 == (Store { files: st.files.insert(file.id, r), ..st })
        },
        Action::AddStorageUsed { user_id, amount } => {
            &&& st.users.contains_key(user_id)
            &&& i64::MIN <= st.users[user_id].storage_used + amount <= i64::MAX
            &&& e == Event::Executed(Ok(1))
            &&& st2 == (Store {
                users: st.users.insert(
                    user_id,
                    UserStorage {
                        storage_used: (st.users[user_id].storage_used + amount) as i64,
                        ..st.users[user_id]
                    },
                ),
                ..st
            })
        },
        Action::SubtractStorageUsed { user_id, amount } => {
            &&& st.users.contains_key(user_id)
            &&& i64::MIN <= st.users[user_id].storage_used - amount <= i64::MAX
            &&& e == Event::Executed(Ok(1))
            &&& st2 == (Store {
                users: st.users.insert(
                    user_id,
                    UserStorage {
                        storage_used: (st.users[user_id].storage_used - amount) as i64,
                        ..st.users[user_id]
                    },
                ),
                ..st
            })
        },
        Action::ListFiles { owner_id, folder_id } => {
            &&& e matches Event::FileRows(Ok(rows))
            &&& lists_files(st, rows@, owner_id, folder_id)
            &&& st2 == st
        },
        Action::FindFile { id, owner_id } => {
            &&& e == Event::FileRow(Ok(owned_file(st, id, owner_id)))
            &&& st2 == st
        },
        Action::ReadStoredFile { path } => {
            &&& st.disk.contains_key(path@)
            &&& e matches Event::StoredBytes(Ok(bytes))
            &&& bytes@ == st.disk[path@]
            &&& st2 == st
        },
        Action::RemoveStoredFile { path } => {
            &&& e is Stored
            &&& st2 == (Store { disk: st.disk.remove(path@), ..st })
        },
        Action::DeleteFileRecord { id } => {
            &&& e == Event::Executed(Ok(if st.files.contains_key(id) { 1 } else { 0 }))
            &&& st2 == (Store { files: st.files.remove(id), ..st })
        },
        Action::RenameFile { name, id, owner_id } => match owned_file(st, id, owner_id) {
            Some(old) => {
                &&& e matches Event::FileRow(Ok(Some(r)))
                &&& r == (FileRecord { name, updated_at: r.updated_at, ..old })
                &&& st2 == (Store { files: st.files.insert(id, r), ..st })
            },
            None => e == Event::FileRow(Ok(None)) && st2 == st,
        },
        Action::MoveFile { folder_id, id, owner_id } => match owned_file(st, id, owner_id) {
            Some(old) => {
                &&& e matches Event::FileRow(Ok(Some(r)))
                &&& r == (FileRecord { folder_id, updated_at: r.updated_at, ..old })
                &&& st2 == (Store { files: st.files.insert(id, r), ..st })
            },
            None => e == Event::FileRow(Ok(None)) && st2 == st,
        },
        Action::FindFolder { id, owner_id } => {
            &&& e == Event::FolderRow(Ok(owned_folder(st, id, owner_id)))
            &&& st2 == st
        },
        Action::InsertFolder { name, parent_id, owner_id } => {
            &&& e matches Event::FolderInserted(Ok(g))
            &&& !st.folders.contains_key(g.id)
            &&& g.name == name && g.parent_id == parent_id && g.owner_id == owner_id
            &&& st2 == (Store { folders: st.folders.insert(g.id, g), ..st })
        },
        Action::ListFolders { owner_id, parent_id } => {
            &&& e matches Event::FolderRows(Ok(rows))
            &&& lists_folders(st, rows@, owner_id, parent_id)
            &&& st2 == st
        },
        Action::RenameFolder { name, id, owner_id } => match owned_folder(st, id, owner_id) {
            Some(old) => {
                &&& e matches Event::FolderRow(Ok(Some(g)))
                &&& g == (Folder { name, updated_at: g.updated_at, ..old })
                &&& st2 == (Store { folders: st.folders.insert(id, g), ..st })
            },
            None => e == Event::FolderRow(Ok(None)) && st2 == st,
        },
        Action::DeleteFolder { id, owner_id } => match owned_folder(st, id, owner_id) {
            Some(_) => e == Event::Executed(Ok(1)) && st2 == (Store { folders: st.folders.remove(id), ..st }),
            None => e == Event::Executed(Ok(0)) && st2 == st,
        },
    }
}

/// A request served by the store: it began with `Event::Begin`, each step
/// but the last asked for an action that the store performed, answering the
/// next event, and the last step replied. `stores[i]` is the store when
/// `steps[i]` is taken; the last is the store the request leaves.
pub open spec fn served(stores: Seq<Store>, events: Seq<Event>, steps: Seq<Step>) -> bool {
    &&& events.len() > 0
    &&& steps.len() == events.len()
    &&& stores.len() == events.len()
    &&& events[0] == Event::Begin
    &&& steps.last() is Reply
    &&& forall|i: int|
        #![trigger steps[i]]
        0 <= i < events.len() - 1 ==> (steps[i] matches Step::Perform(a) && executes(
            stores[i],
            a,
            events[i + 1],
            stores[i + 1],
        ))
}

/// What `f` adds to a running total for the row `files[id]`: its size if
/// `user` owns it.
pub open spec fn add_owned_size(files: Map<u128, FileRecord>, user: u128) -> spec_fn(int, u128) -> int {
    |acc: int, id: u128| if files[id].owner_id == user { acc + files[id].size } else { acc }
}

/// The bytes recorded for the files of `user`: the sum of their sizes.
pub open spec fn owned_bytes(files: Map<u128, FileRecord>, user: u128) -> int {
    files.dom().fold(0int, add_owned_size(files, user))
}

/// The store accounts for `user`: the user exists and their bytes in use
/// are the sum of the sizes of their files.
pub open spec fn accounts_for(st: Store, user: u128) -> bool {
    &&& st.files.dom().finite()
    &&& st.users.contains_key(user)
    &&& st.users[user].storage_used == owned_bytes(st.files, user)
}

/// Folding with two functions that agree on every element gives the same.
proof fn lemma_fold_agree(ids: Set<u128>, f: spec_fn(int, u128) -> int, g: spec_fn(int, u128) -> int)
    requires
        ids.finite(),
        is_fun_commutative(f),
        is_fun_commutative(g),
        forall|acc: int, id: u128| ids.contains(id) ==> #[trigger] f(acc, id) == g(acc, id),
    ensures
        ids.fold(0int, f) == ids.fold(0int, g),
    decreases ids.len(),
{
    if ids.len() == 0 {
        assert(ids =~= Set::empty());
        lemma_fold_empty(0int, f);
        lemma_fold_empty(0int, g);
    } else {
        let a = ids.choose();
        let rest = ids.remove(a);
        lemma_fold_agree(rest, f, g);
        assert(rest.insert(a) =~= ids);
        lemma_fold_insert(rest, 0int, f, a);
        lemma_fold_insert(rest, 0int, g, a);
    }
}

/// Adding a row adds its size to its owner's recorded bytes, and nothing to
/// anyone else's.
pub proof fn lemma_owned_bytes_insert(files: Map<u128, FileRecord>, user: u128, id: u128, row: FileRecord)
    requires
        files.dom().finite(),
        !files.contains_key(id),
    ensures
        owned_bytes(files.insert(id, row), user) == owned_bytes(files, user) + if row.owner_id == user {
            row.size as int
        } else {
            0
        },
{
    let bigger = files.insert(id, row);
    let f = add_owned_size(files, user);
    let g = add_owned_size(bigger, user);
    assert(is_fun_commutative(f));
    assert(is_fun_commutative(g));
    assert forall|acc: int, k: u128| files.dom().contains(k) implies #[trigger] g(acc, k) == f(acc, k) by {
        assert(bigger[k] == files[k]);
    }
    lemma_fold_agree(files.dom(), g, f);
    assert(bigger.dom() =~= files.dom().insert(id));
    lemma_fold_insert(files.dom(), 0int, g, id);
}

} // verus!
