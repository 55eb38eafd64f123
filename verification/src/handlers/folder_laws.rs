//! What the folder handlers promise over whole requests: they act only for
//! the caller, they reply after a bounded number of actions, and a folder is
//! created under a parent only once that parent has been found among the
//! caller's folders; and, over the store model, that a second deletion finds
//! nothing, that listings hold exactly the caller's folders, and that a new
//! folder is in its parent's listing.

use vstd::prelude::*;
use crate::handlers::QueryStage;
use crate::handlers::folders::{
    create_step, delete_step, get_step, list_step, rename_step, CreateFolderFlow, CreateStage, DeleteFolderFlow,
    GetFolderFlow, ListFoldersFlow, RenameFolderFlow,
};
use crate::protocol::{Action, Event, Reply, Status, Step, scoped_to};
use crate::handlers::store::{executes, owned_folder, served, Store};
use crate::models::Folder;

verus! {

/// How many actions a folder creation may still ask for before it replies.
pub open spec fn create_actions_left(s: CreateStage) -> nat {
    match s {
        CreateStage::Start => 2,
        CreateStage::CheckingParent => 1,
        _ => 0,
    }
}

/// How many actions a single-query folder handler may still ask for.
pub open spec fn folder_query_actions_left(s: QueryStage) -> nat {
    match s {
        QueryStage::Start => 1,
        _ => 0,
    }
}

/// Every action of every folder handler names no user but the caller.
pub proof fn folder_handlers_act_only_for_the_caller()
    ensures
        forall|f: CreateFolderFlow, e: Event| #[trigger] scoped_to(create_step(f, e).1, f.user_id),
        forall|f: ListFoldersFlow, e: Event| #[trigger] scoped_to(list_step(f, e).1, f.user_id),
        forall|f: GetFolderFlow, e: Event| #[trigger] scoped_to(get_step(f, e).1, f.user_id),
        forall|f: RenameFolderFlow, e: Event| #[trigger] scoped_to(rename_step(f, e).1, f.user_id),
        forall|f: DeleteFolderFlow, e: Event| #[trigger] scoped_to(delete_step(f, e).1, f.user_id),
{
}

/// Every folder handler replies after a bounded number of actions: each
/// action brings it closer to its reply, it replies once none is left, and
/// once it has replied it asks for nothing more. A creation asks for at
/// most two actions, the others for one.
pub proof fn folder_handlers_reply_in_bounded_steps()
    ensures
        forall|f: CreateFolderFlow, e: Event| #![trigger create_step(f, e)] {
            let (g, s) = create_step(f, e);
            &&& (s is Perform ==> create_actions_left(g.stage) < create_actions_left(f.stage))
            &&& (create_actions_left(f.stage) == 0 ==> s is Reply)
            &&& (s is Reply <==> g.stage == CreateStage::Done)
        },
        forall|f: ListFoldersFlow, e: Event| #![trigger list_step(f, e)] {
            let (g, s) = list_step(f, e);
            &&& (s is Perform ==> folder_query_actions_left(g.stage) < folder_query_actions_left(f.stage))
            &&& (folder_query_actions_left(f.stage) == 0 ==> s is Reply)
            &&& (s is Reply <==> g.stage == QueryStage::Done)
        },
        forall|f: GetFolderFlow, e: Event| #![trigger get_step(f, e)] {
            let (g, s) = get_step(f, e);
            &&& (s is Perform ==> folder_query_actions_left(g.stage) < folder_query_actions_left(f.stage))
            &&& (folder_query_actions_left(f.stage) == 0 ==> s is Reply)
            &&& (s is Reply <==> g.stage == QueryStage::Done)
        },
        forall|f: RenameFolderFlow, e: Event| #![trigger rename_step(f, e)] {
            let (g, s) = rename_step(f, e);
            &&& (s is Perform ==> folder_query_actions_left(g.stage) < folder_query_actions_left(f.stage))
            &&& (folder_query_actions_left(f.stage) == 0 ==> s is Reply)
            &&& (s is Reply <==> g.stage == QueryStage::Done)
        },
        forall|f: DeleteFolderFlow, e: Event| #![trigger delete_step(f, e)] {
            let (g, s) = delete_step(f, e);
            &&& (s is Perform ==> folder_query_actions_left(g.stage) < folder_query_actions_left(f.stage))
            &&& (folder_query_actions_left(f.stage) == 0 ==> s is Reply)
            &&& (s is Reply <==> g.stage == QueryStage::Done)
        },
{
}

/// A folder with an empty name is refused with 400 before anything is asked
/// of the database.
pub proof fn empty_folder_name_is_refused_at_once(f: CreateFolderFlow, e: Event)
    requires
        f.stage == CreateStage::Start,
        f.name@.len() == 0,
    ensures
        create_step(f, e).1 == Step::Reply(Reply::Status(Status::BadRequest)),
        create_step(f, e).0.stage == CreateStage::Done,
{
}

/// A run of a folder creation.
pub open spec fn create_run(flows: Seq<CreateFolderFlow>, events: Seq<Event>, steps: Seq<Step>) -> bool {
    &&& flows.len() == events.len() + 1
    &&& steps.len() == events.len()
    &&& forall|i: int|
        #![trigger events[i]]
        0 <= i < events.len() ==> (flows[i + 1], steps[i]) == create_step(flows[i], events[i])
}

/// A folder creation run keeps its parameters, and once it has replied it is
/// done.
proof fn lemma_create_run(flows: Seq<CreateFolderFlow>, events: Seq<Event>, steps: Seq<Step>, k: int)
    requires
        create_run(flows, events, steps),
        0 <= k <= events.len(),
    ensures
        flows[k].user_id == flows[0].user_id,
        flows[k].name == flows[0].name,
        flows[k].parent_id == flows[0].parent_id,
        k > 0 && steps[k - 1] is Reply ==> flows[k].stage == CreateStage::Done,
        k > 0 ==> flows[k].stage != CreateStage::Start,
    decreases k,
{
    if k > 0 {
        lemma_create_run(flows, events, steps, k - 1);
        assert((flows[k], steps[k - 1]) == create_step(flows[k - 1], events[k - 1]));
    }
}

/// A folder creation inserts under a parent only after finding that parent
/// among the caller's folders: the insert is the second action, the first
/// looked the parent up for the caller, and the lookup found it. The row
/// inserted carries the requested name, which is not empty, and the caller
/// as owner.
pub proof fn create_inserts_only_under_a_found_parent(
    flows: Seq<CreateFolderFlow>,
    events: Seq<Event>,
    steps: Seq<Step>,
    k: int,
    name: String,
    parent: u128,
    owner_id: u128,
)
    requires
        create_run(flows, events, steps),
        flows[0].stage == CreateStage::Start,
        0 <= k < events.len(),
        steps[k] == Step::Perform(Action::InsertFolder { name, parent_id: Some(parent), owner_id }),
    ensures
        k == 1,
        flows[0].parent_id == Some(parent),
        steps[0] == Step::Perform(Action::FindFolder { id: parent, owner_id: flows[0].user_id }),
        events[1] matches Event::FolderRow(Ok(Some(_))),
        name == flows[0].name,
        name@.len() > 0,
        owner_id == flows[0].user_id,
{
    lemma_create_run(flows, events, steps, k);
    assert((flows[k + 1], steps[k]) == create_step(flows[k], events[k]));
    // Only a lookup of the parent leads to an insert under it.
    assert(flows[k].stage == CreateStage::CheckingParent);
    if k >= 2 {
        lemma_create_run(flows, events, steps, k - 1);
        assert((flows[k], steps[k - 1]) == create_step(flows[k - 1], events[k - 1]));
        assert(false);
    }
    assert((flows[1], steps[0]) == create_step(flows[0], events[0]));
    lemma_create_run(flows, events, steps, 1);
}

/// Deleting a folder a second time finds nothing: a deletion answered 204
/// removed the caller's folder, so the same deletion again answers 404 and
/// changes nothing.
pub proof fn second_folder_delete_finds_nothing(
    flow: DeleteFolderFlow,
    s0: Store,
    answer1: Event,
    s1: Store,
    answer2: Event,
    s2: Store,
)
    requires
        flow.stage == QueryStage::Start,
        delete_step(flow, Event::Begin).1 matches Step::Perform(a) && executes(s0, a, answer1, s1),
        delete_step(delete_step(flow, Event::Begin).0, answer1).1 == Step::Reply(Reply::Status(Status::NoContent)),
        delete_step(flow, Event::Begin).1 matches Step::Perform(a) && executes(s1, a, answer2, s2),
    ensures
        s1 == (Store { folders: s0.folders.remove(flow.folder_id), ..s0 }),
        delete_step(delete_step(flow, Event::Begin).0, answer2).1 == Step::Reply(Reply::Status(Status::NotFound)),
        s2 == s1,
{
}

/// A folder just created is in the listing of its parent.
pub proof fn list_after_create_holds_the_new_folder(
    flows: Seq<CreateFolderFlow>,
    events: Seq<Event>,
    steps: Seq<Step>,
    stores: Seq<Store>,
    folder: Folder,
    list_flow: ListFoldersFlow,
    list_answer: Event,
    listed: Store,
    rows: Vec<Folder>,
)
    requires
        create_run(flows, events, steps),
        flows[0].stage == CreateStage::Start,
        served(stores, events, steps),
        steps.last() == Step::Reply(Reply::CreatedFolder(folder)),
        list_flow == (ListFoldersFlow {
            user_id: flows[0].user_id,
            parent_id: flows[0].parent_id,
            stage: QueryStage::Start,
        }),
        list_step(list_flow, Event::Begin).1 matches Step::Perform(a) && executes(stores.last(), a, list_answer, listed),
        list_step(list_step(list_flow, Event::Begin).0, list_answer).1 == Step::Reply(Reply::Folders(rows)),
    ensures
        rows@.contains(folder),
        folder.name == flows[0].name,
        folder.owner_id == flows[0].user_id,
        folder.parent_id == flows[0].parent_id,
{
    let n = events.len() as int;
    // The reply came from the insert step, right after the insert was performed.
    lemma_create_run(flows, events, steps, n - 1);
    assert((flows[n], steps[n - 1]) == create_step(flows[n - 1], events[n - 1]));
    assert(flows[n - 1].stage == CreateStage::Inserting);
    assert(n >= 2);
    lemma_create_run(flows, events, steps, n - 2);
    assert((flows[n - 1], steps[n - 2]) == create_step(flows[n - 2], events[n - 2]));
    assert(steps[n - 2] matches Step::Perform(_));
    assert(steps[n - 2] == Step::Perform(
        Action::InsertFolder { name: flows[0].name, parent_id: flows[0].parent_id, owner_id: flows[0].user_id },
    ));
    assert(events[n - 1] == Event::FolderInserted(Ok(folder)));
    assert(stores.last() == stores[n - 1]);
    assert(stores.last().folders.contains_key(folder.id) && stores.last().folders[folder.id] == folder);
}

/// A folder listing gives only the caller's folders under the parent asked
/// for, changes nothing, and does not depend on other users' rows: two
/// stores that hold the same folders for the caller give listings with the
/// same rows.
pub proof fn folder_list_gives_only_the_callers_folders(
    flow: ListFoldersFlow,
    s: Store,
    answer: Event,
    s_after: Store,
    t: Store,
    other_answer: Event,
    t_after: Store,
    rows: Vec<Folder>,
    other_rows: Vec<Folder>,
)
    requires
        flow.stage == QueryStage::Start,
        list_step(flow, Event::Begin).1 matches Step::Perform(a) && executes(s, a, answer, s_after),
        list_step(list_step(flow, Event::Begin).0, answer).1 == Step::Reply(Reply::Folders(rows)),
        list_step(flow, Event::Begin).1 matches Step::Perform(a) && executes(t, a, other_answer, t_after),
        list_step(list_step(flow, Event::Begin).0, other_answer).1 == Step::Reply(Reply::Folders(other_rows)),
        forall|id: u128| #[trigger] owned_folder(s, id, flow.user_id) == owned_folder(t, id, flow.user_id),
    ensures
        s_after == s,
        forall|g: Folder| #[trigger] rows@.contains(g) ==> g.owner_id == flow.user_id && g.parent_id == flow.parent_id,
        forall|g: Folder| #[trigger] rows@.contains(g) <==> other_rows@.contains(g),
{
    assert forall|g: Folder| #[trigger] rows@.contains(g) <==> other_rows@.contains(g) by {
        if rows@.contains(g) {
            let id = choose|id: u128|
                s.folders.contains_key(id) && #[trigger] s.folders[id] == g && g.owner_id == flow.user_id
                    && g.parent_id == flow.parent_id;
            assert(owned_folder(s, id, flow.user_id) == owned_folder(t, id, flow.user_id));
            assert(t.folders[id] == g);
        }
        if other_rows@.contains(g) {
            let id = choose|id: u128|
                t.folders.contains_key(id) && #[trigger] t.folders[id] == g && g.owner_id == flow.user_id
                    && g.parent_id == flow.parent_id;
            assert(owned_folder(s, id, flow.user_id) == owned_folder(t, id, flow.user_id));
            assert(s.folders[id] == g);
        }
    }
}

// ------------------------------------------------------------ what each step answers

/// What each step of a folder creation answers: an empty name is a bad
/// request; a named folder without a parent is inserted at once; a parent
/// is first looked up among the caller's folders, and any folder found,
/// whatever it holds, leads to the insert of the requested name, parent and
/// caller, while none found is 404; a failed insert is a conflict and a
/// successful one is 201 with the row the database returned.
pub proof fn create_answers()
    ensures
        forall|f: CreateFolderFlow, e: Event|
            f.stage == CreateStage::Start && f.name@.len() == 0 ==> #[trigger] create_step(f, e).1 == Step::Reply(
                Reply::Status(Status::BadRequest),
            ),
        forall|f: CreateFolderFlow, e: Event|
            f.stage == CreateStage::Start && f.name@.len() > 0 && f.parent_id is None ==> #[trigger] create_step(
                f,
                e,
            ).1 == Step::Perform(Action::InsertFolder { name: f.name, parent_id: None, owner_id: f.user_id }),
        forall|f: CreateFolderFlow, e: Event|
            f.stage == CreateStage::Start && f.name@.len() > 0 ==> (f.parent_id matches Some(parent) ==> #[trigger] create_step(
                f,
                e,
            ).1 == Step::Perform(Action::FindFolder { id: parent, owner_id: f.user_id })),
        forall|f: CreateFolderFlow, parent: Folder|
            f.stage == CreateStage::CheckingParent ==> #[trigger] create_step(f, Event::FolderRow(Ok(Some(parent))))
                == (CreateFolderFlow { stage: CreateStage::Inserting, ..f }, Step::Perform(
                Action::InsertFolder { name: f.name, parent_id: f.parent_id, owner_id: f.user_id },
            )),
        forall|f: CreateFolderFlow|
            f.stage == CreateStage::CheckingParent ==> #[trigger] create_step(f, Event::FolderRow(Ok(None))).1
                == Step::Reply(Reply::Status(Status::NotFound)),
        forall|f: CreateFolderFlow|
            f.stage == CreateStage::CheckingParent ==> #[trigger] create_step(f, Event::FolderRow(Err(()))).1
                == Step::Reply(Reply::Status(Status::InternalServerError)),
        forall|f: CreateFolderFlow, g: Folder|
            f.stage == CreateStage::Inserting ==> #[trigger] create_step(f, Event::FolderInserted(Ok(g))).1
                == Step::Reply(Reply::CreatedFolder(g)),
        forall|f: CreateFolderFlow|
            f.stage == CreateStage::Inserting ==> #[trigger] create_step(f, Event::FolderInserted(Err(()))).1
                == Step::Reply(Reply::Status(Status::Conflict)),
{
}

/// What each step of a folder listing answers: it asks for the caller's
/// folders under the parent asked for, and replies with exactly the rows
/// the query returned, however many, even none.
pub proof fn folder_list_answers()
    ensures
        forall|f: ListFoldersFlow, e: Event|
            f.stage == QueryStage::Start ==> #[trigger] list_step(f, e).1 == Step::Perform(
                Action::ListFolders { owner_id: f.user_id, parent_id: f.parent_id },
            ),
        forall|f: ListFoldersFlow, rows: Vec<Folder>|
            f.stage == QueryStage::Awaiting ==> #[trigger] list_step(f, Event::FolderRows(Ok(rows))).1 == Step::Reply(
                Reply::Folders(rows),
            ),
        forall|f: ListFoldersFlow|
            f.stage == QueryStage::Awaiting ==> #[trigger] list_step(f, Event::FolderRows(Err(()))).1 == Step::Reply(
                Reply::Status(Status::InternalServerError),
            ),
{
}

/// What each step of a folder lookup or rename answers: the caller's
/// folder is asked for (renamed to the name asked for); the row returned,
/// whatever it holds, is sent back; no row is 404.
pub proof fn folder_get_and_rename_answers()
    ensures
        forall|f: GetFolderFlow, e: Event|
            f.stage == QueryStage::Start ==> #[trigger] get_step(f, e).1 == Step::Perform(
                Action::FindFolder { id: f.folder_id, owner_id: f.user_id },
            ),
        forall|f: GetFolderFlow, g: Folder|
            f.stage == QueryStage::Awaiting ==> #[trigger] get_step(f, Event::FolderRow(Ok(Some(g)))).1
                == Step::Reply(Reply::Folder(g)),
        forall|f: GetFolderFlow|
            f.stage == QueryStage::Awaiting ==> #[trigger] get_step(f, Event::FolderRow(Ok(None))).1 == Step::Reply(
                Reply::Status(Status::NotFound),
            ),
        forall|f: GetFolderFlow|
            f.stage == QueryStage::Awaiting ==> #[trigger] get_step(f, Event::FolderRow(Err(()))).1 == Step::Reply(
                Reply::Status(Status::InternalServerError),
            ),
        forall|f: RenameFolderFlow, e: Event|
            f.stage == QueryStage::Start ==> #[trigger] rename_step(f, e).1 == Step::Perform(
                Action::RenameFolder { name: f.name, id: f.folder_id, owner_id: f.user_id },
            ),
        forall|f: RenameFolderFlow, g: Folder|
            f.stage == QueryStage::Awaiting ==> #[trigger] rename_step(f, Event::FolderRow(Ok(Some(g)))).1
                == Step::Reply(Reply::Folder(g)),
        forall|f: RenameFolderFlow|
            f.stage == QueryStage::Awaiting ==> #[trigger] rename_step(f, Event::FolderRow(Ok(None))).1
                == Step::Reply(Reply::Status(Status::NotFound)),
        forall|f: RenameFolderFlow|
            f.stage == QueryStage::Awaiting ==> #[trigger] rename_step(f, Event::FolderRow(Err(()))).1
                == Step::Reply(Reply::Status(Status::InternalServerError)),
{
}

/// What each step of a folder deletion answers: the caller's folder is
/// deleted; no row deleted is 404, any other count 204.
pub proof fn folder_delete_answers()
    ensures
        forall|f: DeleteFolderFlow, e: Event|
            f.stage == QueryStage::Start ==> #[trigger] delete_step(f, e).1 == Step::Perform(
                Action::DeleteFolder { id: f.folder_id, owner_id: f.user_id },
            ),
        forall|f: DeleteFolderFlow, rows: u64|
            f.stage == QueryStage::Awaiting ==> #[trigger] delete_step(f, Event::Executed(Ok(rows))).1 == Step::Reply(
                Reply::Status(if rows == 0 { Status::NotFound } else { Status::NoContent }),
            ),
        forall|f: DeleteFolderFlow|
            f.stage == QueryStage::Awaiting ==> #[trigger] delete_step(f, Event::Executed(Err(()))).1 == Step::Reply(
                Reply::Status(Status::InternalServerError),
            ),
{
}

// ------------------------------------------------------------ what a request gets when every action succeeds

/// A creation served by the store with a non-empty name, and a parent that
/// is absent or one of the caller's folders, whatever that folder holds, is
/// answered 201 with a new folder of the requested name, parent and owner;
/// with a parent that is not one of the caller's it is 404 and inserts
/// nothing.
pub proof fn create_with_a_found_parent_is_created(
    flows: Seq<CreateFolderFlow>,
    events: Seq<Event>,
    steps: Seq<Step>,
    stores: Seq<Store>,
)
    requires
        create_run(flows, events, steps),
        flows[0].stage == CreateStage::Start,
        served(stores, events, steps),
        flows[0].name@.len() > 0,
    ensures
        (flows[0].parent_id matches Some(p) ==> owned_folder(stores[0], p, flows[0].user_id) is Some)
            ==> (steps.last() matches Step::Reply(Reply::CreatedFolder(g)) && g.name == flows[0].name && g.parent_id
            == flows[0].parent_id && g.owner_id == flows[0].user_id),
        (flows[0].parent_id matches Some(p) && owned_folder(stores[0], p, flows[0].user_id) is None)
            ==> steps.last() == Step::Reply(Reply::Status(Status::NotFound)) && stores.last() == stores[0],
{
    let n = events.len() as int;
    assert((flows[1], steps[0]) == create_step(flows[0], events[0]));
    if n == 1 {
        assert(steps.last() == steps[0]);
        assert(false);
    }
    assert(steps[0] matches Step::Perform(_));
    lemma_create_run(flows, events, steps, 1);
    assert((flows[2], steps[1]) == create_step(flows[1], events[1]));
    if flows[0].parent_id is None {
        if n > 2 {
            assert(steps[1] matches Step::Perform(_));
            assert(false);
        }
        assert(steps.last() == steps[1]);
    } else {
        if owned_folder(stores[0], flows[0].parent_id->0, flows[0].user_id) is Some {
            if n == 2 {
                assert(steps.last() == steps[1]);
                assert(false);
            }
            assert(steps[1] matches Step::Perform(_));
            lemma_create_run(flows, events, steps, 2);
            assert((flows[3], steps[2]) == create_step(flows[2], events[2]));
            if n > 3 {
                assert(steps[2] matches Step::Perform(_));
                assert(false);
            }
            assert(steps.last() == steps[2]);
        } else {
            if n > 2 {
                assert(steps[1] matches Step::Perform(_));
                assert(false);
            }
            assert(steps.last() == steps[1]);
            assert(stores.last() == stores[1]);
        }
    }
}

/// A folder listing served by the store is always answered with rows,
/// possibly none: exactly the caller's folders under the parent asked for.
pub proof fn folder_list_is_answered_with_the_callers_rows(flow: ListFoldersFlow, s: Store, answer: Event, after: Store)
    requires
        flow.stage == QueryStage::Start,
        list_step(flow, Event::Begin).1 matches Step::Perform(a) && executes(s, a, answer, after),
    ensures
        after == s,
        list_step(list_step(flow, Event::Begin).0, answer).1 matches Step::Reply(Reply::Folders(rows)) && forall|
            g: Folder,
        |
            #[trigger] rows@.contains(g) <==> (exists|id: u128|
                s.folders.contains_key(id) && #[trigger] s.folders[id] == g && g.owner_id == flow.user_id
                    && g.parent_id == flow.parent_id),
{
}

/// A folder lookup served by the store answers the caller's folder, or 404
/// when the folder is not one of the caller's.
pub proof fn get_answers_the_callers_folder(flow: GetFolderFlow, s: Store, answer: Event, after: Store)
    requires
        flow.stage == QueryStage::Start,
        get_step(flow, Event::Begin).1 matches Step::Perform(a) && executes(s, a, answer, after),
    ensures
        after == s,
        get_step(get_step(flow, Event::Begin).0, answer).1 == match owned_folder(s, flow.folder_id, flow.user_id) {
            Some(g) => Step::Reply(Reply::Folder(g)),
            None => Step::Reply(Reply::Status(Status::NotFound)),
        },
{
}

/// A folder rename served by the store of one of the caller's folders is
/// answered with the renamed row: the old row with the name asked for; of
/// any other folder it is 404 and changes nothing.
pub proof fn rename_of_an_owned_folder_is_answered_with_it(
    flow: RenameFolderFlow,
    s: Store,
    answer: Event,
    after: Store,
)
    requires
        flow.stage == QueryStage::Start,
        rename_step(flow, Event::Begin).1 matches Step::Perform(a) && executes(s, a, answer, after),
    ensures
        owned_folder(s, flow.folder_id, flow.user_id) matches Some(old) ==> (rename_step(
            rename_step(flow, Event::Begin).0,
            answer,
        ).1 matches Step::Reply(Reply::Folder(g)) && g == (Folder {
            name: flow.name,
            updated_at: g.updated_at,
            ..old
        }) && after.folders[flow.folder_id] == g),
        owned_folder(s, flow.folder_id, flow.user_id) is None ==> rename_step(rename_step(flow, Event::Begin).0, answer).1
            == Step::Reply(Reply::Status(Status::NotFound)) && after == s,
{
}

/// A folder deletion served by the store removes the caller's folder and is
/// answered 204; of any other folder it is 404 and changes nothing.
pub proof fn delete_of_an_owned_folder_is_done(flow: DeleteFolderFlow, s: Store, answer: Event, after: Store)
    requires
        flow.stage == QueryStage::Start,
        delete_step(flow, Event::Begin).1 matches Step::Perform(a) && executes(s, a, answer, after),
    ensures
        owned_folder(s, flow.folder_id, flow.user_id) is Some ==> delete_step(delete_step(flow, Event::Begin).0, answer).1
            == Step::Reply(Reply::Status(Status::NoContent)) && after == (Store {
            folders: s.folders.remove(flow.folder_id),
            ..s
        }),
        owned_folder(s, flow.folder_id, flow.user_id) is None ==> delete_step(delete_step(flow, Event::Begin).0, answer).1
            == Step::Reply(Reply::Status(Status::NotFound)) && after == s,
{
}

} // verus!
