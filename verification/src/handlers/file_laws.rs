//! What the file handlers promise over whole requests: they act only for the
//! caller, they reply after a bounded number of actions, an upload is taken
//! only within the caller's storage limit and is charged exactly the bytes it
//! stores, a download sends only the bytes of a file found among the
//! caller's, and a deletion removes only a file found among the caller's and
//! credits back its recorded size; and, over the store model, what requests
//! leave in the store and what later requests find there.

use vstd::prelude::*;
use crate::handlers::QueryStage;
use crate::handlers::files::{
    delete_step, download_next, list_step, move_step, rename_step, text_or, upload_next, upload_wf,
    DeleteFileFlow, DeleteStage, DownloadFlow, DownloadStage, ListFilesFlow, MoveFileFlow, RenameFileFlow, UploadFlow,
    UploadStage,
};
use crate::models::{FileRecord, UserStorage};
use crate::handlers::store::{accounts_for, executes, lemma_owned_bytes_insert, owned_file, served, Store};
use crate::outside::sha256;
use crate::protocol::{Action, Event, Reply, Status, Step, scoped_to};
use crate::text::{attachment_header, hex_lower, is_v4_uuid, stored_file_path, user_dir};

verus! {

/// How many actions an upload may still ask for before it replies.
pub open spec fn upload_actions_left(s: UploadStage) -> nat {
    match s {
        UploadStage::Start => 7,
        UploadStage::AwaitingField => 6,
        UploadStage::AwaitingBytes { .. } => 5,
        UploadStage::AwaitingUser { .. } => 4,
        UploadStage::MakingDir { .. } => 3,
        UploadStage::Writing { .. } => 2,
        UploadStage::Inserting { .. } => 1,
        UploadStage::Charging { .. } => 0,
        UploadStage::Done => 0,
    }
}

/// How many actions a deletion may still ask for before it replies.
pub open spec fn delete_actions_left(s: DeleteStage) -> nat {
    match s {
        DeleteStage::Start => 4,
        DeleteStage::Looking => 3,
        DeleteStage::Removing { .. } => 2,
        DeleteStage::DeletingRecord { .. } => 1,
        DeleteStage::Crediting => 0,
        DeleteStage::Done => 0,
    }
}

/// How many actions a download may still ask for before it replies.
pub open spec fn download_actions_left(s: DownloadStage) -> nat {
    match s {
        DownloadStage::Start => 2,
        DownloadStage::Looking => 1,
        _ => 0,
    }
}

/// How many actions a single-query handler may still ask for.
pub open spec fn query_actions_left(s: QueryStage) -> nat {
    match s {
        QueryStage::Start => 1,
        _ => 0,
    }
}

/// Every action of every file handler names no user but the caller.
pub proof fn file_handlers_act_only_for_the_caller()
    ensures
        forall|f: UploadFlow, e: Event, g: UploadFlow, s: Step|
            upload_wf(f) && #[trigger] upload_next(f, e, g, s) ==> scoped_to(s, f.user_id),
        forall|f: ListFilesFlow, e: Event| #[trigger] scoped_to(list_step(f, e).1, f.user_id),
        forall|f: DownloadFlow, e: Event, g: DownloadFlow, s: Step|
            #[trigger] download_next(f, e, g, s) ==> scoped_to(s, f.user_id),
        forall|f: DeleteFileFlow, e: Event| #[trigger] scoped_to(delete_step(f, e).1, f.user_id),
        forall|f: RenameFileFlow, e: Event| #[trigger] scoped_to(rename_step(f, e).1, f.user_id),
        forall|f: MoveFileFlow, e: Event| #[trigger] scoped_to(move_step(f, e).1, f.user_id),
{
}

/// Every file handler replies after a bounded number of actions: each
/// action brings it closer to its reply, it replies once none is left, and
/// once it has replied it asks for nothing more. An upload asks for at most
/// seven actions, a deletion four, a download two, the others one.
pub proof fn file_handlers_reply_in_bounded_steps()
    ensures
        forall|f: UploadFlow, e: Event, g: UploadFlow, s: Step| #[trigger] upload_next(f, e, g, s) ==> {
            &&& (s is Perform ==> upload_actions_left(g.stage) < upload_actions_left(f.stage))
            &&& (upload_actions_left(f.stage) == 0 ==> s is Reply)
            &&& (s is Reply <==> g.stage == UploadStage::Done)
        },
        forall|f: DownloadFlow, e: Event, g: DownloadFlow, s: Step| #[trigger] download_next(f, e, g, s) ==> {
            &&& (s is Perform ==> download_actions_left(g.stage) < download_actions_left(f.stage))
            &&& (download_actions_left(f.stage) == 0 ==> s is Reply)
            &&& (s is Reply <==> g.stage == DownloadStage::Done)
        },
        forall|f: DeleteFileFlow, e: Event| #![trigger delete_step(f, e)] {
            let (g, s) = delete_step(f, e);
            &&& (s is Perform ==> delete_actions_left(g.stage) < delete_actions_left(f.stage))
            &&& (delete_actions_left(f.stage) == 0 ==> s is Reply)
            &&& (s is Reply <==> g.stage == DeleteStage::Done)
        },
        forall|f: ListFilesFlow, e: Event| #![trigger list_step(f, e)] {
            let (g, s) = list_step(f, e);
            &&& (s is Perform ==> query_actions_left(g.stage) < query_actions_left(f.stage))
            &&& (query_actions_left(f.stage) == 0 ==> s is Reply)
            &&& (s is Reply <==> g.stage == QueryStage::Done)
        },
        forall|f: RenameFileFlow, e: Event| #![trigger rename_step(f, e)] {
            let (g, s) = rename_step(f, e);
            &&& (s is Perform ==> query_actions_left(g.stage) < query_actions_left(f.stage))
            &&& (query_actions_left(f.stage) == 0 ==> s is Reply)
            &&& (s is Reply <==> g.stage == QueryStage::Done)
        },
        forall|f: MoveFileFlow, e: Event| #![trigger move_step(f, e)] {
            let (g, s) = move_step(f, e);
            &&& (s is Perform ==> query_actions_left(g.stage) < query_actions_left(f.stage))
            &&& (query_actions_left(f.stage) == 0 ==> s is Reply)
            &&& (s is Reply <==> g.stage == QueryStage::Done)
        },
{
}

/// A run of an upload: for each `i`, the step taken at `flows[i]` with
/// `events[i]` gives `flows[i + 1]` and `steps[i]`.
pub open spec fn upload_run(flows: Seq<UploadFlow>, events: Seq<Event>, steps: Seq<Step>) -> bool {
    &&& flows.len() == events.len() + 1
    &&& steps.len() == events.len()
    &&& forall|i: int|
        #![trigger events[i]]
        0 <= i < events.len() ==> upload_next(flows[i], events[i], flows[i + 1], steps[i])
}

/// The number of actions an upload has asked for so far.
pub open spec fn upload_progress(s: UploadStage) -> int {
    match s {
        UploadStage::Start => 0,
        UploadStage::AwaitingField => 1,
        UploadStage::AwaitingBytes { .. } => 2,
        UploadStage::AwaitingUser { .. } => 3,
        UploadStage::MakingDir { .. } => 4,
        UploadStage::Writing { .. } => 5,
        UploadStage::Inserting { .. } => 6,
        UploadStage::Charging { .. } => 7,
        UploadStage::Done => 8,
    }
}

/// Before its reply, an upload run is at the stage that counts its steps,
/// with the parameters it started with.
proof fn lemma_upload_run_progress(flows: Seq<UploadFlow>, events: Seq<Event>, steps: Seq<Step>, k: int)
    requires
        upload_run(flows, events, steps),
        flows[0].stage == UploadStage::Start,
        0 <= k <= events.len(),
        forall|i: int| 0 <= i < k ==> (#[trigger] steps[i]) is Perform,
    ensures
        upload_progress(flows[k].stage) == k,
        flows[k].user_id == flows[0].user_id,
        flows[k].folder_id == flows[0].folder_id,
        flows[k].upload_dir == flows[0].upload_dir,
    decreases k,
{
    if k > 0 {
        lemma_upload_run_progress(flows, events, steps, k - 1);
        assert(steps[k - 1] is Perform);
        assert(upload_next(flows[k - 1], events[k - 1], flows[k], steps[k - 1]));
    }
}

/// An upload answered 201 went through exactly these actions: it took the
/// first field and its bytes, read the uploader's storage, found the bytes
/// within the limit, created the uploader's directory, wrote those bytes to
/// the path of a new version-4 id under it, inserted a record of the uploader, the
/// requested folder, the field's name and type, the size of the bytes and
/// their 64-digit SHA-256, charged exactly that size to the uploader, and replied with
/// the record the database returned.
pub proof fn upload_created_means_stored_and_charged(
    flows: Seq<UploadFlow>,
    events: Seq<Event>,
    steps: Seq<Step>,
    record: FileRecord,
)
    requires
        upload_run(flows, events, steps),
        flows[0].stage == UploadStage::Start,
        events.len() > 0,
        forall|i: int| 0 <= i < events.len() - 1 ==> (#[trigger] steps[i]) is Perform,
        steps.last() == Step::Reply(Reply::CreatedFile(record)),
    ensures
        events.len() == 8,
        steps[0] == Step::Perform(Action::NextField),
        steps[1] == Step::Perform(Action::ReadFieldBytes),
        steps[2] == Step::Perform(Action::FetchUser { user_id: flows[0].user_id }),
        events[2] matches Event::FieldBytes(Ok(data)) && events[3] matches Event::User(Ok(user))
            && user.storage_used + (data@.len() as i64) <= user.storage_limit,
        events[2] matches Event::FieldBytes(Ok(data)) && steps[4] matches Step::Perform(
            Action::WriteNewFile { path, data: written },
        ) && written == data,
        events[1] matches Event::Field(Ok(Some(meta))) && steps[5] matches Step::Perform(Action::InsertFile { file })
            && file.original_name@ == text_or(meta.file_name, "unnamed"@)
            && file.name == file.original_name
            && file.mime_type@ == text_or(meta.content_type, "application/octet-stream"@),
        steps[4] matches Step::Perform(Action::WriteNewFile { path, data }) && steps[5] matches Step::Perform(
            Action::InsertFile { file },
        ) && {
            &&& path == file.storage_path
            &&& file.size == data@.len() as i64
            &&& file.sha256_hash@ == hex_lower(sha256(data@))
            &&& file.sha256_hash@.len() == 64
            &&& is_v4_uuid(file.id)
            &&& file.owner_id == flows[0].user_id
            &&& file.folder_id == flows[0].folder_id
            &&& file.storage_path@ == stored_file_path(flows[0].upload_dir@, flows[0].user_id, file.id)
        },
        steps[3] matches Step::Perform(Action::CreateDirAll { path: dir }) && steps[5] matches Step::Perform(
            Action::InsertFile { file },
        ) && file.storage_path@ == crate::text::path_join(dir@, crate::text::uuid_text(file.id)),
        steps[5] matches Step::Perform(Action::InsertFile { file }) && steps[6] == Step::Perform(
            Action::AddStorageUsed { user_id: flows[0].user_id, amount: file.size },
        ),
        events[6] == Event::FileInserted(Ok(record)),
{
    let n = events.len() as int;
    lemma_upload_run_progress(flows, events, steps, n - 1);
    assert(upload_next(flows[n - 1], events[n - 1], flows[n], steps[n - 1]));
    assert(n == 8);
    lemma_upload_run_progress(flows, events, steps, 1);
    lemma_upload_run_progress(flows, events, steps, 2);
    lemma_upload_run_progress(flows, events, steps, 3);
    lemma_upload_run_progress(flows, events, steps, 4);
    lemma_upload_run_progress(flows, events, steps, 5);
    lemma_upload_run_progress(flows, events, steps, 6);
    assert(upload_next(flows[0], events[0], flows[1], steps[0]));
    assert(upload_next(flows[1], events[1], flows[2], steps[1]));
    assert(upload_next(flows[2], events[2], flows[3], steps[2]));
    assert(upload_next(flows[3], events[3], flows[4], steps[3]));
    assert(upload_next(flows[4], events[4], flows[5], steps[4]));
    assert(upload_next(flows[5], events[5], flows[6], steps[5]));
    assert(upload_next(flows[6], events[6], flows[7], steps[6]));
}

/// An upload answered 413 stopped at the quota check: it had only taken the
/// field, its bytes and the uploader's storage, and those bytes would have
/// taken the uploader beyond the limit. Nothing was written, recorded or
/// charged.
pub proof fn upload_refused_means_over_limit(flows: Seq<UploadFlow>, events: Seq<Event>, steps: Seq<Step>)
    requires
        upload_run(flows, events, steps),
        flows[0].stage == UploadStage::Start,
        events.len() > 0,
        forall|i: int| 0 <= i < events.len() - 1 ==> (#[trigger] steps[i]) is Perform,
        steps.last() == Step::Reply(Reply::Status(Status::PayloadTooLarge)),
    ensures
        events.len() == 4,
        steps[0] == Step::Perform(Action::NextField),
        steps[1] == Step::Perform(Action::ReadFieldBytes),
        steps[2] == Step::Perform(Action::FetchUser { user_id: flows[0].user_id }),
        events[2] matches Event::FieldBytes(Ok(data)) && events[3] matches Event::User(Ok(user))
            && user.storage_used + (data@.len() as i64) > user.storage_limit,
{
    let n = events.len() as int;
    lemma_upload_run_progress(flows, events, steps, n - 1);
    assert(upload_next(flows[n - 1], events[n - 1], flows[n], steps[n - 1]));
    assert(n == 4);
    lemma_upload_run_progress(flows, events, steps, 1);
    lemma_upload_run_progress(flows, events, steps, 2);
    assert(upload_next(flows[0], events[0], flows[1], steps[0]));
    assert(upload_next(flows[1], events[1], flows[2], steps[1]));
    assert(upload_next(flows[2], events[2], flows[3], steps[2]));
}

/// A run of a file deletion.
pub open spec fn delete_run(flows: Seq<DeleteFileFlow>, events: Seq<Event>, steps: Seq<Step>) -> bool {
    &&& flows.len() == events.len() + 1
    &&& steps.len() == events.len()
    &&& forall|i: int|
        #![trigger events[i]]
        0 <= i < events.len() ==> (flows[i + 1], steps[i]) == delete_step(flows[i], events[i])
}

/// The number of actions a deletion has asked for so far.
pub open spec fn delete_progress(s: DeleteStage) -> int {
    match s {
        DeleteStage::Start => 0,
        DeleteStage::Looking => 1,
        DeleteStage::Removing { .. } => 2,
        DeleteStage::DeletingRecord { .. } => 3,
        DeleteStage::Crediting => 4,
        DeleteStage::Done => 5,
    }
}

/// A deletion run either is still at the stage that counts its actions, all
/// of them performed, or has replied and is done.
proof fn lemma_delete_run_progress(flows: Seq<DeleteFileFlow>, events: Seq<Event>, steps: Seq<Step>, k: int)
    requires
        delete_run(flows, events, steps),
        flows[0].stage == DeleteStage::Start,
        0 <= k <= events.len(),
    ensures
        flows[k].user_id == flows[0].user_id,
        flows[k].file_id == flows[0].file_id,
        (forall|i: int| 0 <= i < k ==> (#[trigger] steps[i]) is Perform) ==> delete_progress(flows[k].stage) == k,
        (exists|i: int| 0 <= i < k && (#[trigger] steps[i]) is Reply) ==> flows[k].stage == DeleteStage::Done,
    decreases k,
{
    if k > 0 {
        lemma_delete_run_progress(flows, events, steps, k - 1);
        assert((flows[k], steps[k - 1]) == delete_step(flows[k - 1], events[k - 1]));
        if exists|i: int| 0 <= i < k && (#[trigger] steps[i]) is Reply {
            let i = choose|i: int| 0 <= i < k && (#[trigger] steps[i]) is Reply;
            if i < k - 1 {
                assert(exists|j: int| 0 <= j < k - 1 && (#[trigger] steps[j]) is Reply);
            }
        }
        if forall|i: int| 0 <= i < k ==> (#[trigger] steps[i]) is Perform {
            assert(forall|i: int| 0 <= i < k - 1 ==> (#[trigger] steps[i]) is Perform);
        }
    }
}

/// A deletion removes a record only after the lookup scoped to the caller
/// found it: the step that deletes the record is the third, it deletes the
/// requested id, the first step looked that id up among the caller's files,
/// the lookup found a record, and the second step removed that record's
/// stored bytes.
pub proof fn delete_removes_only_a_found_file(
    flows: Seq<DeleteFileFlow>,
    events: Seq<Event>,
    steps: Seq<Step>,
    k: int,
    id: u128,
)
    requires
        delete_run(flows, events, steps),
        flows[0].stage == DeleteStage::Start,
        0 <= k < events.len(),
        steps[k] == Step::Perform(Action::DeleteFileRecord { id }),
    ensures
        k == 2,
        id == flows[0].file_id,
        steps[0] == Step::Perform(Action::FindFile { id: flows[0].file_id, owner_id: flows[0].user_id }),
        events[1] matches Event::FileRow(Ok(Some(record))) && steps[1] == Step::Perform(
            Action::RemoveStoredFile { path: record.storage_path },
        ),
{
    lemma_delete_run_progress(flows, events, steps, k);
    assert((flows[k + 1], steps[k]) == delete_step(flows[k], events[k]));
    if exists|i: int| 0 <= i < k && (#[trigger] steps[i]) is Reply {
        assert(flows[k].stage == DeleteStage::Done);
        assert(false);
    }
    assert(forall|i: int| 0 <= i < k ==> (#[trigger] steps[i]) is Perform);
    assert(k == 2);
    lemma_delete_run_progress(flows, events, steps, 1);
    assert(forall|i: int| 0 <= i < 1 ==> (#[trigger] steps[i]) is Perform);
    assert((flows[1], steps[0]) == delete_step(flows[0], events[0]));
    assert((flows[2], steps[1]) == delete_step(flows[1], events[1]));
}

/// A deletion answered 204 looked the file up among the caller's, removed
/// its stored bytes, deleted its record and credited the caller with exactly
/// the size recorded for it.
pub proof fn delete_done_means_credited(flows: Seq<DeleteFileFlow>, events: Seq<Event>, steps: Seq<Step>)
    requires
        delete_run(flows, events, steps),
        flows[0].stage == DeleteStage::Start,
        events.len() > 0,
        forall|i: int| 0 <= i < events.len() - 1 ==> (#[trigger] steps[i]) is Perform,
        steps.last() == Step::Reply(Reply::Status(Status::NoContent)),
    ensures
        events.len() == 5,
        steps[0] == Step::Perform(Action::FindFile { id: flows[0].file_id, owner_id: flows[0].user_id }),
        events[1] matches Event::FileRow(Ok(Some(record))) && {
            &&& steps[1] == Step::Perform(Action::RemoveStoredFile { path: record.storage_path })
            &&& steps[2] == Step::Perform(Action::DeleteFileRecord { id: flows[0].file_id })
            &&& steps[3] == Step::Perform(Action::SubtractStorageUsed { user_id: flows[0].user_id, amount: record.size })
        },
{
    let n = events.len() as int;
    lemma_delete_run_progress(flows, events, steps, n - 1);
    assert((flows[n], steps[n - 1]) == delete_step(flows[n - 1], events[n - 1]));
    assert(n == 5);
    lemma_delete_run_progress(flows, events, steps, 1);
    lemma_delete_run_progress(flows, events, steps, 2);
    lemma_delete_run_progress(flows, events, steps, 3);
    assert(forall|i: int| 0 <= i < 1 ==> (#[trigger] steps[i]) is Perform);
    assert(forall|i: int| 0 <= i < 2 ==> (#[trigger] steps[i]) is Perform);
    assert(forall|i: int| 0 <= i < 3 ==> (#[trigger] steps[i]) is Perform);
    assert((flows[1], steps[0]) == delete_step(flows[0], events[0]));
    assert((flows[2], steps[1]) == delete_step(flows[1], events[1]));
    assert((flows[3], steps[2]) == delete_step(flows[2], events[2]));
    assert((flows[4], steps[3]) == delete_step(flows[3], events[3]));
}

/// The change to a user's bytes in use that one step asks for.
pub open spec fn storage_effect(s: Step) -> int {
    match s {
        Step::Perform(Action::AddStorageUsed { amount, .. }) => amount as int,
        Step::Perform(Action::SubtractStorageUsed { amount, .. }) => -(amount as int),
        _ => 0,
    }
}

/// The change to a user's bytes in use that the steps of a run ask for.
pub open spec fn storage_change(steps: Seq<Step>) -> int
    decreases steps.len(),
{
    if steps.len() == 0 {
        0
    } else {
        storage_change(steps.drop_last()) + storage_effect(steps.last())
    }
}

proof fn lemma_storage_change_unfold(steps: Seq<Step>, k: int)
    requires
        0 <= k <= steps.len(),
    ensures
        storage_change(steps.take(k)) == if k == 0 {
            0
        } else {
            storage_change(steps.take(k - 1)) + storage_effect(steps[k - 1])
        },
{
    if k > 0 {
        assert(steps.take(k).drop_last() =~= steps.take(k - 1));
    }
}

/// Deleting a file gives back what uploading it took: a successful upload
/// asks to charge its uploader exactly the bytes it wrote, a successful
/// deletion asks to credit exactly the size recorded for the file it found,
/// and when that recorded size is the one the upload inserted, the two
/// changes cancel.
pub proof fn delete_gives_back_what_upload_took(
    up_flows: Seq<UploadFlow>,
    up_events: Seq<Event>,
    up_steps: Seq<Step>,
    record: FileRecord,
    del_flows: Seq<DeleteFileFlow>,
    del_events: Seq<Event>,
    del_steps: Seq<Step>,
)
    requires
        upload_run(up_flows, up_events, up_steps),
        up_flows[0].stage == UploadStage::Start,
        up_events.len() > 0,
        forall|i: int| 0 <= i < up_events.len() - 1 ==> (#[trigger] up_steps[i]) is Perform,
        up_steps.last() == Step::Reply(Reply::CreatedFile(record)),
        delete_run(del_flows, del_events, del_steps),
        del_flows[0].stage == DeleteStage::Start,
        del_events.len() > 0,
        forall|i: int| 0 <= i < del_events.len() - 1 ==> (#[trigger] del_steps[i]) is Perform,
        del_steps.last() == Step::Reply(Reply::Status(Status::NoContent)),
        del_events[1] matches Event::FileRow(Ok(Some(found))) && up_steps[5] matches Step::Perform(
            Action::InsertFile { file },
        ) && found.size == file.size,
    ensures
        up_events[2] matches Event::FieldBytes(Ok(data)) && storage_change(up_steps) == data@.len() as i64,
        storage_change(up_steps) + storage_change(del_steps) == 0,
{
    upload_created_means_stored_and_charged(up_flows, up_events, up_steps, record);
    delete_done_means_credited(del_flows, del_events, del_steps);
    assert(up_steps.take(8) =~= up_steps);
    assert(del_steps.take(5) =~= del_steps);
    lemma_storage_change_unfold(up_steps, 0);
    lemma_storage_change_unfold(up_steps, 1);
    lemma_storage_change_unfold(up_steps, 2);
    lemma_storage_change_unfold(up_steps, 3);
    lemma_storage_change_unfold(up_steps, 4);
    lemma_storage_change_unfold(up_steps, 5);
    lemma_storage_change_unfold(up_steps, 6);
    lemma_storage_change_unfold(up_steps, 7);
    lemma_storage_change_unfold(up_steps, 8);
    lemma_storage_change_unfold(del_steps, 0);
    lemma_storage_change_unfold(del_steps, 1);
    lemma_storage_change_unfold(del_steps, 2);
    lemma_storage_change_unfold(del_steps, 3);
    lemma_storage_change_unfold(del_steps, 4);
    lemma_storage_change_unfold(del_steps, 5);
}

/// A run of a download.
pub open spec fn download_run(flows: Seq<DownloadFlow>, events: Seq<Event>, steps: Seq<Step>) -> bool {
    &&& flows.len() == events.len() + 1
    &&& steps.len() == events.len()
    &&& forall|i: int|
        #![trigger events[i]]
        0 <= i < events.len() ==> download_next(flows[i], events[i], flows[i + 1], steps[i])
}

/// The number of actions a download has asked for so far.
pub open spec fn download_progress(s: DownloadStage) -> int {
    match s {
        DownloadStage::Start => 0,
        DownloadStage::Looking => 1,
        DownloadStage::Reading { .. } => 2,
        DownloadStage::Done => 3,
    }
}

proof fn lemma_download_run_progress(flows: Seq<DownloadFlow>, events: Seq<Event>, steps: Seq<Step>, k: int)
    requires
        download_run(flows, events, steps),
        flows[0].stage == DownloadStage::Start,
        0 <= k <= events.len(),
        forall|i: int| 0 <= i < k ==> (#[trigger] steps[i]) is Perform,
    ensures
        download_progress(flows[k].stage) == k,
        flows[k].user_id == flows[0].user_id,
        flows[k].file_id == flows[0].file_id,
    decreases k,
{
    if k > 0 {
        lemma_download_run_progress(flows, events, steps, k - 1);
        assert(steps[k - 1] is Perform);
        assert(download_next(flows[k - 1], events[k - 1], flows[k], steps[k - 1]));
    }
}

/// A download that sends bytes sends those of a file found among the
/// caller's: it looked the requested id up for the caller, read the stored
/// path of the record found, and sent exactly the bytes read, with the
/// recorded type, as an attachment under the recorded original name.
pub proof fn download_sends_a_found_file(
    flows: Seq<DownloadFlow>,
    events: Seq<Event>,
    steps: Seq<Step>,
    content_type: String,
    content_disposition: String,
    body: Vec<u8>,
)
    requires
        download_run(flows, events, steps),
        flows[0].stage == DownloadStage::Start,
        events.len() > 0,
        forall|i: int| 0 <= i < events.len() - 1 ==> (#[trigger] steps[i]) is Perform,
        steps.last() == Step::Reply(Reply::Download { content_type, content_disposition, body }),
    ensures
        events.len() == 3,
        steps[0] == Step::Perform(Action::FindFile { id: flows[0].file_id, owner_id: flows[0].user_id }),
        events[1] matches Event::FileRow(Ok(Some(record))) && {
            &&& steps[1] == Step::Perform(Action::ReadStoredFile { path: record.storage_path })
            &&& content_type == record.mime_type
            &&& content_disposition@ == attachment_header(record.original_name@)
        },
        events[2] == Event::StoredBytes(Ok(body)),
{
    let n = events.len() as int;
    lemma_download_run_progress(flows, events, steps, n - 1);
    assert(download_next(flows[n - 1], events[n - 1], flows[n], steps[n - 1]));
    assert(n == 3);
    lemma_download_run_progress(flows, events, steps, 1);
    lemma_download_run_progress(flows, events, steps, 2);
    assert(download_next(flows[0], events[0], flows[1], steps[0]));
    assert(download_next(flows[1], events[1], flows[2], steps[1]));
}

/// Before its reply an upload run counts its actions; after it, it is done.
proof fn lemma_upload_run_shape(flows: Seq<UploadFlow>, events: Seq<Event>, steps: Seq<Step>, k: int)
    requires
        upload_run(flows, events, steps),
        flows[0].stage == UploadStage::Start,
        0 <= k <= events.len(),
    ensures
        (forall|i: int| 0 <= i < k ==> (#[trigger] steps[i]) is Perform) ==> upload_progress(flows[k].stage) == k,
        (exists|i: int| 0 <= i < k && (#[trigger] steps[i]) is Reply) ==> flows[k].stage == UploadStage::Done,
    decreases k,
{
    if k > 0 {
        lemma_upload_run_shape(flows, events, steps, k - 1);
        assert(upload_next(flows[k - 1], events[k - 1], flows[k], steps[k - 1]));
        if exists|i: int| 0 <= i < k && (#[trigger] steps[i]) is Reply {
            let i = choose|i: int| 0 <= i < k && (#[trigger] steps[i]) is Reply;
            if i < k - 1 {
                assert(exists|j: int| 0 <= j < k - 1 && (#[trigger] steps[j]) is Reply);
            }
        }
        if forall|i: int| 0 <= i < k ==> (#[trigger] steps[i]) is Perform {
            assert(forall|i: int| 0 <= i < k - 1 ==> (#[trigger] steps[i]) is Perform);
        }
    }
}

/// An upload reads only the first part of the multipart body: the only
/// step that takes a part is the first, and the only step that reads a
/// part's bytes is the second.
pub proof fn upload_reads_only_the_first_part(flows: Seq<UploadFlow>, events: Seq<Event>, steps: Seq<Step>, k: int)
    requires
        upload_run(flows, events, steps),
        flows[0].stage == UploadStage::Start,
        0 <= k < events.len(),
        steps[k] == Step::Perform(Action::NextField) || steps[k] == Step::Perform(Action::ReadFieldBytes),
    ensures
        steps[k] == Step::Perform(Action::NextField) ==> k == 0,
        steps[k] == Step::Perform(Action::ReadFieldBytes) ==> k == 1,
{
    lemma_upload_run_shape(flows, events, steps, k);
    assert(upload_next(flows[k], events[k], flows[k + 1], steps[k]));
    if exists|i: int| 0 <= i < k && (#[trigger] steps[i]) is Reply {
        assert(flows[k].stage == UploadStage::Done);
        assert(false);
    }
    assert(forall|i: int| 0 <= i < k ==> (#[trigger] steps[i]) is Perform);
}

/// What a 201 upload served by the store leaves in it: a new row of the
/// caller, of the size of the bytes read, recorded under a fresh id; those
/// bytes at the row's path; the caller's bytes in use raised by exactly the
/// row's size and still within the limit; nothing else changed.
pub proof fn upload_effect_on_the_store(
    flows: Seq<UploadFlow>,
    events: Seq<Event>,
    steps: Seq<Step>,
    stores: Seq<Store>,
    record: FileRecord,
)
    requires
        upload_run(flows, events, steps),
        flows[0].stage == UploadStage::Start,
        served(stores, events, steps),
        steps.last() == Step::Reply(Reply::CreatedFile(record)),
    ensures
        events.len() == 8,
        record.owner_id == flows[0].user_id,
        events[2] matches Event::FieldBytes(Ok(data)) && {
            &&& record.size == data@.len() as i64
            &&& stores.last().disk == stores[0].disk.insert(record.storage_path@, data@)
        },
        !stores[0].files.contains_key(record.id),
        stores.last().files == stores[0].files.insert(record.id, record),
        stores.last().folders == stores[0].folders,
        stores[0].users.contains_key(flows[0].user_id),
        stores.last().users == stores[0].users.insert(
            flows[0].user_id,
            UserStorage {
                storage_used: (stores[0].users[flows[0].user_id].storage_used + record.size) as i64,
                ..stores[0].users[flows[0].user_id]
            },
        ),
        stores.last().users[flows[0].user_id].storage_used
            == stores[0].users[flows[0].user_id].storage_used + record.size,
        stores.last().users[flows[0].user_id].storage_used <= stores.last().users[flows[0].user_id].storage_limit,
{
    assert forall|i: int| 0 <= i < events.len() - 1 implies (#[trigger] steps[i]) is Perform by {
        assert(steps[i] matches Step::Perform(_));
    }
    upload_created_means_stored_and_charged(flows, events, steps, record);
    assert(steps[0] matches Step::Perform(_));
    assert(steps[1] matches Step::Perform(_));
    assert(steps[2] matches Step::Perform(_));
    assert(steps[3] matches Step::Perform(_));
    assert(steps[4] matches Step::Perform(_));
    assert(steps[5] matches Step::Perform(_));
    assert(steps[6] matches Step::Perform(_));
    assert(stores[3] == stores[0]);
    assert(stores[4] == stores[0]);
    assert(stores.last() == stores[7]);
}

/// What the store answers to a download by `user` of `file_id`, when the
/// file is one of the caller's and its bytes are on disk: the recorded type,
/// the recorded original name, and the stored bytes.
proof fn lemma_download_served(
    flows: Seq<DownloadFlow>,
    events: Seq<Event>,
    steps: Seq<Step>,
    stores: Seq<Store>,
    record: FileRecord,
)
    requires
        download_run(flows, events, steps),
        flows[0].stage == DownloadStage::Start,
        served(stores, events, steps),
        owned_file(stores[0], flows[0].file_id, flows[0].user_id) == Some(record),
        stores[0].disk.contains_key(record.storage_path@),
    ensures
        steps.last() matches Step::Reply(Reply::Download { content_type, content_disposition, body }) && {
            &&& content_type == record.mime_type
            &&& content_disposition@ == attachment_header(record.original_name@)
            &&& body@ == stores[0].disk[record.storage_path@]
        },
{
    let n = events.len() as int;
    assert(download_next(flows[0], events[0], flows[1], steps[0]));
    if n == 1 {
        assert(steps.last() == steps[0]);
        assert(false);
    }
    assert(steps[0] matches Step::Perform(_));
    assert(download_next(flows[1], events[1], flows[2], steps[1]));
    if n == 2 {
        assert(steps.last() == steps[1]);
        assert(false);
    }
    assert(steps[1] matches Step::Perform(_));
    assert(stores[1] == stores[0]);
    assert(download_next(flows[2], events[2], flows[3], steps[2]));
    if n > 3 {
        assert(steps[2] matches Step::Perform(_));
        assert(false);
    }
    assert(steps.last() == steps[2]);
}

/// Downloading a file right after uploading it gives back what was
/// uploaded: the bytes of the first part, under the recorded type, as an
/// attachment named after the part.
pub proof fn download_after_upload_gives_back_the_bytes(
    up_flows: Seq<UploadFlow>,
    up_events: Seq<Event>,
    up_steps: Seq<Step>,
    up_stores: Seq<Store>,
    record: FileRecord,
    flows: Seq<DownloadFlow>,
    events: Seq<Event>,
    steps: Seq<Step>,
    stores: Seq<Store>,
)
    requires
        upload_run(up_flows, up_events, up_steps),
        up_flows[0].stage == UploadStage::Start,
        served(up_stores, up_events, up_steps),
        up_steps.last() == Step::Reply(Reply::CreatedFile(record)),
        download_run(flows, events, steps),
        flows[0] == (DownloadFlow { user_id: up_flows[0].user_id, file_id: record.id, stage: DownloadStage::Start }),
        served(stores, events, steps),
        stores[0] == up_stores.last(),
    ensures
        up_events[2] matches Event::FieldBytes(Ok(data)) && steps.last() matches Step::Reply(
            Reply::Download { content_type, content_disposition, body },
        ) && {
            &&& body@ == data@
            &&& content_type == record.mime_type
            &&& content_disposition@ == attachment_header(record.original_name@)
        },
{
    upload_effect_on_the_store(up_flows, up_events, up_steps, up_stores, record);
    assert(stores[0].files[record.id] == record);
    lemma_download_served(flows, events, steps, stores, record);
}

/// What a 204 deletion served by the store leaves in it: the caller's row
/// is gone, its stored bytes are gone, the caller's bytes in use are lowered
/// by exactly its recorded size, nothing else changed.
pub proof fn delete_effect_on_the_store(
    flows: Seq<DeleteFileFlow>,
    events: Seq<Event>,
    steps: Seq<Step>,
    stores: Seq<Store>,
)
    requires
        delete_run(flows, events, steps),
        flows[0].stage == DeleteStage::Start,
        served(stores, events, steps),
        steps.last() == Step::Reply(Reply::Status(Status::NoContent)),
    ensures
        events.len() == 5,
        owned_file(stores[0], flows[0].file_id, flows[0].user_id) matches Some(found) && {
            &&& stores.last().files == stores[0].files.remove(flows[0].file_id)
            &&& stores.last().disk == stores[0].disk.remove(found.storage_path@)
            &&& stores[0].users.contains_key(flows[0].user_id)
            &&& stores.last().users == stores[0].users.insert(
                flows[0].user_id,
                UserStorage {
                    storage_used: (stores[0].users[flows[0].user_id].storage_used - found.size) as i64,
                    ..stores[0].users[flows[0].user_id]
                },
            )
            &&& stores.last().users[flows[0].user_id].storage_used
                == stores[0].users[flows[0].user_id].storage_used - found.size
        },
        stores.last().folders == stores[0].folders,
{
    assert forall|i: int| 0 <= i < events.len() - 1 implies (#[trigger] steps[i]) is Perform by {
        assert(steps[i] matches Step::Perform(_));
    }
    delete_done_means_credited(flows, events, steps);
    assert(steps[0] matches Step::Perform(_));
    assert(steps[1] matches Step::Perform(_));
    assert(steps[2] matches Step::Perform(_));
    assert(steps[3] matches Step::Perform(_));
    assert(stores[1] == stores[0]);
    assert(stores.last() == stores[4]);
}

/// Deleting a file a second time finds nothing: the second deletion answers
/// 404 after its lookup and changes nothing, so the caller is not credited
/// twice.
pub proof fn second_delete_finds_nothing(
    flows: Seq<DeleteFileFlow>,
    events: Seq<Event>,
    steps: Seq<Step>,
    stores: Seq<Store>,
    again: Seq<DeleteFileFlow>,
    again_events: Seq<Event>,
    again_steps: Seq<Step>,
    again_stores: Seq<Store>,
)
    requires
        delete_run(flows, events, steps),
        flows[0].stage == DeleteStage::Start,
        served(stores, events, steps),
        steps.last() == Step::Reply(Reply::Status(Status::NoContent)),
        delete_run(again, again_events, again_steps),
        again[0] == flows[0],
        served(again_stores, again_events, again_steps),
        again_stores[0] == stores.last(),
    ensures
        again_events.len() == 2,
        again_steps[0] == Step::Perform(Action::FindFile { id: flows[0].file_id, owner_id: flows[0].user_id }),
        again_steps.last() == Step::Reply(Reply::Status(Status::NotFound)),
        again_stores.last() == again_stores[0],
{
    delete_effect_on_the_store(flows, events, steps, stores);
    let n = again_events.len() as int;
    assert((again[1], again_steps[0]) == delete_step(again[0], again_events[0]));
    if n == 1 {
        assert(again_steps.last() == again_steps[0]);
        assert(false);
    }
    assert(again_steps[0] matches Step::Perform(_));
    assert(!again_stores[0].files.contains_key(flows[0].file_id));
    assert((again[2], again_steps[1]) == delete_step(again[1], again_events[1]));
    if n > 2 {
        assert(again_steps[1] matches Step::Perform(_));
        assert(false);
    }
    assert(again_steps.last() == again_steps[1]);
}

/// Deleting a file right after uploading it restores the store: the rows
/// and every user's accounting are as before the upload, and so are the
/// stored bytes unless the new file's path already held some.
pub proof fn delete_after_upload_restores_the_store(
    up_flows: Seq<UploadFlow>,
    up_events: Seq<Event>,
    up_steps: Seq<Step>,
    up_stores: Seq<Store>,
    record: FileRecord,
    flows: Seq<DeleteFileFlow>,
    events: Seq<Event>,
    steps: Seq<Step>,
    stores: Seq<Store>,
)
    requires
        upload_run(up_flows, up_events, up_steps),
        up_flows[0].stage == UploadStage::Start,
        served(up_stores, up_events, up_steps),
        up_steps.last() == Step::Reply(Reply::CreatedFile(record)),
        delete_run(flows, events, steps),
        flows[0] == (DeleteFileFlow { user_id: up_flows[0].user_id, file_id: record.id, stage: DeleteStage::Start }),
        served(stores, events, steps),
        stores[0] == up_stores.last(),
    ensures
        steps.last() == Step::Reply(Reply::Status(Status::NoContent)),
        stores.last().files == up_stores[0].files,
        stores.last().users == up_stores[0].users,
        stores.last().folders == up_stores[0].folders,
        !up_stores[0].disk.contains_key(record.storage_path@) ==> stores.last().disk == up_stores[0].disk,
{
    upload_effect_on_the_store(up_flows, up_events, up_steps, up_stores, record);
    let s0 = up_stores[0];
    let s1 = stores[0];
    let u = up_flows[0].user_id;
    assert(owned_file(s1, record.id, u) == Some(record));
    // The deletion runs its course: found, removed, deleted, credited.
    let n = events.len() as int;
    assert((flows[1], steps[0]) == delete_step(flows[0], events[0]));
    if n == 1 {
        assert(steps.last() == steps[0]);
        assert(false);
    }
    assert(steps[0] matches Step::Perform(_));
    assert((flows[2], steps[1]) == delete_step(flows[1], events[1]));
    if n == 2 {
        assert(steps.last() == steps[1]);
        assert(false);
    }
    assert(steps[1] matches Step::Perform(_));
    assert((flows[3], steps[2]) == delete_step(flows[2], events[2]));
    if n == 3 {
        assert(steps.last() == steps[2]);
        assert(false);
    }
    assert(steps[2] matches Step::Perform(_));
    assert((flows[4], steps[3]) == delete_step(flows[3], events[3]));
    if n == 4 {
        assert(steps.last() == steps[3]);
        assert(false);
    }
    assert(steps[3] matches Step::Perform(_));
    assert((flows[5], steps[4]) == delete_step(flows[4], events[4]));
    if n > 5 {
        assert(steps[4] matches Step::Perform(_));
        assert(false);
    }
    assert(steps.last() == steps[4]);
    delete_effect_on_the_store(flows, events, steps, stores);
    assert(stores.last().files =~= s0.files);
    let old_user = s0.users[u];
    assert(stores.last().users[u] == old_user);
    assert(stores.last().users =~= s0.users);
    if !s0.disk.contains_key(record.storage_path@) {
        assert(stores.last().disk =~= s0.disk);
    }
}

/// The reply of a single-query file handler served by the store: its first
/// step asks for an action, the store performs it on `before`, answering
/// `answer` and leaving `after`.
pub open spec fn query_served(first: Step, before: Store, answer: Event, after: Store) -> bool {
    first matches Step::Perform(a) && executes(before, a, answer, after)
}

/// Renaming a file changes only its name: a download after the rename
/// still sends the recorded bytes under the recorded type, as an attachment
/// named after the name the file was uploaded with, not the new name.
pub proof fn download_after_rename_keeps_the_original_name(
    rename_flow: RenameFileFlow,
    before: Store,
    answer: Event,
    renamed: Store,
    flows: Seq<DownloadFlow>,
    events: Seq<Event>,
    steps: Seq<Step>,
    stores: Seq<Store>,
)
    requires
        rename_flow.stage == QueryStage::Start,
        query_served(rename_step(rename_flow, Event::Begin).1, before, answer, renamed),
        rename_step(rename_step(rename_flow, Event::Begin).0, answer).1 matches Step::Reply(Reply::File(_)),
        download_run(flows, events, steps),
        flows[0] == (DownloadFlow {
            user_id: rename_flow.user_id,
            file_id: rename_flow.file_id,
            stage: DownloadStage::Start,
        }),
        served(stores, events, steps),
        stores[0] == renamed,
        before.disk.contains_key(before.files[rename_flow.file_id].storage_path@),
    ensures
        steps.last() matches Step::Reply(Reply::Download { content_type, content_disposition, body }) && {
            let old = before.files[rename_flow.file_id];
            &&& content_type == old.mime_type
            &&& content_disposition@ == attachment_header(old.original_name@)
            &&& body@ == before.disk[old.storage_path@]
        },
{
    let id = rename_flow.file_id;
    let old = before.files[id];
    assert(owned_file(before, id, rename_flow.user_id) is Some);
    let r = renamed.files[id];
    assert(owned_file(renamed, id, rename_flow.user_id) == Some(r));
    lemma_download_served(flows, events, steps, stores, r);
}

/// Renaming a file twice to the same name gives back the same record but
/// for its `updated_at`, and the second rename changes nothing else.
pub proof fn rename_again_changes_nothing_but_the_time(
    flow: RenameFileFlow,
    s0: Store,
    answer1: Event,
    s1: Store,
    answer2: Event,
    s2: Store,
    first: FileRecord,
    second: FileRecord,
)
    requires
        flow.stage == QueryStage::Start,
        query_served(rename_step(flow, Event::Begin).1, s0, answer1, s1),
        rename_step(rename_step(flow, Event::Begin).0, answer1).1 == Step::Reply(Reply::File(first)),
        query_served(rename_step(flow, Event::Begin).1, s1, answer2, s2),
        rename_step(rename_step(flow, Event::Begin).0, answer2).1 == Step::Reply(Reply::File(second)),
    ensures
        second == (FileRecord { updated_at: second.updated_at, ..first }),
        s2 == (Store { files: s1.files.insert(flow.file_id, second), ..s1 }),
{
}

/// A listing gives exactly the caller's files in the folder asked for,
/// changes nothing, and so does not depend on other users' rows: two stores
/// that hold the same files for the caller give listings with the same
/// rows.
pub proof fn list_gives_only_the_callers_files(
    flow: ListFilesFlow,
    s: Store,
    answer: Event,
    s_after: Store,
    t: Store,
    other_answer: Event,
    t_after: Store,
    rows: Vec<FileRecord>,
    other_rows: Vec<FileRecord>,
)
    requires
        flow.stage == QueryStage::Start,
        query_served(list_step(flow, Event::Begin).1, s, answer, s_after),
        list_step(list_step(flow, Event::Begin).0, answer).1 == Step::Reply(Reply::Files(rows)),
        query_served(list_step(flow, Event::Begin).1, t, other_answer, t_after),
        list_step(list_step(flow, Event::Begin).0, other_answer).1 == Step::Reply(Reply::Files(other_rows)),
        forall|id: u128| #[trigger] owned_file(s, id, flow.user_id) == owned_file(t, id, flow.user_id),
    ensures
        s_after == s,
        forall|r: FileRecord| #[trigger] rows@.contains(r) ==> r.owner_id == flow.user_id && r.folder_id == flow.folder_id,
        forall|r: FileRecord| #[trigger] rows@.contains(r) <==> other_rows@.contains(r),
{
    assert forall|r: FileRecord| #[trigger] rows@.contains(r) <==> other_rows@.contains(r) by {
        if rows@.contains(r) {
            let id = choose|id: u128|
                s.files.contains_key(id) && #[trigger] s.files[id] == r && r.owner_id == flow.user_id && r.folder_id
                    == flow.folder_id;
            assert(owned_file(s, id, flow.user_id) == owned_file(t, id, flow.user_id));
            assert(t.files[id] == r);
        }
        if other_rows@.contains(r) {
            let id = choose|id: u128|
                t.files.contains_key(id) && #[trigger] t.files[id] == r && r.owner_id == flow.user_id && r.folder_id
                    == flow.folder_id;
            assert(owned_file(s, id, flow.user_id) == owned_file(t, id, flow.user_id));
            assert(s.files[id] == r);
        }
    }
}

/// After a file is moved, a listing of its new folder holds it and a
/// listing of its old folder does not.
pub proof fn list_after_move_sees_the_file_in_its_new_folder(
    move_flow: MoveFileFlow,
    before: Store,
    answer: Event,
    moved: Store,
    record: FileRecord,
    list_flow: ListFilesFlow,
    list_answer: Event,
    listed: Store,
    rows: Vec<FileRecord>,
)
    requires
        move_flow.stage == QueryStage::Start,
        query_served(move_step(move_flow, Event::Begin).1, before, answer, moved),
        move_step(move_step(move_flow, Event::Begin).0, answer).1 == Step::Reply(Reply::File(record)),
        list_flow.stage == QueryStage::Start,
        list_flow.user_id == move_flow.user_id,
        query_served(list_step(list_flow, Event::Begin).1, moved, list_answer, listed),
        list_step(list_step(list_flow, Event::Begin).0, list_answer).1 == Step::Reply(Reply::Files(rows)),
    ensures
        moved.files[move_flow.file_id] == record,
        record.folder_id == move_flow.folder_id,
        list_flow.folder_id == move_flow.folder_id ==> rows@.contains(record),
        list_flow.folder_id != move_flow.folder_id ==> !rows@.contains(record),
{
    let id = move_flow.file_id;
    assert(moved.files.contains_key(id) && moved.files[id] == record);
    if list_flow.folder_id == move_flow.folder_id {
        assert(moved.files[id] == record && record.owner_id == list_flow.user_id);
    }
}

/// A 201 upload keeps each user's accounting right: where a user's bytes in
/// use were the sum of the sizes of their files, they still are.
pub proof fn upload_keeps_storage_accounted(
    flows: Seq<UploadFlow>,
    events: Seq<Event>,
    steps: Seq<Step>,
    stores: Seq<Store>,
    record: FileRecord,
    user: u128,
)
    requires
        upload_run(flows, events, steps),
        flows[0].stage == UploadStage::Start,
        served(stores, events, steps),
        steps.last() == Step::Reply(Reply::CreatedFile(record)),
        accounts_for(stores[0], user),
    ensures
        accounts_for(stores.last(), user),
{
    upload_effect_on_the_store(flows, events, steps, stores, record);
    lemma_owned_bytes_insert(stores[0].files, user, record.id, record);
}

/// A 204 deletion keeps each user's accounting right: where a user's bytes
/// in use were the sum of the sizes of their files, they still are.
pub proof fn delete_keeps_storage_accounted(
    flows: Seq<DeleteFileFlow>,
    events: Seq<Event>,
    steps: Seq<Step>,
    stores: Seq<Store>,
    user: u128,
)
    requires
        delete_run(flows, events, steps),
        flows[0].stage == DeleteStage::Start,
        served(stores, events, steps),
        steps.last() == Step::Reply(Reply::Status(Status::NoContent)),
        accounts_for(stores[0], user),
    ensures
        accounts_for(stores.last(), user),
{
    delete_effect_on_the_store(flows, events, steps, stores);
    let id = flows[0].file_id;
    let found = stores[0].files[id];
    let rest = stores[0].files.remove(id);
    assert(rest.insert(id, found) =~= stores[0].files);
    lemma_owned_bytes_insert(rest, user, id, found);
}

/// An upload served by the store that is not answered 201 changes nothing:
/// when every action succeeds, an upload is refused only for a missing or
/// unreadable part or for the storage limit, all before it writes, records
/// or charges anything.
pub proof fn refused_upload_changes_nothing(
    flows: Seq<UploadFlow>,
    events: Seq<Event>,
    steps: Seq<Step>,
    stores: Seq<Store>,
)
    requires
        upload_run(flows, events, steps),
        flows[0].stage == UploadStage::Start,
        served(stores, events, steps),
        !(steps.last() matches Step::Reply(Reply::CreatedFile(_))),
    ensures
        events.len() <= 4,
        stores.last() == stores[0],
{
    let n = events.len() as int;
    assert forall|i: int| 0 <= i < n - 1 implies (#[trigger] steps[i]) is Perform by {
        assert(steps[i] matches Step::Perform(_));
    }
    lemma_upload_run_progress(flows, events, steps, n - 1);
    assert(upload_next(flows[n - 1], events[n - 1], flows[n], steps[n - 1]));
    if n >= 5 {
        lemma_upload_run_progress(flows, events, steps, n - 2);
        assert(upload_next(flows[n - 2], events[n - 2], flows[n - 1], steps[n - 2]));
        assert(steps[n - 2] matches Step::Perform(_));
        assert(false);
    }
    if n >= 2 {
        assert(steps[0] matches Step::Perform(_));
        assert(upload_next(flows[0], events[0], flows[1], steps[0]));
    }
    if n >= 3 {
        assert(steps[1] matches Step::Perform(_));
        lemma_upload_run_progress(flows, events, steps, 1);
        assert(upload_next(flows[1], events[1], flows[2], steps[1]));
    }
    if n >= 4 {
        assert(steps[2] matches Step::Perform(_));
        lemma_upload_run_progress(flows, events, steps, 2);
        assert(upload_next(flows[2], events[2], flows[3], steps[2]));
    }
    assert(stores.last() == stores[n - 1]);
}

// ------------------------------------------------------------ what each step answers

/// What each step of an upload answers, for every flow and every outcome:
/// the first part is asked for, then its bytes, then the uploader's
/// storage; a missing or unreadable part is a bad request; the part is
/// refused with 413 exactly when it would take the uploader beyond the
/// limit, and otherwise the directory is created, whatever the part's
/// size; then the bytes are written, the row inserted and the size charged,
/// and the reply is 201 with the row the database returned. Every failed
/// action after the part was read is an internal error.
pub proof fn upload_answers()
    ensures
        forall|f: UploadFlow, e: Event, g: UploadFlow, s: Step| #[trigger] upload_next(f, e, g, s) ==> {
            &&& f.stage == UploadStage::Start ==> s == Step::Perform(Action::NextField)
            &&& (f.stage == UploadStage::AwaitingField && e matches Event::Field(Ok(Some(_))))
                ==> s == Step::Perform(Action::ReadFieldBytes)
            &&& (f.stage == UploadStage::AwaitingField && (e == Event::Field(Ok(None)) || e == Event::Field(Err(()))))
                ==> s == Step::Reply(Reply::Status(Status::BadRequest))
            &&& (f.stage is AwaitingBytes && e matches Event::FieldBytes(Ok(_)))
                ==> s == Step::Perform(Action::FetchUser { user_id: f.user_id })
            &&& (f.stage is AwaitingBytes && e == Event::FieldBytes(Err(())))
                ==> s == Step::Reply(Reply::Status(Status::BadRequest))
            &&& (f.stage matches UploadStage::AwaitingUser { data, .. } && e matches Event::User(Ok(user))
                && user.storage_used + (data@.len() as i64) > user.storage_limit)
                ==> s == Step::Reply(Reply::Status(Status::PayloadTooLarge))
            &&& (f.stage matches UploadStage::AwaitingUser { data, .. } && e matches Event::User(Ok(user))
                && user.storage_used + (data@.len() as i64) <= user.storage_limit)
                ==> (s matches Step::Perform(Action::CreateDirAll { path }) && path@ == user_dir(
                f.upload_dir@,
                f.user_id,
            ) && g.stage is MakingDir)
            &&& (f.stage is AwaitingUser && e == Event::User(Err(())))
                ==> s == Step::Reply(Reply::Status(Status::InternalServerError))
            &&& f.stage matches UploadStage::MakingDir { file, data } ==> (e == Event::Stored(Ok(()))
                ==> s == Step::Perform(Action::WriteNewFile { path: file.storage_path, data }))
            &&& f.stage matches UploadStage::Writing { file } ==> (e == Event::Stored(Ok(()))
                ==> s == Step::Perform(Action::InsertFile { file }))
            &&& ((f.stage is MakingDir || f.stage is Writing) && e == Event::Stored(Err(())))
                ==> s == Step::Reply(Reply::Status(Status::InternalServerError))
            &&& f.stage matches UploadStage::Inserting { size } ==> (e matches Event::FileInserted(Ok(_))
                ==> s == Step::Perform(Action::AddStorageUsed { user_id: f.user_id, amount: size }))
            &&& (f.stage is Inserting && e == Event::FileInserted(Err(())))
                ==> s == Step::Reply(Reply::Status(Status::InternalServerError))
            &&& f.stage matches UploadStage::Charging { record } ==> (e matches Event::Executed(Ok(_))
                ==> s == Step::Reply(Reply::CreatedFile(record)))
            &&& (f.stage is Charging && e == Event::Executed(Err(())))
                ==> s == Step::Reply(Reply::Status(Status::InternalServerError))
        },
{
}

/// What each step of a file listing answers: it asks for the caller's files
/// in the folder asked for, and replies with exactly the rows the query
/// returned, however many, even none.
pub proof fn file_list_answers()
    ensures
        forall|f: ListFilesFlow, e: Event|
            f.stage == QueryStage::Start ==> #[trigger] list_step(f, e).1 == Step::Perform(
                Action::ListFiles { owner_id: f.user_id, folder_id: f.folder_id },
            ),
        forall|f: ListFilesFlow, rows: Vec<FileRecord>|
            f.stage == QueryStage::Awaiting ==> #[trigger] list_step(f, Event::FileRows(Ok(rows))).1 == Step::Reply(
                Reply::Files(rows),
            ),
        forall|f: ListFilesFlow|
            f.stage == QueryStage::Awaiting ==> #[trigger] list_step(f, Event::FileRows(Err(()))).1 == Step::Reply(
                Reply::Status(Status::InternalServerError),
            ),
{
}

/// What each step of a download answers: the caller's file is looked up;
/// no such file is 404; a found file's stored bytes are read, and sent with
/// the recorded type as an attachment under the recorded original name.
pub proof fn download_answers()
    ensures
        forall|f: DownloadFlow, e: Event, g: DownloadFlow, s: Step| #[trigger] download_next(f, e, g, s) ==> {
            &&& f.stage == DownloadStage::Start ==> s == Step::Perform(
                Action::FindFile { id: f.file_id, owner_id: f.user_id },
            )
            &&& f.stage == DownloadStage::Looking ==> (e matches Event::FileRow(Ok(Some(record)))
                ==> s == Step::Perform(Action::ReadStoredFile { path: record.storage_path }))
            &&& (f.stage == DownloadStage::Looking && e == Event::FileRow(Ok(None)))
                ==> s == Step::Reply(Reply::Status(Status::NotFound))
            &&& (f.stage == DownloadStage::Looking && e == Event::FileRow(Err(())))
                ==> s == Step::Reply(Reply::Status(Status::InternalServerError))
            &&& f.stage matches DownloadStage::Reading { mime_type, original_name } ==> (e matches Event::StoredBytes(
                Ok(bytes),
            ) ==> (s matches Step::Reply(Reply::Download { content_type, content_disposition, body })
                && content_type == mime_type && content_disposition@ == attachment_header(original_name@) && body
                == bytes))
            &&& (f.stage is Reading && e == Event::StoredBytes(Err(())))
                ==> s == Step::Reply(Reply::Status(Status::InternalServerError))
        },
{
}

/// What each step of a file deletion answers: the caller's file is looked
/// up; no such file is 404; a found file's stored bytes are removed,
/// whatever comes of that, its record deleted, its recorded size credited,
/// and the reply is 204.
pub proof fn delete_answers()
    ensures
        forall|f: DeleteFileFlow, e: Event|
            f.stage == DeleteStage::Start ==> #[trigger] delete_step(f, e).1 == Step::Perform(
                Action::FindFile { id: f.file_id, owner_id: f.user_id },
            ),
        forall|f: DeleteFileFlow, r: FileRecord|
            f.stage == DeleteStage::Looking ==> #[trigger] delete_step(f, Event::FileRow(Ok(Some(r)))).1
                == Step::Perform(Action::RemoveStoredFile { path: r.storage_path }),
        forall|f: DeleteFileFlow|
            f.stage == DeleteStage::Looking ==> #[trigger] delete_step(f, Event::FileRow(Ok(None))).1 == Step::Reply(
                Reply::Status(Status::NotFound),
            ),
        forall|f: DeleteFileFlow, e: Event|
            f.stage is Removing ==> #[trigger] delete_step(f, e).1 == Step::Perform(
                Action::DeleteFileRecord { id: f.file_id },
            ),
        forall|f: DeleteFileFlow, rows: u64|
            f.stage matches DeleteStage::DeletingRecord { size } ==> #[trigger] delete_step(
                f,
                Event::Executed(Ok(rows)),
            ).1 == Step::Perform(Action::SubtractStorageUsed { user_id: f.user_id, amount: size }),
        forall|f: DeleteFileFlow, rows: u64|
            f.stage == DeleteStage::Crediting ==> #[trigger] delete_step(f, Event::Executed(Ok(rows))).1
                == Step::Reply(Reply::Status(Status::NoContent)),
        forall|f: DeleteFileFlow|
            (f.stage is DeletingRecord || f.stage == DeleteStage::Crediting) ==> #[trigger] delete_step(
                f,
                Event::Executed(Err(())),
            ).1 == Step::Reply(Reply::Status(Status::InternalServerError)),
{
}

/// What each step of a file rename answers: the caller's file is renamed;
/// the updated row, whatever it holds, is sent back; no row is 404.
pub proof fn rename_answers()
    ensures
        forall|f: RenameFileFlow, e: Event|
            f.stage == QueryStage::Start ==> #[trigger] rename_step(f, e).1 == Step::Perform(
                Action::RenameFile { name: f.name, id: f.file_id, owner_id: f.user_id },
            ),
        forall|f: RenameFileFlow, r: FileRecord|
            f.stage == QueryStage::Awaiting ==> #[trigger] rename_step(f, Event::FileRow(Ok(Some(r)))).1
                == Step::Reply(Reply::File(r)),
        forall|f: RenameFileFlow|
            f.stage == QueryStage::Awaiting ==> #[trigger] rename_step(f, Event::FileRow(Ok(None))).1 == Step::Reply(
                Reply::Status(Status::NotFound),
            ),
        forall|f: RenameFileFlow|
            f.stage == QueryStage::Awaiting ==> #[trigger] rename_step(f, Event::FileRow(Err(()))).1 == Step::Reply(
                Reply::Status(Status::InternalServerError),
            ),
{
}

/// What each step of a file move answers: the caller's file is moved into
/// the folder asked for (or the root); the updated row, whatever folder it
/// names, is sent back; no row is 404.
pub proof fn move_answers()
    ensures
        forall|f: MoveFileFlow, e: Event|
            f.stage == QueryStage::Start ==> #[trigger] move_step(f, e).1 == Step::Perform(
                Action::MoveFile { folder_id: f.folder_id, id: f.file_id, owner_id: f.user_id },
            ),
        forall|f: MoveFileFlow, r: FileRecord|
            f.stage == QueryStage::Awaiting ==> #[trigger] move_step(f, Event::FileRow(Ok(Some(r)))).1
                == Step::Reply(Reply::File(r)),
        forall|f: MoveFileFlow|
            f.stage == QueryStage::Awaiting ==> #[trigger] move_step(f, Event::FileRow(Ok(None))).1 == Step::Reply(
                Reply::Status(Status::NotFound),
            ),
        forall|f: MoveFileFlow|
            f.stage == QueryStage::Awaiting ==> #[trigger] move_step(f, Event::FileRow(Err(()))).1 == Step::Reply(
                Reply::Status(Status::InternalServerError),
            ),
{
}

// ------------------------------------------------------------ what a request gets when every action succeeds

/// An upload whose first part is read and fits in the uploader's remaining
/// allowance is answered 201 when every action succeeds, whatever the part's
/// size: the reply is the row the database returned for the new file, of
/// the size of the part.
pub proof fn upload_within_quota_is_created(
    flows: Seq<UploadFlow>,
    events: Seq<Event>,
    steps: Seq<Step>,
    stores: Seq<Store>,
)
    requires
        upload_run(flows, events, steps),
        flows[0].stage == UploadStage::Start,
        served(stores, events, steps),
        events.len() >= 3,
        events[1] matches Event::Field(Ok(Some(_))),
        events[2] matches Event::FieldBytes(Ok(data)) && stores[0].users.contains_key(flows[0].user_id)
            && stores[0].users[flows[0].user_id].storage_used + (data@.len() as i64)
            <= stores[0].users[flows[0].user_id].storage_limit,
    ensures
        events.len() == 8,
        steps.last() matches Step::Reply(Reply::CreatedFile(record)) && events[2] matches Event::FieldBytes(
            Ok(data),
        ) && record.size == data@.len() as i64 && record.owner_id == flows[0].user_id,
{
    let n = events.len() as int;
    assert forall|i: int| 0 <= i < n - 1 implies (#[trigger] steps[i]) is Perform by {
        assert(steps[i] matches Step::Perform(_));
    }
    lemma_upload_run_progress(flows, events, steps, n - 1);
    assert(upload_next(flows[0], events[0], flows[1], steps[0]));
    assert(steps[0] matches Step::Perform(_));
    lemma_upload_run_progress(flows, events, steps, 1);
    assert(upload_next(flows[1], events[1], flows[2], steps[1]));
    assert(steps[1] matches Step::Perform(_));
    lemma_upload_run_progress(flows, events, steps, 2);
    assert(upload_next(flows[2], events[2], flows[3], steps[2]));
    if n == 3 {
        assert(steps.last() == steps[2]);
        assert(false);
    }
    assert(steps[2] matches Step::Perform(_));
    assert(stores[2] == stores[0]);
    lemma_upload_run_progress(flows, events, steps, 3);
    assert(upload_next(flows[3], events[3], flows[4], steps[3]));
    if n == 4 {
        assert(steps.last() == steps[3]);
        assert(false);
    }
    assert(steps[3] matches Step::Perform(_));
    lemma_upload_run_progress(flows, events, steps, 4);
    assert(upload_next(flows[4], events[4], flows[5], steps[4]));
    if n == 5 {
        assert(steps.last() == steps[4]);
        assert(false);
    }
    assert(steps[4] matches Step::Perform(_));
    lemma_upload_run_progress(flows, events, steps, 5);
    assert(upload_next(flows[5], events[5], flows[6], steps[5]));
    if n == 6 {
        assert(steps.last() == steps[5]);
        assert(false);
    }
    assert(steps[5] matches Step::Perform(_));
    lemma_upload_run_progress(flows, events, steps, 6);
    assert(upload_next(flows[6], events[6], flows[7], steps[6]));
    if n == 7 {
        assert(steps.last() == steps[6]);
        assert(false);
    }
    assert(steps[6] matches Step::Perform(_));
    lemma_upload_run_progress(flows, events, steps, 7);
    assert(upload_next(flows[7], events[7], flows[8], steps[7]));
    if n > 8 {
        assert(steps[7] matches Step::Perform(_));
        assert(false);
    }
    assert(steps.last() == steps[7]);
}

/// A listing served by the store is always answered with rows, possibly
/// none: exactly the caller's files in the folder asked for.
pub proof fn file_list_is_answered_with_the_callers_rows(flow: ListFilesFlow, s: Store, answer: Event, after: Store)
    requires
        flow.stage == QueryStage::Start,
        query_served(list_step(flow, Event::Begin).1, s, answer, after),
    ensures
        after == s,
        list_step(list_step(flow, Event::Begin).0, answer).1 matches Step::Reply(Reply::Files(rows)) && forall|
            r: FileRecord,
        |
            #[trigger] rows@.contains(r) <==> (exists|id: u128|
                s.files.contains_key(id) && #[trigger] s.files[id] == r && r.owner_id == flow.user_id && r.folder_id
                    == flow.folder_id),
{
}

/// A move served by the store of one of the caller's files is answered with
/// the moved row: the old row with the folder asked for. A move of a file
/// that is not the caller's is 404 and changes nothing.
pub proof fn move_of_an_owned_file_is_answered_with_it(flow: MoveFileFlow, s: Store, answer: Event, after: Store)
    requires
        flow.stage == QueryStage::Start,
        query_served(move_step(flow, Event::Begin).1, s, answer, after),
    ensures
        owned_file(s, flow.file_id, flow.user_id) matches Some(old) ==> (move_step(
            move_step(flow, Event::Begin).0,
            answer,
        ).1 matches Step::Reply(Reply::File(r)) && r == (FileRecord {
            folder_id: flow.folder_id,
            updated_at: r.updated_at,
            ..old
        }) && after.files[flow.file_id] == r),
        owned_file(s, flow.file_id, flow.user_id) is None ==> move_step(move_step(flow, Event::Begin).0, answer).1
            == Step::Reply(Reply::Status(Status::NotFound)) && after == s,
{
}

/// A rename served by the store of one of the caller's files is answered
/// with the renamed row: the old row with the name asked for. A rename of a
/// file that is not the caller's is 404 and changes nothing.
pub proof fn rename_of_an_owned_file_is_answered_with_it(flow: RenameFileFlow, s: Store, answer: Event, after: Store)
    requires
        flow.stage == QueryStage::Start,
        query_served(rename_step(flow, Event::Begin).1, s, answer, after),
    ensures
        owned_file(s, flow.file_id, flow.user_id) matches Some(old) ==> (rename_step(
            rename_step(flow, Event::Begin).0,
            answer,
        ).1 matches Step::Reply(Reply::File(r)) && r == (FileRecord {
            name: flow.name,
            updated_at: r.updated_at,
            ..old
        }) && after.files[flow.file_id] == r),
        owned_file(s, flow.file_id, flow.user_id) is None ==> rename_step(rename_step(flow, Event::Begin).0, answer).1
            == Step::Reply(Reply::Status(Status::NotFound)) && after == s,
{
}

/// A download served by the store of one of the caller's files whose bytes
/// are on disk sends those bytes, with the recorded type, as an attachment
/// under the recorded original name.
pub proof fn download_of_a_stored_file_sends_it(
    flows: Seq<DownloadFlow>,
    events: Seq<Event>,
    steps: Seq<Step>,
    stores: Seq<Store>,
    record: FileRecord,
)
    requires
        download_run(flows, events, steps),
        flows[0].stage == DownloadStage::Start,
        served(stores, events, steps),
        owned_file(stores[0], flows[0].file_id, flows[0].user_id) == Some(record),
        stores[0].disk.contains_key(record.storage_path@),
    ensures
        steps.last() matches Step::Reply(Reply::Download { content_type, content_disposition, body }) && {
            &&& content_type == record.mime_type
            &&& content_disposition@ == attachment_header(record.original_name@)
            &&& body@ == stores[0].disk[record.storage_path@]
        },
{
    lemma_download_served(flows, events, steps, stores, record);
}

/// A deletion served by the store of one of the caller's files, whose
/// credit fits in the caller's accounting, is answered 204.
pub proof fn delete_of_an_owned_file_is_done(
    flows: Seq<DeleteFileFlow>,
    events: Seq<Event>,
    steps: Seq<Step>,
    stores: Seq<Store>,
)
    requires
        delete_run(flows, events, steps),
        flows[0].stage == DeleteStage::Start,
        served(stores, events, steps),
        owned_file(stores[0], flows[0].file_id, flows[0].user_id) is Some,
    ensures
        events.len() == 5,
        steps.last() == Step::Reply(Reply::Status(Status::NoContent)),
{
    let n = events.len() as int;
    assert((flows[1], steps[0]) == delete_step(flows[0], events[0]));
    if n == 1 {
        assert(steps.last() == steps[0]);
        assert(false);
    }
    assert(steps[0] matches Step::Perform(_));
    assert((flows[2], steps[1]) == delete_step(flows[1], events[1]));
    if n == 2 {
        assert(steps.last() == steps[1]);
        assert(false);
    }
    assert(steps[1] matches Step::Perform(_));
    assert((flows[3], steps[2]) == delete_step(flows[2], events[2]));
    if n == 3 {
        assert(steps.last() == steps[2]);
        assert(false);
    }
    assert(steps[2] matches Step::Perform(_));
    assert((flows[4], steps[3]) == delete_step(flows[3], events[3]));
    if n == 4 {
        assert(steps.last() == steps[3]);
        assert(false);
    }
    assert(steps[3] matches Step::Perform(_));
    assert((flows[5], steps[4]) == delete_step(flows[4], events[4]));
    if n > 5 {
        assert(steps[4] matches Step::Perform(_));
        assert(false);
    }
    assert(steps.last() == steps[4]);
}

/// A part's own name and type are kept as given; only a missing one takes
/// the default.
pub proof fn given_text_is_kept()
    ensures
        forall|t: String, d: Seq<char>| #[trigger] text_or(Some(t), d) == t@,
        forall|d: Seq<char>| #[trigger] text_or(None, d) == d,
{
}

} // verus!
