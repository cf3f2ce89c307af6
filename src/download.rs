//! Download records against the torrent session: the record made for a new
//! torrent, pause and resume, the status a session handle implies, and
//! reconciliation of a record with it. Times here are epoch seconds.
use vstd::prelude::*;
use crate::chars::str_eq;
use crate::models::{DownloadStatus, DownloadTask};

verus! {

/// A request to download one release.
#[derive(Debug, Clone)]
pub struct StartDownloadTask {
    pub magnet_url: String,
    pub save_path: Option<String>,
    pub title: String,
    pub bangumi_id: i64,
    pub resource_id: i64,
    pub episode_number: i64,
    pub name: String,
    pub name_cn: String,
    pub cover: String,
    pub total_size: i64,
}

/// The record of a torrent just added to the session under handle `id`.
pub fn new_download_task(id: i64, task: StartDownloadTask, now: i64) -> (r: DownloadTask)
    ensures
        r.id == Some(id),
        r.status == DownloadStatus::Pending,
        r.magnet_url == task.magnet_url,
        r.save_path == task.save_path,
        r.title == task.title,
        r.bangumi_id == task.bangumi_id,
        r.resource_id == task.resource_id,
        r.episode_number == task.episode_number,
        r.name == task.name,
        r.name_cn == task.name_cn,
        r.cover == task.cover,
        r.total_size == task.total_size,
        r.created_at == now,
        r.updated_at == now,
        r.error_msg.is_none(),
{
    DownloadTask {
        id: Some(id),
        magnet_url: task.magnet_url,
        save_path: task.save_path,
        status: DownloadStatus::Pending,
        title: task.title,
        bangumi_id: task.bangumi_id,
        resource_id: task.resource_id,
        episode_number: task.episode_number,
        name: task.name,
        name_cn: task.name_cn,
        cover: task.cover,
        total_size: task.total_size,
        created_at: now,
        updated_at: now,
        error_msg: None,
    }
}

/// The status a session handle implies: finished means completed, then the
/// handle's state name decides (`error`, `paused`, `initializing`), and any
/// other state counts as downloading.
pub open spec fn status_of_handle(finished: bool, state: Seq<char>) -> DownloadStatus {
    if finished {
        DownloadStatus::Completed
    } else if state == "error"@ {
        DownloadStatus::Failed
    } else if state == "paused"@ {
        DownloadStatus::Paused
    } else if state == "initializing"@ {
        DownloadStatus::Pending
    } else {
        DownloadStatus::Downloading
    }
}

pub fn status_from_session(finished: bool, state: &str) -> (r: DownloadStatus)
    ensures
        r == status_of_handle(finished, state@),
{
    if finished {
        DownloadStatus::Completed
    } else if str_eq(state, "error") {
        DownloadStatus::Failed
    } else if str_eq(state, "paused") {
        DownloadStatus::Paused
    } else if str_eq(state, "initializing") {
        DownloadStatus::Pending
    } else {
        DownloadStatus::Downloading
    }
}

/// The error message reported with a handle: only in the `error` state,
/// and then the session's message or an empty one.
pub fn error_message_for(state: &str, error: Option<String>) -> (r: Option<String>)
    ensures
        state@ == "error"@ ==> (r matches Some(m) && (error matches Some(e) ==> m == e) && (
        error is None ==> m@.len() == 0)),
        state@ != "error"@ ==> r is None,
{
    if str_eq(state, "error") {
        match error {
            Some(e) => Some(e),
            None => Some(String::new()),
        }
    } else {
        None
    }
}

/// Brings a record in line with its handle. The record is only written
/// when the status differs: then status, size, error message and
/// `updated_at` change. Returns whether it was written.
pub fn reconcile(
    task: &mut DownloadTask,
    status: DownloadStatus,
    total_bytes: i64,
    error_msg: Option<String>,
    now: i64,
) -> (r: bool)
    ensures
        r == (old(task).status != status),
        r ==> final(task).status == status && final(task).total_size == total_bytes
            && final(task).error_msg == error_msg && final(task).updated_at == now
            && final(task).id == old(task).id && final(task).created_at == old(task).created_at,
        !r ==> *final(task) == *old(task),
{
    if task.status != status {
        task.status = status;
        task.total_size = total_bytes;
        task.error_msg = error_msg;
        task.updated_at = now;
        true
    } else {
        false
    }
}

/// The record after the handle was paused.
pub fn mark_paused(task: &mut DownloadTask, now: i64)
    ensures
        final(task).status == DownloadStatus::Paused,
        final(task).updated_at == now,
        final(task).id == old(task).id,
        final(task).total_size == old(task).total_size,
        final(task).error_msg == old(task).error_msg,
{
    task.status = DownloadStatus::Paused;
    task.updated_at = now;
}

/// The record after the handle was resumed.
pub fn mark_downloading(task: &mut DownloadTask, now: i64)
    ensures
        final(task).status == DownloadStatus::Downloading,
        final(task).updated_at == now,
        final(task).id == old(task).id,
        final(task).total_size == old(task).total_size,
        final(task).error_msg == old(task).error_msg,
{
    task.status = DownloadStatus::Downloading;
    task.updated_at = now;
}

/// Which records a listing keeps.
#[derive(Debug, Clone, Copy, PartialEq, Eq, Structural)]
pub enum DownloadSelection {
    /// Records the progress loop follows: all but completed ones.
    Unfinished,
    /// Records shown to the user: all but deleted ones.
    Visible,
    /// Records re-added to the session at start-up: neither completed,
    /// failed nor deleted.
    Restorable,
}

pub open spec fn selects(sel: DownloadSelection, s: DownloadStatus) -> bool {
    match sel {
        DownloadSelection::Unfinished => s != DownloadStatus::Completed,
        DownloadSelection::Visible => s != DownloadStatus::Deleted,
        DownloadSelection::Restorable => s != DownloadStatus::Completed && s != DownloadStatus::Failed
            && s != DownloadStatus::Deleted,
    }
}

fn selects_exec(sel: DownloadSelection, s: DownloadStatus) -> (r: bool)
    ensures
        r == selects(sel, s),
{
    match sel {
        DownloadSelection::Unfinished => s != DownloadStatus::Completed,
        DownloadSelection::Visible => s != DownloadStatus::Deleted,
        DownloadSelection::Restorable => s != DownloadStatus::Completed && s != DownloadStatus::Failed
            && s != DownloadStatus::Deleted,
    }
}

/// The records the selection keeps, in order.
pub fn select_downloads(tasks: Vec<DownloadTask>, sel: DownloadSelection) -> (r: Vec<DownloadTask>)
    ensures
        r@ == tasks@.filter(|t: DownloadTask| selects(sel, t.status)),
{
    let ghost orig = tasks@;
    let n = tasks.len();
    let mut rest = tasks;
    let mut out: Vec<DownloadTask> = Vec::new();
    let mut i: usize = 0;
    while rest.len() > 0
        invariant
            n == orig.len(),
            i <= n,
            rest@ == orig.subrange(i as int, n as int),
            out@ == orig.subrange(0, i as int).filter(|t: DownloadTask| selects(sel, t.status)),
        decreases rest@.len(),
    {
        proof {
            assert(orig.subrange(0, i + 1).drop_last() =~= orig.subrange(0, i as int));
            reveal(Seq::filter);
        }
        let t = rest.remove(0);
        proof {
            assert(t == orig[i as int]);
        }
        if selects_exec(sel, t.status) {
            out.push(t);
        }
        i = i + 1;
        proof {
            assert(rest@ =~= orig.subrange(i as int, n as int));
        }
    }
    proof {
        assert(orig.subrange(0, i as int) =~= orig);
    }
    out
}

} // verus!
