//! Lifecycle of a crawler task row: creation, claim, cancellation, final
//! failure and recovery after a restart.
//!
//! A row keeps its timestamps ordered (`times_ok`) as long as every
//! transition is given a clock reading no earlier than the row's own stamps.
use vstd::prelude::*;
use crate::chars::copy_string;
use crate::error::TaskError;
use crate::models::{CrawlerTask, CrawlerTaskStatus, CrawlerTaskType};

verus! {

/// Message written on a task that was cancelled.
pub open spec fn cancelled_message() -> Seq<char> {
    "任务被取消"@
}

/// Message of the error returned when a task can no longer be cancelled.
pub open spec fn not_cancellable_message() -> Seq<char> {
    "任务无法取消，当前状态不允许取消操作"@
}

/// Timestamps of a row are ordered, and a terminal row has its completion
/// time.
pub open spec fn times_ok(t: CrawlerTask) -> bool {
    &&& (t.started_at is Some ==> t.created_at is Some && t.created_at->0 <= t.started_at->0)
    &&& (t.completed_at is Some ==> {
        &&& t.created_at is Some
        &&& t.created_at->0 <= t.completed_at->0
        &&& (t.started_at is Some ==> t.started_at->0 <= t.completed_at->0)
    })
    &&& (t.status.is_terminal() ==> t.completed_at is Some)
    &&& (t.status == CrawlerTaskStatus::Pending ==> t.started_at is None && t.completed_at is None)
    &&& (t.status == CrawlerTaskStatus::Running ==> t.started_at is Some && t.completed_at is None)
}

/// `now` is no earlier than any timestamp the row carries.
pub open spec fn clock_after(t: CrawlerTask, now: i64) -> bool {
    &&& (t.created_at is Some ==> t.created_at->0 <= now)
    &&& (t.started_at is Some ==> t.started_at->0 <= now)
    &&& (t.completed_at is Some ==> t.completed_at->0 <= now)
}

/// Counters of a row are consistent: `0 <= processed <= total`, the
/// percentage lies in `0..=100`, and a completed row stands at 100.
pub open spec fn progress_ok(t: CrawlerTask) -> bool {
    &&& t.processed_items is Some
    &&& t.total_items is Some
    &&& t.percentage is Some
    &&& 0 <= t.processed_items->0 <= t.total_items->0
    &&& 0 <= t.percentage->0 <= 100
    &&& (t.status == CrawlerTaskStatus::Completed ==> t.percentage->0 == 100)
}

/// A new pending task: percentage, processed and total all zero.
pub fn new_task(task_type: CrawlerTaskType, parameters: String, now: i64) -> (r: CrawlerTask)
    ensures
        r.id.is_none(),
        r.task_type == task_type,
        r.status == CrawlerTaskStatus::Pending,
        r.parameters == Some(parameters),
        r.created_at == Some(now),
        r.started_at.is_none(),
        r.completed_at.is_none(),
        r.error_message.is_none(),
        r.result_summary.is_none(),
        r.percentage == Some(0i64),
        r.processed_items == Some(0i64),
        r.total_items == Some(0i64),
        times_ok(r),
        progress_ok(r),
{
    CrawlerTask {
        id: None,
        task_type,
        status: CrawlerTaskStatus::Pending,
        parameters: Some(parameters),
        result_summary: None,
        created_at: Some(now),
        started_at: None,
        completed_at: None,
        error_message: None,
        percentage: Some(0),
        processed_items: Some(0),
        total_items: Some(0),
    }
}

/// The worker takes a pending task: it becomes running, started now.
pub fn claim_task(task: &mut CrawlerTask, now: i64)
    requires
        old(task).status == CrawlerTaskStatus::Pending,
        times_ok(*old(task)),
        clock_after(*old(task), now),
        old(task).created_at is Some,
    ensures
        final(task).status == CrawlerTaskStatus::Running,
        final(task).started_at == Some(now),
        final(task).completed_at == old(task).completed_at,
        final(task).created_at == old(task).created_at,
        final(task).processed_items == old(task).processed_items,
        final(task).total_items == old(task).total_items,
        final(task).percentage == old(task).percentage,
        final(task).id == old(task).id,
        times_ok(*final(task)),
        progress_ok(*old(task)) ==> progress_ok(*final(task)),
{
    task.status = CrawlerTaskStatus::Running;
    task.started_at = Some(now);
}

/// Cancels a task on request. Only a pending or running task can be
/// cancelled; it then becomes cancelled, completed now. Any other status is
/// refused and the row is left as it was.
pub fn cancel_task(task: &mut CrawlerTask, now: i64) -> (r: Result<(), TaskError>)
    requires
        times_ok(*old(task)),
        clock_after(*old(task), now),
        old(task).created_at is Some,
    ensures
        (old(task).status == CrawlerTaskStatus::Pending || old(task).status
            == CrawlerTaskStatus::Running) <==> r is Ok,
        r is Ok ==> final(task).status == CrawlerTaskStatus::Cancelled && final(task).completed_at
            == Some(now) && final(task).started_at == old(task).started_at
            && final(task).created_at == old(task).created_at,
        r is Err ==> *final(task) == *old(task),
        r matches Err(TaskError::Cancel(m)) ==> m@ == not_cancellable_message(),
        r is Err ==> r matches Err(TaskError::Cancel(_)),
        times_ok(*final(task)),
        progress_ok(*old(task)) && r is Ok ==> progress_ok(*final(task)),
{
    match task.status {
        CrawlerTaskStatus::Pending | CrawlerTaskStatus::Running => {
            task.status = CrawlerTaskStatus::Cancelled;
            task.completed_at = Some(now);
            Ok(())
        },
        _ => Err(TaskError::Cancel(String::from_str("任务无法取消，当前状态不允许取消操作"))),
    }
}

/// After the last attempt failed, the worker marks the task failed with
/// the last error.
pub fn fail_after_retries(task: &mut CrawlerTask, message: &String, now: i64)
    requires
        times_ok(*old(task)),
        clock_after(*old(task), now),
        old(task).created_at is Some,
    ensures
        final(task).status == CrawlerTaskStatus::Failed,
        final(task).completed_at == Some(now),
        final(task).error_message matches Some(m) && m@ == message@,
        final(task).created_at == old(task).created_at,
        final(task).started_at == old(task).started_at,
        final(task).processed_items == old(task).processed_items,
        final(task).total_items == old(task).total_items,
        final(task).percentage == old(task).percentage,
        times_ok(*final(task)),
        progress_ok(*old(task)) ==> progress_ok(*final(task)),
{
    task.status = CrawlerTaskStatus::Failed;
    task.completed_at = Some(now);
    task.error_message = Some(copy_string(message));
}

pub open spec fn created_or_zero(t: CrawlerTask) -> int {
    match t.created_at {
        Some(c) => c as int,
        None => 0,
    }
}

/// The pending task the worker claims next: the oldest by creation time,
/// the first listed among equals.
pub fn oldest_pending(tasks: &Vec<CrawlerTask>) -> (r: Option<usize>)
    ensures
        r is None <==> forall|j: int| 0 <= j < tasks@.len() ==> (#[trigger] tasks@[j]).status
            != CrawlerTaskStatus::Pending,
        r matches Some(i) ==> {
            &&& i < tasks@.len()
            &&& tasks@[i as int].status == CrawlerTaskStatus::Pending
            &&& forall|j: int|
                0 <= j < tasks@.len() && (#[trigger] tasks@[j]).status == CrawlerTaskStatus::Pending
                    ==> created_or_zero(tasks@[i as int]) <= created_or_zero(tasks@[j])
            &&& forall|j: int|
                0 <= j < i && (#[trigger] tasks@[j]).status == CrawlerTaskStatus::Pending
                    ==> created_or_zero(tasks@[i as int]) < created_or_zero(tasks@[j])
        },
{
    let mut best: Option<usize> = None;
    let mut best_at: i64 = 0;
    let mut i: usize = 0;
    while i < tasks.len()
        invariant
            i <= tasks@.len(),
            best is None <==> forall|j: int| 0 <= j < i ==> (#[trigger] tasks@[j]).status
                != CrawlerTaskStatus::Pending,
            best matches Some(b) ==> {
                &&& b < i
                &&& tasks@[b as int].status == CrawlerTaskStatus::Pending
                &&& best_at as int == created_or_zero(tasks@[b as int])
                &&& forall|j: int|
                    0 <= j < i && (#[trigger] tasks@[j]).status == CrawlerTaskStatus::Pending
                        ==> created_or_zero(tasks@[b as int]) <= created_or_zero(tasks@[j])
                &&& forall|j: int|
                    0 <= j < b && (#[trigger] tasks@[j]).status == CrawlerTaskStatus::Pending
                        ==> created_or_zero(tasks@[b as int]) < created_or_zero(tasks@[j])
            },
        decreases tasks@.len() - i,
    {
        if tasks[i].status == CrawlerTaskStatus::Pending {
            let at: i64 = match tasks[i].created_at {
                Some(c) => c,
                None => 0,
            };
            match best {
                Some(_) => {
                    if at < best_at {
                        best = Some(i);
                        best_at = at;
                    }
                },
                None => {
                    best = Some(i);
                    best_at = at;
                },
            }
        }
        i = i + 1;
    }
    best
}

/// Number of attempts the worker makes at one task.
pub const MAX_ATTEMPTS: u32 = 3;

/// What the worker does once an attempt has finished.
#[derive(Debug, Clone, Copy, PartialEq, Eq, Structural)]
pub enum AttemptOutcome {
    /// The attempt succeeded: the task is done.
    Done,
    /// The attempt failed and the budget allows another.
    Retry,
    /// The attempt failed and it was the last one.
    GiveUp,
}

/// Decision after attempt number `attempt` (counted from 1).
pub fn after_attempt(attempt: u32, max_attempts: u32, succeeded: bool) -> (r: AttemptOutcome)
    ensures
        succeeded ==> r == AttemptOutcome::Done,
        !succeeded && attempt < max_attempts ==> r == AttemptOutcome::Retry,
        !succeeded && attempt >= max_attempts ==> r == AttemptOutcome::GiveUp,
{
    if succeeded {
        AttemptOutcome::Done
    } else if attempt < max_attempts {
        AttemptOutcome::Retry
    } else {
        AttemptOutcome::GiveUp
    }
}

/// Recovery at start-up: every running task becomes failed with `message`,
/// completed now. Returns how many were changed; other rows are untouched.
pub fn mark_all_running_as_failed(tasks: &mut Vec<CrawlerTask>, message: &String, now: i64) -> (r:
    u64)
    ensures
        final(tasks)@.len() == old(tasks)@.len(),
        forall|i: int| 0 <= i < final(tasks)@.len() ==> (#[trigger] final(tasks)@[i]).status
            != CrawlerTaskStatus::Running,
        forall|i: int|
            0 <= i < final(tasks)@.len() && old(tasks)@[i].status != CrawlerTaskStatus::Running
                ==> #[trigger] final(tasks)@[i] == old(tasks)@[i],
        forall|i: int|
            0 <= i < final(tasks)@.len() && old(tasks)@[i].status == CrawlerTaskStatus::Running
                ==> {
                &&& (#[trigger] final(tasks)@[i]).status == CrawlerTaskStatus::Failed
                &&& final(tasks)@[i].completed_at == Some(now)
                &&& final(tasks)@[i].error_message matches Some(m) && m@ == message@
                &&& final(tasks)@[i].created_at == old(tasks)@[i].created_at
                &&& final(tasks)@[i].started_at == old(tasks)@[i].started_at
            },
        forall|i: int|
            0 <= i < final(tasks)@.len() && times_ok(old(tasks)@[i]) && clock_after(old(tasks)@[i], now)
                && old(tasks)@[i].created_at is Some ==> times_ok(#[trigger] final(tasks)@[i]),
        r as int == old(tasks)@.filter(|t: CrawlerTask| t.status == CrawlerTaskStatus::Running).len(),
{
    let ghost orig = tasks@;
    let mut count: u64 = 0;
    let mut i: usize = 0;
    while i < tasks.len()
        invariant
            tasks@.len() == orig.len(),
            i <= tasks@.len(),
            count <= i,
            count as int == orig.subrange(0, i as int).filter(
                |t: CrawlerTask| t.status == CrawlerTaskStatus::Running,
            ).len(),
            forall|j: int| i <= j < tasks@.len() ==> #[trigger] tasks@[j] == orig[j],
            forall|j: int| 0 <= j < i ==> (#[trigger] tasks@[j]).status != CrawlerTaskStatus::Running,
            forall|j: int|
                0 <= j < i && orig[j].status != CrawlerTaskStatus::Running ==> #[trigger] tasks@[j]
                    == orig[j],
            forall|j: int|
                0 <= j < i && orig[j].status == CrawlerTaskStatus::Running ==> {
                    &&& (#[trigger] tasks@[j]).status == CrawlerTaskStatus::Failed
                    &&& tasks@[j].completed_at == Some(now)
                    &&& tasks@[j].error_message matches Some(m) && m@ == message@
                    &&& tasks@[j].created_at == orig[j].created_at
                    &&& tasks@[j].started_at == orig[j].started_at
                },
            forall|j: int|
                0 <= j < i && times_ok(orig[j]) && clock_after(orig[j], now) && orig[j].created_at is Some
                    ==> times_ok(#[trigger] tasks@[j]),
        decreases tasks@.len() - i,
    {
        proof {
            assert(orig.subrange(0, i + 1).drop_last() =~= orig.subrange(0, i as int));
            reveal(Seq::filter);
        }
        if tasks[i].status == CrawlerTaskStatus::Running {
            let t = &mut tasks[i];
            t.status = CrawlerTaskStatus::Failed;
            t.completed_at = Some(now);
            t.error_message = Some(copy_string(message));
            count = count + 1;
        }
        i = i + 1;
    }
    proof {
        assert(orig.subrange(0, i as int) =~= orig);
    }
    count
}

/// Law: a terminal row carries its completion time, and
/// `created_at <= started_at <= completed_at` wherever those are set.
pub proof fn lemma_terminal_times_ordered(t: CrawlerTask)
    requires
        times_ok(t),
        t.status.is_terminal(),
    ensures
        t.completed_at is Some,
        t.created_at is Some,
        t.created_at->0 <= t.completed_at->0,
        t.started_at is Some ==> t.created_at->0 <= t.started_at->0 && t.started_at->0
            <= t.completed_at->0,
{
}

/// Law: a completed row stands at 100 percent with no more processed items
/// than the total.
pub proof fn lemma_completed_progress(t: CrawlerTask)
    requires
        progress_ok(t),
        t.status == CrawlerTaskStatus::Completed,
    ensures
        t.percentage == Some(100i64),
        t.processed_items->0 <= t.total_items->0,
{
}

} // verus!
