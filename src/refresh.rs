//! Decisions of the refresh loop: which cache rows are due, which shows are
//! not subscribed, which sweeps a tick runs, and whether today's scheduled
//! home-page harvest still has to be created.
use vstd::prelude::*;
use crate::config::Config;
use crate::models::{CrawlerTaskStatus, CrawlerTaskType};
use crate::types::CrawlerMode;

verus! {

/// Milliseconds in a UTC day.
pub const DAY_MS: i64 = 86_400_000;

/// First millisecond of the UTC day holding `now_ms`.
pub open spec fn day_start(now_ms: int) -> int {
    now_ms - now_ms % (DAY_MS as int)
}

/// Last millisecond of the UTC day holding `now_ms`.
pub open spec fn day_end(now_ms: int) -> int {
    day_start(now_ms) + DAY_MS - 1
}

/// The UTC day window `[start, end]` holding `now_ms`.
pub fn day_bounds(now_ms: i64) -> (r: (i64, i64))
    requires
        i64::MIN + DAY_MS <= now_ms <= i64::MAX - DAY_MS,
    ensures
        r.0 == day_start(now_ms as int),
        r.1 == day_end(now_ms as int),
        r.0 <= now_ms <= r.1,
{
    let m = now_ms % DAY_MS;
    let rem: i64 = if m < 0 {
        m + DAY_MS
    } else {
        m
    };
    proof {
        assert(rem as int == (now_ms as int) % (DAY_MS as int));
    }
    let start = now_ms - rem;
    (start, start + DAY_MS - 1)
}

/// What the harvest check reads of a task row; `mode` is absent when the
/// row's parameters do not parse.
#[derive(Debug, Clone, Copy, PartialEq, Eq, Structural)]
pub struct HarvestTaskInfo {
    pub task_type: CrawlerTaskType,
    pub status: CrawlerTaskStatus,
    pub created_at: Option<i64>,
    pub mode: Option<CrawlerMode>,
}

pub open spec fn is_scheduled_homepage(t: HarvestTaskInfo) -> bool {
    t.task_type == CrawlerTaskType::Scheduled && t.mode == Some(CrawlerMode::Homepage)
}

pub open spec fn created_ms(t: HarvestTaskInfo) -> int {
    match t.created_at {
        Some(c) => c as int,
        None => 0,
    }
}

/// A scheduled home-page task that rules out another one today: it
/// completed within the day window, or it is still pending or running.
pub open spec fn blocks_harvest(t: HarvestTaskInfo, start: int, end: int) -> bool {
    &&& is_scheduled_homepage(t)
    &&& {
        ||| (t.status == CrawlerTaskStatus::Completed && start <= created_ms(t) <= end)
        ||| t.status == CrawlerTaskStatus::Pending
        ||| t.status == CrawlerTaskStatus::Running
    }
}

pub open spec fn harvest_needed(tasks: Seq<HarvestTaskInfo>, now_ms: int) -> bool {
    forall|i: int|
        0 <= i < tasks.len() ==> !blocks_harvest(
            #[trigger] tasks[i],
            day_start(now_ms),
            day_end(now_ms),
        )
}

/// Whether today's scheduled home-page task must be created: no such task
/// completed today, and none is pending or running.
pub fn needs_homepage_task(tasks: &Vec<HarvestTaskInfo>, now_ms: i64) -> (r: bool)
    requires
        i64::MIN + DAY_MS <= now_ms <= i64::MAX - DAY_MS,
    ensures
        r == harvest_needed(tasks@, now_ms as int),
{
    let (start, end) = day_bounds(now_ms);
    let mut i: usize = 0;
    while i < tasks.len()
        invariant
            i <= tasks@.len(),
            start == day_start(now_ms as int),
            end == day_end(now_ms as int),
            forall|j: int| 0 <= j < i ==> !blocks_harvest(#[trigger] tasks@[j], start as int, end as int),
        decreases tasks@.len() - i,
    {
        let t = tasks[i];
        let created: i64 = match t.created_at {
            Some(c) => c,
            None => 0,
        };
        let homepage = match t.mode {
            Some(CrawlerMode::Homepage) => true,
            _ => false,
        };
        if t.task_type == CrawlerTaskType::Scheduled && homepage {
            let completed_today = t.status == CrawlerTaskStatus::Completed && start <= created
                && created <= end;
            let active = t.status == CrawlerTaskStatus::Pending || t.status
                == CrawlerTaskStatus::Running;
            if completed_today || active {
                return false;
            }
        }
        i = i + 1;
    }
    true
}

/// Law: once today's scheduled home-page task exists (pending, running, or
/// completed today), no further one is due for the rest of the day.
pub proof fn lemma_harvest_once_per_day(
    tasks: Seq<HarvestTaskInfo>,
    created: HarvestTaskInfo,
    now_ms: i64,
    later_ms: i64,
)
    requires
        is_scheduled_homepage(created),
        created.status == CrawlerTaskStatus::Pending || created.status == CrawlerTaskStatus::Running
            || created.status == CrawlerTaskStatus::Completed,
        created.created_at == Some(now_ms),
        day_start(later_ms as int) == day_start(now_ms as int),
    ensures
        !harvest_needed(tasks.push(created), later_ms as int),
{
    let all = tasks.push(created);
    let n = now_ms as int;
    assert(all[tasks.len() as int] == created);
    assert(0 <= n % (DAY_MS as int) < DAY_MS as int);
    assert(day_start(n) <= n <= day_end(n));
    assert(blocks_harvest(all[tasks.len() as int], day_start(later_ms as int), day_end(later_ms as int)));
}

/// The kind of cache row a sweep revalidates.
#[derive(Debug, Clone, Copy, PartialEq, Eq, Structural)]
pub enum RefreshKind {
    Subject,
    Episodes,
}

#[derive(Debug, Clone, Copy, PartialEq, Eq, Structural)]
pub struct RefreshItem {
    pub id: i64,
    pub kind: RefreshKind,
}

/// A row is due when absent or written at least `interval` seconds ago.
pub open spec fn is_due(updated_at: Option<i64>, now_s: i64, interval: i64) -> bool {
    match updated_at {
        Some(u) => (now_s as int) - (u as int) >= interval as int,
        None => true,
    }
}

pub fn needs_refresh(updated_at: Option<i64>, now_s: i64, interval: i64) -> (r: bool)
    ensures
        r == is_due(updated_at, now_s, interval),
{
    match updated_at {
        Some(u) => (now_s as i128) - (u as i128) >= interval as i128,
        None => true,
    }
}

/// The rows of `kind` among `ids` that are due, in order.
pub open spec fn due_items(
    ids: Seq<i64>,
    updated: Seq<Option<i64>>,
    kind: RefreshKind,
    now_s: i64,
    interval: i64,
) -> Seq<RefreshItem>
    decreases ids.len(),
{
    if ids.len() == 0 || updated.len() != ids.len() {
        seq![]
    } else {
        let prev = due_items(ids.drop_last(), updated.drop_last(), kind, now_s, interval);
        if is_due(updated.last(), now_s, interval) {
            prev.push(RefreshItem { id: ids.last(), kind })
        } else {
            prev
        }
    }
}

fn push_due(
    out: &mut Vec<RefreshItem>,
    ids: &Vec<i64>,
    updated: &Vec<Option<i64>>,
    kind: RefreshKind,
    now_s: i64,
    interval: i64,
)
    requires
        ids@.len() == updated@.len(),
    ensures
        final(out)@ == old(out)@ + due_items(ids@, updated@, kind, now_s, interval),
{
    let ghost base = out@;
    let mut i: usize = 0;
    while i < ids.len()
        invariant
            ids@.len() == updated@.len(),
            i <= ids@.len(),
            out@ == base + due_items(ids@.subrange(0, i as int), updated@.subrange(0, i as int), kind, now_s, interval),
        decreases ids@.len() - i,
    {
        proof {
            assert(ids@.subrange(0, i + 1).drop_last() =~= ids@.subrange(0, i as int));
            assert(updated@.subrange(0, i + 1).drop_last() =~= updated@.subrange(0, i as int));
        }
        if needs_refresh(updated[i], now_s, interval) {
            out.push(RefreshItem { id: ids[i], kind });
        }
        i = i + 1;
        proof {
            assert(out@ =~= base + due_items(ids@.subrange(0, i as int), updated@.subrange(0, i as int), kind, now_s, interval));
        }
    }
    proof {
        assert(ids@.subrange(0, i as int) =~= ids@);
        assert(updated@.subrange(0, i as int) =~= updated@);
    }
}

/// What a sweep over `ids` revalidates: first the due subject rows, then
/// the due episode rows. `subject_updated[i]` and `episodes_updated[i]` are
/// the write times of the rows of `ids[i]`, absent when there is no row.
pub fn plan_refresh(
    ids: &Vec<i64>,
    subject_updated: &Vec<Option<i64>>,
    episodes_updated: &Vec<Option<i64>>,
    now_s: i64,
    interval: i64,
) -> (r: Vec<RefreshItem>)
    requires
        subject_updated@.len() == ids@.len(),
        episodes_updated@.len() == ids@.len(),
    ensures
        r@ == due_items(ids@, subject_updated@, RefreshKind::Subject, now_s, interval) + due_items(
            ids@,
            episodes_updated@,
            RefreshKind::Episodes,
            now_s,
            interval,
        ),
{
    let mut out: Vec<RefreshItem> = Vec::new();
    push_due(&mut out, ids, subject_updated, RefreshKind::Subject, now_s, interval);
    push_due(&mut out, ids, episodes_updated, RefreshKind::Episodes, now_s, interval);
    proof {
        assert(out@ =~= due_items(ids@, subject_updated@, RefreshKind::Subject, now_s, interval) + due_items(
            ids@,
            episodes_updated@,
            RefreshKind::Episodes,
            now_s,
            interval,
        ));
    }
    out
}

/// Cached shows nobody subscribes to, in cache order.
pub fn non_subscribed_ids(cached_ids: &Vec<i64>, subscribed_ids: &Vec<i64>) -> (r: Vec<i64>)
    ensures
        r@ == cached_ids@.filter(|x: i64| !subscribed_ids@.contains(x)),
{
    let mut out: Vec<i64> = Vec::new();
    let mut i: usize = 0;
    while i < cached_ids.len()
        invariant
            i <= cached_ids@.len(),
            out@ == cached_ids@.subrange(0, i as int).filter(|x: i64| !subscribed_ids@.contains(x)),
        decreases cached_ids@.len() - i,
    {
        proof {
            assert(cached_ids@.subrange(0, i + 1).drop_last() =~= cached_ids@.subrange(0, i as int));
            reveal(Seq::filter);
        }
        let x = cached_ids[i];
        let mut found = false;
        let mut j: usize = 0;
        while j < subscribed_ids.len()
            invariant
                j <= subscribed_ids@.len(),
                found == exists|k: int| 0 <= k < j && subscribed_ids@[k] == x,
            decreases subscribed_ids@.len() - j,
        {
            if subscribed_ids[j] == x {
                found = true;
            }
            j = j + 1;
        }
        proof {
            if found {
                let k = choose|k: int| 0 <= k < j && subscribed_ids@[k] == x;
                assert(subscribed_ids@.contains(x));
            }
        }
        if !found {
            out.push(x);
        }
        i = i + 1;
    }
    proof {
        assert(cached_ids@.subrange(0, i as int) =~= cached_ids@);
    }
    out
}

/// Clock of the refresh loop: when each sweep last ran (epoch seconds) and
/// the day (its first millisecond) whose harvest check is done.
#[derive(Debug, Clone, Copy, PartialEq, Eq, Structural)]
pub struct RefreshClock {
    pub last_sub: i64,
    pub last_nonsub: i64,
    pub last_calendar: i64,
    pub last_harvest_day: Option<i64>,
}

/// The work one tick of the loop does.
#[derive(Debug, Clone, Copy, PartialEq, Eq, Structural)]
pub struct TickPlan {
    pub check_harvest: bool,
    pub refresh_subscribed: bool,
    pub refresh_non_subscribed: bool,
    pub refresh_calendar: bool,
}

pub open spec fn elapsed_at_least(now_s: i64, last: i64, interval: i64) -> bool {
    (now_s as int) - (last as int) >= interval as int
}

fn elapsed_exec(now_s: i64, last: i64, interval: i64) -> (r: bool)
    ensures
        r == elapsed_at_least(now_s, last, interval),
{
    (now_s as i128) - (last as i128) >= interval as i128
}

/// Whole seconds since the epoch, rounded down.
pub open spec fn epoch_seconds(ms: int) -> int {
    (ms - ms % 1000) / 1000
}

fn seconds_of(now_ms: i64) -> (r: i64)
    requires
        i64::MIN + 1000 <= now_ms,
    ensures
        r as int == epoch_seconds(now_ms as int),
{
    let m = now_ms % 1000;
    let rem: i64 = if m < 0 {
        m + 1000
    } else {
        m
    };
    proof {
        assert(rem as int == (now_ms as int) % 1000);
    }
    (now_ms - rem) / 1000
}

impl RefreshClock {
    /// A loop started at `now_s`: no sweep is due yet and today's harvest
    /// check is pending.
    pub fn new(now_s: i64) -> (r: Self)
        ensures
            r.last_sub == now_s,
            r.last_nonsub == now_s,
            r.last_calendar == now_s,
            r.last_harvest_day.is_none(),
    {
        RefreshClock { last_sub: now_s, last_nonsub: now_s, last_calendar: now_s, last_harvest_day: None }
    }

    /// Plans one tick at `now_ms`: the harvest check runs once per UTC day,
    /// and each sweep when its interval has elapsed since it last ran; the
    /// sweeps planned are recorded as run now.
    pub fn tick(&mut self, now_ms: i64, config: &Config) -> (r: TickPlan)
        requires
            i64::MIN + DAY_MS <= now_ms <= i64::MAX - DAY_MS,
        ensures
            r.check_harvest == (old(self).last_harvest_day != Some(day_start(now_ms as int) as i64)),
            r.refresh_subscribed == elapsed_at_least(epoch_seconds(now_ms as int) as i64, old(self).last_sub, config.sub_interval_spec()),
            r.refresh_non_subscribed == elapsed_at_least(epoch_seconds(now_ms as int) as i64, old(self).last_nonsub, config.nonsub_interval_spec()),
            r.refresh_calendar == elapsed_at_least(epoch_seconds(now_ms as int) as i64, old(self).last_calendar, config.calendar_interval_spec()),
            final(self).last_sub == (if r.refresh_subscribed { epoch_seconds(now_ms as int) as i64 } else { old(self).last_sub }),
            final(self).last_nonsub == (if r.refresh_non_subscribed { epoch_seconds(now_ms as int) as i64 } else { old(self).last_nonsub }),
            final(self).last_calendar == (if r.refresh_calendar { epoch_seconds(now_ms as int) as i64 } else { old(self).last_calendar }),
            final(self).last_harvest_day == old(self).last_harvest_day,
    {
        let (start, _end) = day_bounds(now_ms);
        let check_harvest = match self.last_harvest_day {
            Some(d) => d != start,
            None => true,
        };
        let now_s = seconds_of(now_ms);
        let refresh_subscribed = elapsed_exec(now_s, self.last_sub, config.sub_refresh_interval());
        let refresh_non_subscribed = elapsed_exec(now_s, self.last_nonsub, config.nonsub_refresh_interval());
        let refresh_calendar = elapsed_exec(now_s, self.last_calendar, config.calendar_refresh_interval());
        if refresh_subscribed {
            self.last_sub = now_s;
        }
        if refresh_non_subscribed {
            self.last_nonsub = now_s;
        }
        if refresh_calendar {
            self.last_calendar = now_s;
        }
        TickPlan { check_harvest, refresh_subscribed, refresh_non_subscribed, refresh_calendar }
    }

    /// Records that the harvest check of the day holding `now_ms` is done.
    pub fn harvest_checked(&mut self, now_ms: i64)
        requires
            i64::MIN + DAY_MS <= now_ms <= i64::MAX - DAY_MS,
        ensures
            final(self).last_harvest_day == Some(day_start(now_ms as int) as i64),
            final(self).last_sub == old(self).last_sub,
            final(self).last_nonsub == old(self).last_nonsub,
            final(self).last_calendar == old(self).last_calendar,
    {
        let (start, _end) = day_bounds(now_ms);
        self.last_harvest_day = Some(start);
    }
}

} // verus!
