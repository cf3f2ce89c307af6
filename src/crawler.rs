//! One crawl of the release tracker, as decisions over plain values: which
//! list pages to fetch, which detail pages follow from them, how parsed
//! pages merge into deduplicated buffers, when a batch is flushed, and what
//! the task row says after each step.
use vstd::prelude::*;
use crate::chars::{copy_string, contains_string, int_text, push_int, texts};
use crate::models::{Anime, AnimeData, CrawlerTask, CrawlerTaskStatus, Resource, SubtitleGroup};
use crate::task::{cancelled_message, clock_after, progress_ok, times_ok};
use crate::types::{CrawlerMode, CrawlerTaskCreate, SeasonName};
use crate::magnet::is_lower_hex_hash;

verus! {

/// Prefix of the message of a task whose batch could not be written.
pub open spec fn flush_failed_prefix() -> Seq<char> {
    "保存数据到数据库失败: "@
}

/// Detail pages processed between two flushes.
pub const FLUSH_EVERY: i64 = 10;

pub open spec fn season_list_url(base: Seq<char>, year: int, season: Seq<char>) -> Seq<char> {
    base + "/Home/BangumiCoverFlowByDayOfWeek?year="@ + int_text(year) + "&seasonStr="@ + season
}

pub open spec fn year_of(p: CrawlerTaskCreate) -> int {
    match p.year {
        Some(y) => y as int,
        None => 0,
    }
}

pub open spec fn season_of(p: CrawlerTaskCreate) -> SeasonName {
    match p.season {
        Some(s) => s,
        None => SeasonName::Spring,
    }
}

/// The list pages a crawl with these parameters fetches, in order.
pub open spec fn list_urls_spec(base: Seq<char>, p: CrawlerTaskCreate) -> Seq<Seq<char>> {
    match p.mode {
        CrawlerMode::Homepage => seq![base + "/Home"@],
        CrawlerMode::Season => seq![season_list_url(base, year_of(p), season_of(p).text())],
        CrawlerMode::Year => seq![
            season_list_url(base, year_of(p), SeasonName::Spring.text()),
            season_list_url(base, year_of(p), SeasonName::Summer.text()),
            season_list_url(base, year_of(p), SeasonName::Autumn.text()),
            season_list_url(base, year_of(p), SeasonName::Winter.text()),
        ],
    }
}

fn season_url(base: &str, year: i64, season: SeasonName) -> (r: String)
    ensures
        r@ == season_list_url(base@, year as int, season.text()),
{
    let mut s = String::from_str(base);
    s.append("/Home/BangumiCoverFlowByDayOfWeek?year=");
    push_int(&mut s, year);
    s.append("&seasonStr=");
    s.append(season.as_str());
    proof {
        assert(s@ =~= season_list_url(base@, year as int, season.text()));
    }
    s
}

/// The list pages to fetch: the home page, one season page, or the four
/// season pages of a year. A missing year reads as 0, a missing season as
/// spring.
pub fn list_urls(base_url: &str, params: &CrawlerTaskCreate) -> (r: Vec<String>)
    ensures
        texts(r@) == list_urls_spec(base_url@, *params),
{
    let year: i64 = match params.year {
        Some(y) => y,
        None => 0,
    };
    let mut r: Vec<String> = Vec::new();
    match params.mode {
        CrawlerMode::Homepage => {
            let mut s = String::from_str(base_url);
            s.append("/Home");
            r.push(s);
        },
        CrawlerMode::Season => {
            let season = match params.season {
                Some(s) => s,
                None => SeasonName::Spring,
            };
            r.push(season_url(base_url, year, season));
        },
        CrawlerMode::Year => {
            r.push(season_url(base_url, year, SeasonName::Spring));
            r.push(season_url(base_url, year, SeasonName::Summer));
            r.push(season_url(base_url, year, SeasonName::Autumn));
            r.push(season_url(base_url, year, SeasonName::Winter));
        },
    }
    proof {
        assert(texts(r@) =~= list_urls_spec(base_url@, *params));
    }
    r
}

/// First occurrences only, order kept.
pub open spec fn dedup_texts(s: Seq<Seq<char>>) -> Seq<Seq<char>>
    decreases s.len(),
{
    if s.len() == 0 {
        seq![]
    } else {
        let d = dedup_texts(s.drop_last());
        if d.contains(s.last()) {
            d
        } else {
            d.push(s.last())
        }
    }
}

/// Drops every URL equal to an earlier one.
pub fn dedup_urls(urls: Vec<String>) -> (r: Vec<String>)
    ensures
        texts(r@) == dedup_texts(texts(urls@)),
{
    let ghost orig = urls@;
    let n = urls.len();
    let mut rest = urls;
    let mut r: Vec<String> = Vec::new();
    let mut i: usize = 0;
    while rest.len() > 0
        invariant
            n == orig.len(),
            i <= orig.len(),
            rest@ == orig.subrange(i as int, orig.len() as int),
            texts(r@) == dedup_texts(texts(orig.subrange(0, i as int))),
        decreases rest@.len(),
    {
        let u = rest.remove(0);
        proof {
            assert(u == orig[i as int]);
            assert(texts(orig.subrange(0, i + 1)).drop_last() =~= texts(orig.subrange(0, i as int)));
            assert(texts(orig.subrange(0, i + 1)).last() == u@);
        }
        if !contains_string(&r, &u) {
            r.push(u);
            proof {
                assert(texts(r@) =~= dedup_texts(texts(orig.subrange(0, i + 1))));
            }
        }
        i = i + 1;
        proof {
            assert(rest@ =~= orig.subrange(i as int, orig.len() as int));
        }
    }
    proof {
        assert(orig.subrange(0, i as int) =~= orig);
    }
    r
}

/// The first `limit` items when a non-negative limit is set, else all.
pub open spec fn limited<A>(s: Seq<A>, limit: Option<i64>) -> Seq<A> {
    match limit {
        Some(l) => if 0 <= l && l < s.len() {
            s.take(l as int)
        } else {
            s
        },
        None => s,
    }
}

/// Appends the detail pages of one list page, cut to `limit`. In year
/// mode this is done once per season, so the whole may exceed the limit.
pub fn append_detail_urls(all: &mut Vec<String>, urls: Vec<String>, limit: Option<i64>)
    ensures
        final(all)@ == old(all)@ + limited(urls@, limit),
{
    let ghost given = urls@;
    let mut urls = urls;
    match limit {
        Some(l) => {
            if 0 <= l && (l as u64) < (urls.len() as u64) {
                urls.truncate(l as usize);
            }
        },
        None => {},
    }
    proof {
        assert(urls@ =~= limited(given, limit));
    }
    all.append(&mut urls);
}

pub open spec fn hash_texts(rs: Seq<Resource>) -> Seq<Seq<char>> {
    rs.map_values(|r: Resource| r.magnet_hash->0@)
}

pub open spec fn group_ids(gs: Seq<SubtitleGroup>) -> Seq<i64> {
    gs.map_values(|g: SubtitleGroup| g.id->0)
}

/// Resources of `items` kept by the merge: those with a magnet hash that
/// neither `seen` nor an earlier kept resource has.
pub open spec fn accepted_resources(seen: Seq<Seq<char>>, items: Seq<Resource>) -> Seq<Resource>
    decreases items.len(),
{
    if items.len() == 0 {
        seq![]
    } else {
        let prev = accepted_resources(seen, items.drop_last());
        let r = items.last();
        if r.magnet_hash is Some && !(seen + hash_texts(prev)).contains(r.magnet_hash->0@) {
            prev.push(r)
        } else {
            prev
        }
    }
}

/// Subtitle groups of `items` kept by the merge: those with an id that
/// neither `seen` nor an earlier kept group has.
pub open spec fn accepted_groups(seen: Seq<i64>, items: Seq<SubtitleGroup>) -> Seq<SubtitleGroup>
    decreases items.len(),
{
    if items.len() == 0 {
        seq![]
    } else {
        let prev = accepted_groups(seen, items.drop_last());
        let g = items.last();
        if g.id is Some && !(seen + group_ids(prev)).contains(g.id->0) {
            prev.push(g)
        } else {
            prev
        }
    }
}

/// Law: every resource the merge keeps has a magnet hash (a resource
/// without one is never persisted), and when the candidates' hashes are
/// forty lower-case hex digits, so are the kept ones.
pub proof fn lemma_kept_resources_hashed(seen: Seq<Seq<char>>, items: Seq<Resource>)
    requires
        forall|i: int| 0 <= i < items.len() ==> ((#[trigger] items[i]).magnet_hash matches Some(h)
            ==> is_lower_hex_hash(h@)),
    ensures
        forall|k: int| 0 <= k < accepted_resources(seen, items).len() ==> {
            &&& (#[trigger] accepted_resources(seen, items)[k]).magnet_hash is Some
            &&& is_lower_hex_hash(accepted_resources(seen, items)[k].magnet_hash->0@)
        },
    decreases items.len(),
{
    if items.len() > 0 {
        let d = items.drop_last();
        assert forall|i: int| 0 <= i < d.len() implies ((#[trigger] d[i]).magnet_hash matches Some(h)
            ==> is_lower_hex_hash(h@)) by {
            assert(d[i] == items[i]);
        }
        lemma_kept_resources_hashed(seen, d);
        assert(items.last() == items[items.len() - 1]);
    }
}

/// Hashes present in a batch.
pub open spec fn batch_hashes(batch: Seq<Resource>) -> Set<Seq<char>> {
    Set::new(|h: Seq<char>| exists|i: int| 0 <= i < batch.len() && (#[trigger] batch[i]).magnet_hash is Some && batch[i].magnet_hash->0@ == h)
}

/// Keys of the resource table after upserting a batch keyed by magnet hash:
/// a row per hash, whether it was new or updated.
pub open spec fn upserted_keys(keys: Set<Seq<char>>, batch: Seq<Resource>) -> Set<Seq<char>> {
    keys.union(batch_hashes(batch))
}

/// Law: upserting the same batch again leaves the set of rows, and so the
/// row count, unchanged.
pub proof fn lemma_upsert_idempotent(keys: Set<Seq<char>>, batch: Seq<Resource>)
    ensures
        upserted_keys(upserted_keys(keys, batch), batch) == upserted_keys(keys, batch),
{
    assert(upserted_keys(upserted_keys(keys, batch), batch) =~= upserted_keys(keys, batch));
}

/// `processed * 100 / total`, rounded down; 0 while the total is 0.
pub open spec fn percent_of(processed: int, total: int) -> int {
    if total > 0 {
        processed * 100 / total
    } else {
        0
    }
}

/// Resources buffered after merging `data` (nothing when the page failed).
pub open spec fn buffered_resources(s: CrawlerService, data: Option<AnimeData>) -> Seq<Resource> {
    match data {
        Some(d) => s.resource_buffer@ + accepted_resources(texts(s.resource_hashes@), d.resources@),
        None => s.resource_buffer@,
    }
}

/// Subtitle groups buffered after merging `data`.
pub open spec fn buffered_groups(s: CrawlerService, data: Option<AnimeData>) -> Seq<SubtitleGroup> {
    match data {
        Some(d) => s.subtitle_group_buffer@ + accepted_groups(s.subtitle_group_ids@, d.subtitle_groups@),
        None => s.subtitle_group_buffer@,
    }
}

/// Animes buffered after merging `data`.
pub open spec fn buffered_animes(s: CrawlerService, data: Option<AnimeData>) -> Seq<Anime> {
    match data {
        Some(d) => match d.anime {
            Some(a) => if s.anime_ids@.contains(a.mikan_id) {
                s.anime_buffer@
            } else {
                s.anime_buffer@.push(a)
            },
            None => s.anime_buffer@,
        },
        None => s.anime_buffer@,
    }
}

/// What the run does after a detail page has been handled.
pub enum UnitStep {
    /// Go on with the next page.
    Continue,
    /// Write this batch in one transaction, then go on.
    Flush(FlushBatch),
    /// The task was cancelled; its unflushed buffers were dropped.
    Cancelled,
}

/// Buffered rows to upsert together: animes, groups, resources, in that
/// order.
pub struct FlushBatch {
    pub animes: Vec<Anime>,
    pub subtitle_groups: Vec<SubtitleGroup>,
    pub resources: Vec<Resource>,
}

/// State of one crawl: the buffers not yet written, the keys already taken
/// during this run, and the progress counters.
pub struct CrawlerService {
    pub task_id: i64,
    pub anime_buffer: Vec<Anime>,
    pub subtitle_group_buffer: Vec<SubtitleGroup>,
    pub resource_buffer: Vec<Resource>,
    pub anime_ids: Vec<i64>,
    pub subtitle_group_ids: Vec<i64>,
    pub resource_hashes: Vec<String>,
    pub processed_items: i64,
    pub total_items: i64,
}

/// Whether `v` holds `x`.
pub fn contains_id(v: &Vec<i64>, x: i64) -> (r: bool)
    ensures
        r == v@.contains(x),
{
    let mut i: usize = 0;
    while i < v.len()
        invariant
            i <= v@.len(),
            forall|j: int| 0 <= j < i ==> v@[j] != x,
        decreases v@.len() - i,
    {
        if v[i] == x {
            return true;
        }
        i = i + 1;
    }
    false
}

impl CrawlerService {
    /// The keys taken are distinct, and the counters satisfy
    /// `0 <= processed <= total`.
    pub open spec fn wf(&self) -> bool {
        &&& self.anime_ids@.no_duplicates()
        &&& self.subtitle_group_ids@.no_duplicates()
        &&& texts(self.resource_hashes@).no_duplicates()
        &&& 0 <= self.processed_items <= self.total_items
    }

    pub fn new(task_id: i64) -> (r: Self)
        ensures
            r.task_id == task_id,
            r.anime_buffer@.len() == 0,
            r.subtitle_group_buffer@.len() == 0,
            r.resource_buffer@.len() == 0,
            r.anime_ids@.len() == 0,
            r.subtitle_group_ids@.len() == 0,
            r.resource_hashes@.len() == 0,
            r.processed_items == 0,
            r.total_items == 0,
            r.wf(),
    {
        let r = CrawlerService {
            task_id,
            anime_buffer: Vec::new(),
            subtitle_group_buffer: Vec::new(),
            resource_buffer: Vec::new(),
            anime_ids: Vec::new(),
            subtitle_group_ids: Vec::new(),
            resource_hashes: Vec::new(),
            processed_items: 0,
            total_items: 0,
        };
        proof {
            assert(texts(r.resource_hashes@) =~= Seq::<Seq<char>>::empty());
        }
        r
    }

    /// Sets the number of detail pages of this run; nothing is processed yet.
    pub fn set_total(&mut self, total: usize)
        requires
            old(self).wf(),
            total <= i64::MAX,
        ensures
            final(self).total_items == total as i64,
            final(self).processed_items == 0,
            final(self).wf(),
            final(self).anime_buffer == old(self).anime_buffer,
            final(self).subtitle_group_buffer == old(self).subtitle_group_buffer,
            final(self).resource_buffer == old(self).resource_buffer,
            final(self).anime_ids == old(self).anime_ids,
            final(self).subtitle_group_ids == old(self).subtitle_group_ids,
            final(self).resource_hashes == old(self).resource_hashes,
    {
        self.total_items = total as i64;
        self.processed_items = 0;
    }

    /// Merges one parsed detail page into the buffers. The anime is kept
    /// when its `mikan_id` is new to this run, a subtitle group when its id
    /// is, a resource when its magnet hash is; the kept keys are recorded.
    pub fn merge_anime_data(&mut self, data: AnimeData)
        requires
            old(self).wf(),
        ensures
            final(self).wf(),
            final(self).task_id == old(self).task_id,
            final(self).processed_items == old(self).processed_items,
            final(self).total_items == old(self).total_items,
            ({
                let keep = data.anime matches Some(a) && !old(self).anime_ids@.contains(a.mikan_id);
                &&& keep ==> final(self).anime_buffer@ == old(self).anime_buffer@.push(data.anime->0)
                &&& keep ==> final(self).anime_ids@ == old(self).anime_ids@.push(data.anime->0.mikan_id)
                &&& !keep ==> final(self).anime_buffer@ == old(self).anime_buffer@
                &&& !keep ==> final(self).anime_ids@ == old(self).anime_ids@
            }),
            final(self).subtitle_group_buffer@ == old(self).subtitle_group_buffer@ + accepted_groups(
                old(self).subtitle_group_ids@,
                data.subtitle_groups@,
            ),
            final(self).subtitle_group_ids@ == old(self).subtitle_group_ids@ + group_ids(
                accepted_groups(old(self).subtitle_group_ids@, data.subtitle_groups@),
            ),
            final(self).resource_buffer@ == old(self).resource_buffer@ + accepted_resources(
                texts(old(self).resource_hashes@),
                data.resources@,
            ),
            texts(final(self).resource_hashes@) == texts(old(self).resource_hashes@) + hash_texts(
                accepted_resources(texts(old(self).resource_hashes@), data.resources@),
            ),
    {
        let AnimeData { anime, subtitle_groups, resources } = data;
        match anime {
            Some(a) => {
                if !contains_id(&self.anime_ids, a.mikan_id) {
                    let id = a.mikan_id;
                    self.anime_ids.push(id);
                    self.anime_buffer.push(a);
                }
            },
            None => {},
        }
        self.merge_groups(subtitle_groups);
        self.merge_resources(resources);
    }


    /// Writes the run's progress onto the task row: status, error message,
    /// counters and percentage (100 once completed); a terminal status also
    /// stamps `completed_at` with `now`.
    pub fn update_task_status(
        &self,
        task: &mut CrawlerTask,
        status: CrawlerTaskStatus,
        error_message: Option<String>,
        now: i64,
    )
        requires
            self.wf(),
            times_ok(*old(task)),
            clock_after(*old(task), now),
            old(task).created_at is Some,
            status == CrawlerTaskStatus::Running || status.is_terminal(),
            status == CrawlerTaskStatus::Running ==> old(task).status == CrawlerTaskStatus::Running,
        ensures
            final(task).status == status,
            final(task).error_message == error_message,
            final(task).processed_items == Some(self.processed_items),
            final(task).total_items == Some(self.total_items),
            final(task).percentage == Some(
                if status == CrawlerTaskStatus::Completed {
                    100
                } else {
                    percent_of(self.processed_items as int, self.total_items as int) as i64
                },
            ),
            status.is_terminal() ==> final(task).completed_at == Some(now),
            !status.is_terminal() ==> final(task).completed_at == old(task).completed_at,
            final(task).created_at == old(task).created_at,
            final(task).started_at == old(task).started_at,
            final(task).id == old(task).id,
            final(task).task_type == old(task).task_type,
            final(task).parameters == old(task).parameters,
            times_ok(*final(task)),
            progress_ok(*final(task)),
    {
        let percentage: i64 = if status == CrawlerTaskStatus::Completed {
            100
        } else if self.total_items > 0 {
            let p = (self.processed_items as i128) * 100 / (self.total_items as i128);
            proof {
                assert((self.processed_items as int) * 100 <= (self.total_items as int) * 100) by (nonlinear_arith)
                    requires self.processed_items <= self.total_items;
                assert(0 <= (self.processed_items as int) * 100 / (self.total_items as int) <= 100) by (nonlinear_arith)
                    requires 0 <= self.processed_items <= self.total_items, self.total_items > 0;
            }
            p as i64
        } else {
            0
        };
        task.status = status;
        task.percentage = Some(percentage);
        task.processed_items = Some(self.processed_items);
        task.total_items = Some(self.total_items);
        task.error_message = error_message;
        if status == CrawlerTaskStatus::Completed || status == CrawlerTaskStatus::Failed || status
            == CrawlerTaskStatus::Cancelled {
            task.completed_at = Some(now);
        }
    }

    /// Hands out everything buffered, in one batch, and empties the buffers.
    /// The keys taken stay recorded, so a later batch never repeats them.
    pub fn take_batch(&mut self) -> (r: FlushBatch)
        ensures
            r.animes@ == old(self).anime_buffer@,
            r.subtitle_groups@ == old(self).subtitle_group_buffer@,
            r.resources@ == old(self).resource_buffer@,
            final(self).anime_buffer@.len() == 0,
            final(self).subtitle_group_buffer@.len() == 0,
            final(self).resource_buffer@.len() == 0,
            final(self).task_id == old(self).task_id,
            final(self).anime_ids == old(self).anime_ids,
            final(self).subtitle_group_ids == old(self).subtitle_group_ids,
            final(self).resource_hashes == old(self).resource_hashes,
            final(self).processed_items == old(self).processed_items,
            final(self).total_items == old(self).total_items,
    {
        let mut animes: Vec<Anime> = Vec::new();
        let mut groups: Vec<SubtitleGroup> = Vec::new();
        let mut resources: Vec<Resource> = Vec::new();
        animes.append(&mut self.anime_buffer);
        groups.append(&mut self.subtitle_group_buffer);
        resources.append(&mut self.resource_buffer);
        proof {
            assert(animes@ =~= old(self).anime_buffer@);
            assert(groups@ =~= old(self).subtitle_group_buffer@);
            assert(resources@ =~= old(self).resource_buffer@);
        }
        FlushBatch { animes, subtitle_groups: groups, resources }
    }

    /// One detail page has been handled, `data` being what it yielded (none
    /// when its fetch or parse failed).
    ///
    /// When `cancelled`, the row becomes cancelled with the cancellation
    /// message, the unflushed buffers are dropped, and nothing is counted.
    /// Otherwise the page is merged and counted, the row shows the new
    /// progress, and every tenth page, as well as the last, asks for a flush
    /// of all that is buffered.
    pub fn on_unit(
        &mut self,
        task: &mut CrawlerTask,
        data: Option<AnimeData>,
        cancelled: bool,
        now: i64,
    ) -> (r: UnitStep)
        requires
            old(self).wf(),
            old(self).processed_items < old(self).total_items,
            old(task).status == CrawlerTaskStatus::Running,
            times_ok(*old(task)),
            clock_after(*old(task), now),
            old(task).created_at is Some,
        ensures
            final(self).wf(),
            times_ok(*final(task)),
            progress_ok(*final(task)),
            final(task).created_at == old(task).created_at,
            final(task).started_at == old(task).started_at,
            final(self).total_items == old(self).total_items,
            cancelled ==> {
                &&& r is Cancelled
                &&& final(task).status == CrawlerTaskStatus::Cancelled
                &&& final(task).completed_at == Some(now)
                &&& final(task).error_message matches Some(m) && m@ == cancelled_message()
                &&& final(self).processed_items == old(self).processed_items
                &&& final(self).anime_buffer@.len() == 0
                &&& final(self).subtitle_group_buffer@.len() == 0
                &&& final(self).resource_buffer@.len() == 0
            },
            !cancelled ==> {
                &&& final(task).status == CrawlerTaskStatus::Running
                &&& final(task).completed_at == old(task).completed_at
                &&& final(self).processed_items == old(self).processed_items + 1
                &&& final(task).processed_items == Some(final(self).processed_items)
                &&& final(task).total_items == Some(final(self).total_items)
                &&& final(task).percentage == Some(
                    percent_of(final(self).processed_items as int, final(self).total_items as int) as i64,
                )
                &&& (r is Flush <==> (final(self).processed_items % FLUSH_EVERY == 0
                    || final(self).processed_items == final(self).total_items))
                &&& (r is Continue <==> !(r is Flush))
            },
            r is Flush ==> final(self).anime_buffer@.len() == 0 && final(self).subtitle_group_buffer@.len() == 0
                && final(self).resource_buffer@.len() == 0,
            r matches UnitStep::Flush(b) ==> {
                &&& b.animes@ == buffered_animes(*old(self), data)
                &&& b.subtitle_groups@ == buffered_groups(*old(self), data)
                &&& b.resources@ == buffered_resources(*old(self), data)
            },
            r is Continue ==> {
                &&& final(self).anime_buffer@ == buffered_animes(*old(self), data)
                &&& final(self).subtitle_group_buffer@ == buffered_groups(*old(self), data)
                &&& final(self).resource_buffer@ == buffered_resources(*old(self), data)
            },
            !cancelled && data is Some ==> texts(final(self).resource_hashes@) == texts(
                old(self).resource_hashes@,
            ) + hash_texts(
                accepted_resources(texts(old(self).resource_hashes@), data->0.resources@),
            ),
    {
        if cancelled {
            let _dropped = self.take_batch();
            self.update_task_status(
                task,
                CrawlerTaskStatus::Cancelled,
                Some(String::from_str("任务被取消")),
                now,
            );
            return UnitStep::Cancelled;
        }
        let ghost before = *self;
        match data {
            Some(d) => self.merge_anime_data(d),
            None => {},
        }
        proof {
            assert(self.anime_buffer@ == buffered_animes(before, data));
            assert(self.subtitle_group_buffer@ == buffered_groups(before, data));
            assert(self.resource_buffer@ == buffered_resources(before, data));
        }
        self.processed_items = self.processed_items + 1;
        self.update_task_status(task, CrawlerTaskStatus::Running, None, now);
        if self.processed_items % FLUSH_EVERY == 0 || self.processed_items == self.total_items {
            UnitStep::Flush(self.take_batch())
        } else {
            UnitStep::Continue
        }
    }


    /// A batch could not be written: the task fails with the store's message.
    pub fn on_flush_failed(&self, task: &mut CrawlerTask, message: &String, now: i64)
        requires
            self.wf(),
            times_ok(*old(task)),
            clock_after(*old(task), now),
            old(task).created_at is Some,
        ensures
            final(task).status == CrawlerTaskStatus::Failed,
            final(task).completed_at == Some(now),
            final(task).error_message matches Some(m) && m@ == flush_failed_prefix() + message@,
            times_ok(*final(task)),
            progress_ok(*final(task)),
    {
        let mut m = String::from_str("保存数据到数据库失败: ");
        m.append(message.as_str());
        self.update_task_status(task, CrawlerTaskStatus::Failed, Some(m), now);
    }

    /// Every detail page has been handled: the task is completed.
    pub fn complete(&self, task: &mut CrawlerTask, now: i64)
        requires
            self.wf(),
            times_ok(*old(task)),
            clock_after(*old(task), now),
            old(task).created_at is Some,
            old(task).status == CrawlerTaskStatus::Running,
        ensures
            final(task).status == CrawlerTaskStatus::Completed,
            final(task).completed_at == Some(now),
            final(task).percentage == Some(100i64),
            final(task).processed_items == Some(self.processed_items),
            final(task).total_items == Some(self.total_items),
            final(task).error_message.is_none(),
            times_ok(*final(task)),
            progress_ok(*final(task)),
    {
        self.update_task_status(task, CrawlerTaskStatus::Completed, None, now);
    }

    fn merge_groups(&mut self, groups: Vec<SubtitleGroup>)
        requires
            old(self).subtitle_group_ids@.no_duplicates(),
        ensures
            final(self).subtitle_group_ids@.no_duplicates(),
            final(self).task_id == old(self).task_id,
            final(self).anime_buffer == old(self).anime_buffer,
            final(self).anime_ids == old(self).anime_ids,
            final(self).resource_buffer == old(self).resource_buffer,
            final(self).resource_hashes == old(self).resource_hashes,
            final(self).processed_items == old(self).processed_items,
            final(self).total_items == old(self).total_items,
            final(self).subtitle_group_buffer@ == old(self).subtitle_group_buffer@ + accepted_groups(
                old(self).subtitle_group_ids@,
                groups@,
            ),
            final(self).subtitle_group_ids@ == old(self).subtitle_group_ids@ + group_ids(
                accepted_groups(old(self).subtitle_group_ids@, groups@),
            ),
    {
        let ghost orig = groups@;
        let ghost seen0 = self.subtitle_group_ids@;
        let ghost buf0 = self.subtitle_group_buffer@;
        let n = groups.len();
        let mut rest = groups;
        let mut i: usize = 0;
        while rest.len() > 0
            invariant
                n == orig.len(),
                i <= n,
                rest@ == orig.subrange(i as int, n as int),
                self.subtitle_group_ids@.no_duplicates(),
                self.subtitle_group_buffer@ == buf0 + accepted_groups(seen0, orig.subrange(0, i as int)),
                self.subtitle_group_ids@ == seen0 + group_ids(accepted_groups(seen0, orig.subrange(0, i as int))),
                self.task_id == old(self).task_id,
                self.anime_buffer == old(self).anime_buffer,
                self.anime_ids == old(self).anime_ids,
                self.resource_buffer == old(self).resource_buffer,
                self.resource_hashes == old(self).resource_hashes,
                self.processed_items == old(self).processed_items,
                self.total_items == old(self).total_items,
            decreases rest@.len(),
        {
            let g = rest.remove(0);
            proof {
                assert(g == orig[i as int]);
                assert(orig.subrange(0, i + 1).drop_last() =~= orig.subrange(0, i as int));
                assert(orig.subrange(0, i + 1).last() == g);
            }
            match g.id {
                Some(id) => {
                    if !contains_id(&self.subtitle_group_ids, id) {
                        self.subtitle_group_ids.push(id);
                        self.subtitle_group_buffer.push(g);
                        proof {
                            let prev = accepted_groups(seen0, orig.subrange(0, i as int));
                            assert(group_ids(prev.push(orig[i as int])) =~= group_ids(prev).push(id));
                            assert(self.subtitle_group_buffer@ =~= buf0 + accepted_groups(seen0, orig.subrange(0, i + 1)));
                            assert(self.subtitle_group_ids@ =~= seen0 + group_ids(accepted_groups(seen0, orig.subrange(0, i + 1))));
                        }
                    }
                },
                None => {},
            }
            i = i + 1;
            proof {
                assert(rest@ =~= orig.subrange(i as int, n as int));
            }
        }
        proof {
            assert(orig.subrange(0, i as int) =~= orig);
        }
    }

    fn merge_resources(&mut self, resources: Vec<Resource>)
        requires
            texts(old(self).resource_hashes@).no_duplicates(),
        ensures
            texts(final(self).resource_hashes@).no_duplicates(),
            final(self).task_id == old(self).task_id,
            final(self).anime_buffer == old(self).anime_buffer,
            final(self).anime_ids == old(self).anime_ids,
            final(self).subtitle_group_buffer == old(self).subtitle_group_buffer,
            final(self).subtitle_group_ids == old(self).subtitle_group_ids,
            final(self).processed_items == old(self).processed_items,
            final(self).total_items == old(self).total_items,
            final(self).resource_buffer@ == old(self).resource_buffer@ + accepted_resources(
                texts(old(self).resource_hashes@),
                resources@,
            ),
            texts(final(self).resource_hashes@) == texts(old(self).resource_hashes@) + hash_texts(
                accepted_resources(texts(old(self).resource_hashes@), resources@),
            ),
    {
        let ghost orig = resources@;
        let ghost seen0 = texts(self.resource_hashes@);
        let ghost buf0 = self.resource_buffer@;
        let n = resources.len();
        let mut rest = resources;
        let mut i: usize = 0;
        while rest.len() > 0
            invariant
                n == orig.len(),
                i <= n,
                rest@ == orig.subrange(i as int, n as int),
                texts(self.resource_hashes@).no_duplicates(),
                self.resource_buffer@ == buf0 + accepted_resources(seen0, orig.subrange(0, i as int)),
                texts(self.resource_hashes@) == seen0 + hash_texts(accepted_resources(seen0, orig.subrange(0, i as int))),
                self.task_id == old(self).task_id,
                self.anime_buffer == old(self).anime_buffer,
                self.anime_ids == old(self).anime_ids,
                self.subtitle_group_buffer == old(self).subtitle_group_buffer,
                self.subtitle_group_ids == old(self).subtitle_group_ids,
                self.processed_items == old(self).processed_items,
                self.total_items == old(self).total_items,
            decreases rest@.len(),
        {
            let r = rest.remove(0);
            proof {
                assert(r == orig[i as int]);
                assert(orig.subrange(0, i + 1).drop_last() =~= orig.subrange(0, i as int));
                assert(orig.subrange(0, i + 1).last() == r);
            }
            let taken = match &r.magnet_hash {
                Some(h) => {
                    if !contains_string(&self.resource_hashes, h) {
                        Some(copy_string(h))
                    } else {
                        None
                    }
                },
                None => None,
            };
            match taken {
                Some(h) => {
                    let ghost hv = h@;
                    let ghost before = texts(self.resource_hashes@);
                    self.resource_hashes.push(h);
                    self.resource_buffer.push(r);
                    proof {
                        let prev = accepted_resources(seen0, orig.subrange(0, i as int));
                        assert(hash_texts(prev.push(orig[i as int])) =~= hash_texts(prev).push(hv));
                        assert(texts(self.resource_hashes@) =~= before.push(hv));
                        assert(!before.contains(hv));
                        assert(r.magnet_hash->0@ == hv);
                        assert(self.resource_buffer@ =~= buf0 + accepted_resources(seen0, orig.subrange(0, i + 1)));
                        assert(texts(self.resource_hashes@) =~= seen0 + hash_texts(accepted_resources(seen0, orig.subrange(0, i + 1))));
                    }
                },
                None => {},
            }
            i = i + 1;
            proof {
                assert(rest@ =~= orig.subrange(i as int, n as int));
            }
        }
        proof {
            assert(orig.subrange(0, i as int) =~= orig);
        }
    }
}

} // verus!
