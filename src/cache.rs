//! The store-backed mirror of the metadata API: freshness by per-row TTL,
//! TTL chosen by subscription state, stale-on-error, and the API URLs.
//! Times here are epoch seconds.
use vstd::prelude::*;
use crate::chars::{copy_string, int_text, push_int};
use crate::config::Config;
use crate::error::AppError;

verus! {

/// A cached API response with the time it was written and its TTL.
#[derive(Debug, Clone)]
pub struct CacheEntry {
    pub content: String,
    pub updated_at: i64,
    pub ttl: i64,
}

/// A row is fresh while `now - updated_at < ttl`.
pub open spec fn is_fresh_spec(e: CacheEntry, now: i64) -> bool {
    (now as int) - (e.updated_at as int) < e.ttl as int
}

/// What a read returns, given the row found, the clock, and the API's
/// answer (`None` when the call failed): a fresh row, else the API's
/// answer, else the stale row, else nothing.
pub open spec fn read_result(row: Option<CacheEntry>, now: i64, fetched: Option<Seq<char>>) -> Option<
    Seq<char>,
> {
    if row is Some && is_fresh_spec(row->0, now) {
        Some(row->0.content@)
    } else if fetched is Some {
        fetched
    } else if row is Some {
        Some(row->0.content@)
    } else {
        None
    }
}

/// Whether the row may be served without asking the API.
pub fn is_fresh(e: &CacheEntry, now: i64) -> (r: bool)
    ensures
        r == is_fresh_spec(*e, now),
{
    (now as i128) - (e.updated_at as i128) < e.ttl as i128
}

/// The cached content when the row is fresh; `None` means the API must be
/// asked.
pub fn cached_value(row: &Option<CacheEntry>, now: i64) -> (r: Option<String>)
    ensures
        r is Some <==> (row is Some && is_fresh_spec(row->0, now)),
        r matches Some(c) ==> Some(c@) == read_result(*row, now, None),
{
    match row {
        Some(e) => {
            if is_fresh(e, now) {
                Some(copy_string(&e.content))
            } else {
                None
            }
        },
        None => None,
    }
}

/// Outcome of a read that had to ask the API.
pub enum CacheFill {
    /// The API answered: return `content` and upsert `entry`.
    Store { content: String, entry: CacheEntry },
    /// The API failed but a stale row exists: return it.
    Stale(String),
    /// The API failed and nothing is cached.
    Failed(AppError),
}

/// Completes a read after the API was asked. On success the content is
/// returned and stored as written `now` with the `ttl` policy gives; on
/// failure a stale row is served if there is one, else the error surfaces.
pub fn after_fetch(row: Option<CacheEntry>, fetched: Result<String, AppError>, now: i64, ttl: i64) -> (r:
    CacheFill)
    ensures
        fetched is Ok ==> (r matches CacheFill::Store { content, entry } && content@
            == fetched->Ok_0@ && entry.content@ == fetched->Ok_0@ && entry.updated_at == now
            && entry.ttl == ttl),
        fetched is Err && row is Some ==> (r matches CacheFill::Stale(c) && c@ == row->0.content@),
        fetched is Err && row is None ==> r matches CacheFill::Failed(_),
        !(row is Some && is_fresh_spec(row->0, now)) ==> match r {
            CacheFill::Store { content, entry } => Some(content@) == read_result(
                row,
                now,
                Some(fetched->Ok_0@),
            ),
            CacheFill::Stale(c) => fetched is Err && Some(c@) == read_result(row, now, None),
            CacheFill::Failed(_) => fetched is Err && read_result(row, now, None) is None,
        },
{
    match fetched {
        Ok(content) => {
            let entry = CacheEntry { content: copy_string(&content), updated_at: now, ttl };
            CacheFill::Store { content, entry }
        },
        Err(e) => match row {
            Some(old_row) => CacheFill::Stale(old_row.content),
            None => CacheFill::Failed(e),
        },
    }
}

/// Law: a read yields a value exactly when a fresh row exists, or the API
/// answers, or a stale row exists.
pub proof fn lemma_read_has_value(row: Option<CacheEntry>, now: i64, fetched: Option<Seq<char>>)
    ensures
        read_result(row, now, fetched) is Some <==> ((row is Some && is_fresh_spec(row->0, now))
            || fetched is Some || row is Some),
{
}

/// TTL written on a show's subject and episode rows: the subscribed TTL
/// while someone subscribes to it, the non-subscribed TTL otherwise.
pub fn policy_ttl(config: &Config, subscribed: bool) -> (r: i64)
    ensures
        subscribed ==> r == config.sub_ttl_spec(),
        !subscribed ==> r == config.nonsub_ttl_spec(),
{
    if subscribed {
        config.sub_ttl()
    } else {
        config.nonsub_ttl()
    }
}

pub open spec fn subject_url_spec(base: Seq<char>, id: i64) -> Seq<char> {
    base + "/v0/subjects/"@ + int_text(id as int)
}

pub open spec fn calendar_url_spec(base: Seq<char>) -> Seq<char> {
    base + "/calendar"@
}

pub open spec fn opt_param(name: Seq<char>, v: Option<i64>) -> Seq<char> {
    match v {
        Some(x) => "&"@ + name + "="@ + int_text(x as int),
        None => Seq::empty(),
    }
}

/// The episodes query: the subject, then type, limit and offset when given.
pub open spec fn episodes_url_spec(
    base: Seq<char>,
    subject_id: i64,
    episode_type: Option<i64>,
    limit: Option<i64>,
    offset: Option<i64>,
) -> Seq<char> {
    base + "/v0/episodes?subject_id="@ + int_text(subject_id as int) + opt_param("type"@, episode_type)
        + opt_param("limit"@, limit) + opt_param("offset"@, offset)
}

/// URL of one show record.
pub fn subject_url(base: &str, id: i64) -> (r: String)
    ensures
        r@ == subject_url_spec(base@, id),
{
    let mut s = String::from_str(base);
    s.append("/v0/subjects/");
    push_int(&mut s, id);
    proof {
        assert(s@ =~= subject_url_spec(base@, id));
    }
    s
}

/// URL of the weekly calendar.
pub fn calendar_url(base: &str) -> (r: String)
    ensures
        r@ == calendar_url_spec(base@),
{
    let mut s = String::from_str(base);
    s.append("/calendar");
    s
}

fn push_opt_param(s: &mut String, name: &str, v: Option<i64>)
    ensures
        final(s)@ == old(s)@ + opt_param(name@, v),
{
    match v {
        Some(x) => {
            s.append("&");
            s.append(name);
            s.append("=");
            push_int(s, x);
            proof {
                assert(final(s)@ =~= old(s)@ + opt_param(name@, v));
            }
        },
        None => {
            proof {
                assert(s@ =~= old(s)@ + opt_param(name@, v));
            }
        },
    }
}

/// URL of one page of a show's episodes.
pub fn episodes_url(
    base: &str,
    subject_id: i64,
    episode_type: Option<i64>,
    limit: Option<i64>,
    offset: Option<i64>,
) -> (r: String)
    ensures
        r@ == episodes_url_spec(base@, subject_id, episode_type, limit, offset),
{
    let mut s = String::from_str(base);
    s.append("/v0/episodes?subject_id=");
    push_int(&mut s, subject_id);
    push_opt_param(&mut s, "type", episode_type);
    push_opt_param(&mut s, "limit", limit);
    push_opt_param(&mut s, "offset", offset);
    proof {
        assert(s@ =~= episodes_url_spec(base@, subject_id, episode_type, limit, offset));
    }
    s
}

} // verus!
