//! Tunable settings: store location, cache TTLs and refresh intervals, in
//! seconds. A missing value falls back to its default.
use vstd::prelude::*;

verus! {

pub const DEFAULT_SUB_TTL: i64 = 3600;
pub const DEFAULT_NONSUB_TTL: i64 = 43200;
pub const DEFAULT_CALENDAR_TTL: i64 = 86400;
pub const DEFAULT_SUB_REFRESH_INTERVAL: i64 = 3600;
pub const DEFAULT_NONSUB_REFRESH_INTERVAL: i64 = 43200;
pub const DEFAULT_CALENDAR_REFRESH_INTERVAL: i64 = 86400;

#[derive(Debug, Clone)]
pub struct Config {
    pub db_url: String,
    pub bangumi_sub_ttl: Option<i64>,
    pub bangumi_nonsub_ttl: Option<i64>,
    pub bangumi_calendar_ttl: Option<i64>,
    pub bangumi_sub_refresh_interval: Option<i64>,
    pub bangumi_nonsub_refresh_interval: Option<i64>,
    pub bangumi_calendar_refresh_interval: Option<i64>,
}

pub open spec fn or_default(v: Option<i64>, d: i64) -> i64 {
    match v {
        Some(x) => x,
        None => d,
    }
}

fn or_default_exec(v: Option<i64>, d: i64) -> (r: i64)
    ensures
        r == or_default(v, d),
{
    match v {
        Some(x) => x,
        None => d,
    }
}

impl Default for Config {
    fn default() -> (r: Self)
        ensures
            r.db_url@ == "sqlite:ikuyo.db?mode=rwc"@,
            r.bangumi_sub_ttl == Some(DEFAULT_SUB_TTL),
            r.bangumi_nonsub_ttl == Some(DEFAULT_NONSUB_TTL),
            r.bangumi_calendar_ttl == Some(DEFAULT_CALENDAR_TTL),
            r.bangumi_sub_refresh_interval == Some(DEFAULT_SUB_REFRESH_INTERVAL),
            r.bangumi_nonsub_refresh_interval == Some(DEFAULT_NONSUB_REFRESH_INTERVAL),
            r.bangumi_calendar_refresh_interval == Some(DEFAULT_CALENDAR_REFRESH_INTERVAL),
    {
        Config {
            db_url: String::from_str("sqlite:ikuyo.db?mode=rwc"),
            bangumi_sub_ttl: Some(DEFAULT_SUB_TTL),
            bangumi_nonsub_ttl: Some(DEFAULT_NONSUB_TTL),
            bangumi_calendar_ttl: Some(DEFAULT_CALENDAR_TTL),
            bangumi_sub_refresh_interval: Some(DEFAULT_SUB_REFRESH_INTERVAL),
            bangumi_nonsub_refresh_interval: Some(DEFAULT_NONSUB_REFRESH_INTERVAL),
            bangumi_calendar_refresh_interval: Some(DEFAULT_CALENDAR_REFRESH_INTERVAL),
        }
    }
}

impl Config {
    pub open spec fn sub_ttl_spec(&self) -> i64 {
        or_default(self.bangumi_sub_ttl, DEFAULT_SUB_TTL)
    }

    pub open spec fn nonsub_ttl_spec(&self) -> i64 {
        or_default(self.bangumi_nonsub_ttl, DEFAULT_NONSUB_TTL)
    }

    pub open spec fn calendar_ttl_spec(&self) -> i64 {
        or_default(self.bangumi_calendar_ttl, DEFAULT_CALENDAR_TTL)
    }

    pub open spec fn sub_interval_spec(&self) -> i64 {
        or_default(self.bangumi_sub_refresh_interval, DEFAULT_SUB_REFRESH_INTERVAL)
    }

    pub open spec fn nonsub_interval_spec(&self) -> i64 {
        or_default(self.bangumi_nonsub_refresh_interval, DEFAULT_NONSUB_REFRESH_INTERVAL)
    }

    pub open spec fn calendar_interval_spec(&self) -> i64 {
        or_default(self.bangumi_calendar_refresh_interval, DEFAULT_CALENDAR_REFRESH_INTERVAL)
    }

    /// TTL of subject and episode rows of a subscribed show.
    pub fn sub_ttl(&self) -> (r: i64)
        ensures
            r == self.sub_ttl_spec(),
    {
        or_default_exec(self.bangumi_sub_ttl, DEFAULT_SUB_TTL)
    }

    /// TTL of subject and episode rows of a show nobody subscribes to.
    pub fn nonsub_ttl(&self) -> (r: i64)
        ensures
            r == self.nonsub_ttl_spec(),
    {
        or_default_exec(self.bangumi_nonsub_ttl, DEFAULT_NONSUB_TTL)
    }

    /// TTL of the weekly calendar row.
    pub fn calendar_ttl(&self) -> (r: i64)
        ensures
            r == self.calendar_ttl_spec(),
    {
        or_default_exec(self.bangumi_calendar_ttl, DEFAULT_CALENDAR_TTL)
    }

    pub fn sub_refresh_interval(&self) -> (r: i64)
        ensures
            r == self.sub_interval_spec(),
    {
        or_default_exec(self.bangumi_sub_refresh_interval, DEFAULT_SUB_REFRESH_INTERVAL)
    }

    pub fn nonsub_refresh_interval(&self) -> (r: i64)
        ensures
            r == self.nonsub_interval_spec(),
    {
        or_default_exec(self.bangumi_nonsub_refresh_interval, DEFAULT_NONSUB_REFRESH_INTERVAL)
    }

    pub fn calendar_refresh_interval(&self) -> (r: i64)
        ensures
            r == self.calendar_interval_spec(),
    {
        or_default_exec(self.bangumi_calendar_refresh_interval, DEFAULT_CALENDAR_REFRESH_INTERVAL)
    }
}

} // verus!
