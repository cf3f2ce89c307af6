//! Parameters and outward shapes of crawler tasks.
use vstd::prelude::*;
use crate::models;

verus! {

#[derive(Debug, Clone, Copy, PartialEq, Eq, Structural)]
pub enum CrawlerMode {
    Homepage,
    Season,
    Year,
}

impl CrawlerMode {
    pub open spec fn text(self) -> Seq<char> {
        match self {
            CrawlerMode::Homepage => "homepage"@,
            CrawlerMode::Season => "season"@,
            CrawlerMode::Year => "year"@,
        }
    }

    /// The persisted name of the mode.
    pub fn as_str(&self) -> (r: &'static str)
        ensures
            r@ == self.text(),
    {
        match self {
            CrawlerMode::Homepage => "homepage",
            CrawlerMode::Season => "season",
            CrawlerMode::Year => "year",
        }
    }
}

#[derive(Debug, Clone, Copy, PartialEq, Eq, Structural)]
pub enum SeasonName {
    Spring,
    Summer,
    Autumn,
    Winter,
}

impl SeasonName {
    pub open spec fn text(self) -> Seq<char> {
        match self {
            SeasonName::Spring => "春"@,
            SeasonName::Summer => "夏"@,
            SeasonName::Autumn => "秋"@,
            SeasonName::Winter => "冬"@,
        }
    }

    /// The season's name as the release tracker spells it in list URLs.
    pub fn as_str(&self) -> (r: &'static str)
        ensures
            r@ == self.text(),
    {
        match self {
            SeasonName::Spring => "春",
            SeasonName::Summer => "夏",
            SeasonName::Autumn => "秋",
            SeasonName::Winter => "冬",
        }
    }
}

/// Parameters of a crawl: the mode, the year and season it needs, and an
/// optional cap on the detail pages taken from each list page.
#[derive(Debug, Clone, Copy, PartialEq, Eq, Structural)]
pub struct CrawlerTaskCreate {
    pub mode: CrawlerMode,
    pub year: Option<i64>,
    pub season: Option<SeasonName>,
    pub limit: Option<i64>,
}

impl Default for CrawlerTaskCreate {
    fn default() -> (r: Self)
        ensures
            r.mode == CrawlerMode::Homepage,
            r.year.is_none(),
            r.season.is_none(),
            r.limit.is_none(),
    {
        CrawlerTaskCreate { mode: CrawlerMode::Homepage, year: None, season: None, limit: None }
    }
}

/// Task origin as shown to the front end.
#[derive(Debug, Clone, Copy, PartialEq, Eq, Structural)]
pub enum CrawlerTaskType {
    Manual,
    Schedule,
}

impl From<models::CrawlerTaskType> for CrawlerTaskType {
    fn from(value: models::CrawlerTaskType) -> (r: Self) {
        match value {
            models::CrawlerTaskType::Manual => CrawlerTaskType::Manual,
            models::CrawlerTaskType::Scheduled => CrawlerTaskType::Schedule,
        }
    }
}

impl vstd::std_specs::convert::FromSpecImpl<models::CrawlerTaskType> for CrawlerTaskType {
    open spec fn obeys_from_spec() -> bool {
        true
    }

    open spec fn from_spec(value: models::CrawlerTaskType) -> Self {
        match value {
            models::CrawlerTaskType::Manual => CrawlerTaskType::Manual,
            models::CrawlerTaskType::Scheduled => CrawlerTaskType::Schedule,
        }
    }
}

/// Task status as shown to the front end.
#[derive(Debug, Clone, Copy, PartialEq, Eq, Structural)]
pub enum CrawlerTaskStatus {
    Pending,
    Running,
    Completed,
    Failed,
    Cancelled,
}

impl From<models::CrawlerTaskStatus> for CrawlerTaskStatus {
    fn from(value: models::CrawlerTaskStatus) -> (r: Self) {
        match value {
            models::CrawlerTaskStatus::Pending => CrawlerTaskStatus::Pending,
            models::CrawlerTaskStatus::Running => CrawlerTaskStatus::Running,
            models::CrawlerTaskStatus::Completed => CrawlerTaskStatus::Completed,
            models::CrawlerTaskStatus::Failed => CrawlerTaskStatus::Failed,
            models::CrawlerTaskStatus::Cancelled => CrawlerTaskStatus::Cancelled,
        }
    }
}

impl vstd::std_specs::convert::FromSpecImpl<models::CrawlerTaskStatus> for CrawlerTaskStatus {
    open spec fn obeys_from_spec() -> bool {
        true
    }

    open spec fn from_spec(value: models::CrawlerTaskStatus) -> Self {
        match value {
            models::CrawlerTaskStatus::Pending => CrawlerTaskStatus::Pending,
            models::CrawlerTaskStatus::Running => CrawlerTaskStatus::Running,
            models::CrawlerTaskStatus::Completed => CrawlerTaskStatus::Completed,
            models::CrawlerTaskStatus::Failed => CrawlerTaskStatus::Failed,
            models::CrawlerTaskStatus::Cancelled => CrawlerTaskStatus::Cancelled,
        }
    }
}

} // verus!
