//! Rows of the relational store, as plain values. Timestamps are epoch
//! milliseconds; a crawler task's percentage is a whole number of percent.
use vstd::prelude::*;

verus! {

#[derive(Debug, Clone, Copy, PartialEq, Eq, Structural)]
pub enum AnimeStatus {
    Unknown,
    Airing,
    Finished,
}

#[derive(Debug, Clone, Copy, PartialEq, Eq, Structural)]
pub enum CrawlerTaskStatus {
    Pending,
    Running,
    Completed,
    Failed,
    Cancelled,
}

impl CrawlerTaskStatus {
    /// Completed, failed and cancelled tasks never run again.
    pub open spec fn is_terminal(self) -> bool {
        self == CrawlerTaskStatus::Completed || self == CrawlerTaskStatus::Failed || self
            == CrawlerTaskStatus::Cancelled
    }
}

#[derive(Debug, Clone, Copy, PartialEq, Eq, Structural)]
pub enum CrawlerTaskType {
    Manual,
    Scheduled,
}

#[derive(Debug, Clone)]
pub struct Anime {
    pub mikan_id: i64,
    pub bangumi_id: i64,
    pub title: String,
    pub original_title: Option<String>,
    pub broadcast_day: Option<String>,
    pub broadcast_start: Option<String>,
    pub official_website: Option<String>,
    pub bangumi_url: Option<String>,
    pub description: Option<String>,
    pub status: Option<AnimeStatus>,
    pub created_at: Option<i64>,
    pub updated_at: Option<i64>,
}

#[derive(Debug, Clone)]
pub struct AnimeSubtitleGroup {
    pub id: Option<i64>,
    pub mikan_id: i64,
    pub subtitle_group_id: i64,
    pub first_release_date: Option<i64>,
    pub last_update_date: Option<i64>,
    pub resource_count: Option<i64>,
    pub is_active: Option<bool>,
    pub created_at: Option<i64>,
    pub updated_at: Option<i64>,
}

/// A crawler task row. `percentage` is `processed_items * 100 / total_items`
/// rounded down (0 while the total is 0), and 100 once completed.
#[derive(Debug, Clone)]
pub struct CrawlerTask {
    pub id: Option<i64>,
    pub task_type: CrawlerTaskType,
    pub status: CrawlerTaskStatus,
    pub parameters: Option<String>,
    pub result_summary: Option<String>,
    pub created_at: Option<i64>,
    pub started_at: Option<i64>,
    pub completed_at: Option<i64>,
    pub error_message: Option<String>,
    pub percentage: Option<i64>,
    pub processed_items: Option<i64>,
    pub total_items: Option<i64>,
}

#[derive(Debug, Clone)]
pub struct SubtitleGroup {
    pub id: Option<i64>,
    pub name: String,
    pub last_update: Option<i64>,
    pub created_at: Option<i64>,
}

#[derive(Debug, Clone)]
pub struct Resource {
    pub id: Option<i64>,
    pub mikan_id: i64,
    pub subtitle_group_id: i64,
    pub episode_number: Option<i32>,
    pub title: String,
    pub file_size: Option<String>,
    pub resolution: Option<String>,
    pub subtitle_type: Option<String>,
    pub magnet_url: Option<String>,
    pub torrent_url: Option<String>,
    pub play_url: Option<String>,
    pub magnet_hash: Option<String>,
    pub release_date: Option<i64>,
    pub created_at: Option<i64>,
    pub updated_at: Option<i64>,
}

#[derive(Debug, Clone, Copy, PartialEq, Eq, Structural)]
pub struct EpisodeResourceCount {
    pub episode_number: i32,
    pub resource_count: i64,
}

#[derive(Debug, Clone, Copy, PartialEq, Eq, Structural)]
pub enum DownloadStatus {
    Pending,
    Downloading,
    Paused,
    Completed,
    Failed,
    Deleted,
}

#[derive(Debug, Clone)]
pub struct DownloadTask {
    pub id: Option<i64>,
    pub magnet_url: String,
    pub save_path: Option<String>,
    pub status: DownloadStatus,
    pub title: String,
    pub bangumi_id: i64,
    pub resource_id: i64,
    pub episode_number: i64,
    pub name: String,
    pub name_cn: String,
    pub cover: String,
    pub total_size: i64,
    pub created_at: i64,
    pub updated_at: i64,
    pub error_msg: Option<String>,
}

/// What one detail page yields.
#[derive(Debug, Clone)]
pub struct AnimeData {
    pub anime: Option<Anime>,
    pub subtitle_groups: Vec<SubtitleGroup>,
    pub resources: Vec<Resource>,
}

} // verus!
