use ikuyo::cache::{
    after_fetch, cached_value, calendar_url, episodes_url, is_fresh, policy_ttl, subject_url,
    CacheEntry, CacheFill,
};
use ikuyo::config::Config;
use ikuyo::error::{ApiError, AppError};
use ikuyo::models::{CrawlerTaskStatus, CrawlerTaskType};
use ikuyo::refresh::{
    day_bounds, needs_homepage_task, needs_refresh, non_subscribed_ids, plan_refresh,
    HarvestTaskInfo, RefreshClock, RefreshItem, RefreshKind,
};
use ikuyo::types::CrawlerMode;

fn entry(content: &str, updated_at: i64, ttl: i64) -> CacheEntry {
    CacheEntry { content: content.to_string(), updated_at, ttl }
}

#[test]
fn freshness_boundary() {
    assert!(is_fresh(&entry("x", 100, 50), 149));
    assert!(!is_fresh(&entry("x", 100, 50), 150));
}

#[test]
fn fresh_row_is_served() {
    assert_eq!(cached_value(&Some(entry("X", 100, 50)), 120), Some("X".to_string()));
    assert_eq!(cached_value(&Some(entry("X", 100, 50)), 200), None);
    assert_eq!(cached_value(&None, 200), None);
}

#[test]
fn fetched_value_is_stored_with_policy_ttl() {
    match after_fetch(Some(entry("old", 0, 10)), Ok("new".to_string()), 500, 3600) {
        CacheFill::Store { content, entry } => {
            assert_eq!(content, "new");
            assert_eq!(entry.content, "new");
            assert_eq!(entry.updated_at, 500);
            assert_eq!(entry.ttl, 3600);
        }
        _ => panic!("expected a store"),
    }
}

#[test]
fn stale_row_served_on_api_error() {
    let err = AppError::Api(ApiError::Request("down".to_string()));
    match after_fetch(Some(entry("X", 0, 86400)), Err(err), 200000, 86400) {
        CacheFill::Stale(c) => assert_eq!(c, "X"),
        _ => panic!("expected the stale row"),
    }
}

#[test]
fn api_error_without_row_surfaces() {
    let err = AppError::Api(ApiError::Request("down".to_string()));
    assert!(matches!(after_fetch(None, Err(err), 1, 1), CacheFill::Failed(AppError::Api(_))));
}

#[test]
fn ttl_follows_subscription() {
    let c = Config::default();
    assert_eq!(policy_ttl(&c, true), 3600);
    assert_eq!(policy_ttl(&c, false), 43200);
    let custom = Config { bangumi_sub_ttl: Some(60), bangumi_nonsub_ttl: None, ..Config::default() };
    assert_eq!(policy_ttl(&custom, true), 60);
    assert_eq!(policy_ttl(&custom, false), 43200);
}

#[test]
fn config_defaults() {
    let c = Config::default();
    assert_eq!(c.db_url, "sqlite:ikuyo.db?mode=rwc");
    assert_eq!(c.calendar_ttl(), 86400);
    assert_eq!(c.sub_refresh_interval(), 3600);
    assert_eq!(c.nonsub_refresh_interval(), 43200);
    assert_eq!(c.calendar_refresh_interval(), 86400);
}

#[test]
fn metadata_urls() {
    assert_eq!(subject_url("https://api.bgm.tv", 42), "https://api.bgm.tv/v0/subjects/42");
    assert_eq!(calendar_url("https://api.bgm.tv"), "https://api.bgm.tv/calendar");
    assert_eq!(
        episodes_url("https://api.bgm.tv", 42, Some(0), Some(1000), Some(0)),
        "https://api.bgm.tv/v0/episodes?subject_id=42&type=0&limit=1000&offset=0"
    );
    assert_eq!(episodes_url("b", -7, None, Some(5), None), "b/v0/episodes?subject_id=-7&limit=5");
}

#[test]
fn day_window() {
    let (s, e) = day_bounds(1704164640000);
    assert_eq!(s, 1704153600000);
    assert_eq!(e, 1704153600000 + 86_400_000 - 1);
    let (s2, _) = day_bounds(-1);
    assert_eq!(s2, -86_400_000);
}

fn info(status: CrawlerTaskStatus, created: i64) -> HarvestTaskInfo {
    HarvestTaskInfo {
        task_type: CrawlerTaskType::Scheduled,
        status,
        created_at: Some(created),
        mode: Some(CrawlerMode::Homepage),
    }
}

#[test]
fn harvest_created_once_per_day() {
    let day = 1704153600000i64;
    let at_0001 = day + 60_000;
    assert!(needs_homepage_task(&vec![], at_0001));
    let created = vec![info(CrawlerTaskStatus::Pending, at_0001)];
    assert!(!needs_homepage_task(&created, day + 30 * 60_000));
    let done = vec![info(CrawlerTaskStatus::Completed, at_0001)];
    assert!(!needs_homepage_task(&done, day + 30 * 60_000));
    assert!(needs_homepage_task(&done, day + 86_400_000 + 60_000));
}

#[test]
fn harvest_ignores_other_tasks() {
    let day = 1704153600000i64;
    let failed = vec![info(CrawlerTaskStatus::Failed, day + 1)];
    assert!(needs_homepage_task(&failed, day + 5));
    let manual = vec![HarvestTaskInfo {
        task_type: CrawlerTaskType::Manual,
        status: CrawlerTaskStatus::Completed,
        created_at: Some(day + 1),
        mode: Some(CrawlerMode::Homepage),
    }];
    assert!(needs_homepage_task(&manual, day + 5));
    let season = vec![HarvestTaskInfo { mode: Some(CrawlerMode::Season), ..info(CrawlerTaskStatus::Running, day) }];
    assert!(needs_homepage_task(&season, day + 5));
}

#[test]
fn refresh_due_rows() {
    assert!(needs_refresh(None, 100, 10));
    assert!(needs_refresh(Some(90), 100, 10));
    assert!(!needs_refresh(Some(91), 100, 10));
    let plan = plan_refresh(&vec![1, 2], &vec![Some(0), Some(99)], &vec![None, Some(0)], 100, 10);
    assert_eq!(
        plan,
        vec![
            RefreshItem { id: 1, kind: RefreshKind::Subject },
            RefreshItem { id: 1, kind: RefreshKind::Episodes },
            RefreshItem { id: 2, kind: RefreshKind::Episodes },
        ]
    );
}

#[test]
fn non_subscribed_complement() {
    assert_eq!(non_subscribed_ids(&vec![1, 2, 3, 4], &vec![2, 4, 9]), vec![1, 3]);
}

#[test]
fn refresh_clock_ticks() {
    let c = Config::default();
    let mut clock = RefreshClock::new(1_000_000);
    let plan = clock.tick(1_000_060_000, &c);
    assert!(plan.check_harvest);
    assert!(!plan.refresh_subscribed);
    clock.harvest_checked(1_000_060_000);
    let later = clock.tick(1_000_000_000 + 3600_000, &c);
    assert!(!later.check_harvest);
    assert!(later.refresh_subscribed);
    assert!(!later.refresh_non_subscribed);
    assert_eq!(clock.last_sub, 1_003_600);
}
