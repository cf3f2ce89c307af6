use ikuyo::download::{
    error_message_for, mark_downloading, mark_paused, new_download_task, reconcile,
    select_downloads, status_from_session, DownloadSelection, StartDownloadTask,
};
use ikuyo::models::DownloadStatus;
use ikuyo::query::{
    eq_ignore_ascii_case, limit_offset, order_direction, page_offset, pagination,
    resource_filter_sql, search_pattern, sort_column, ResourceFilter,
};

fn request() -> StartDownloadTask {
    StartDownloadTask {
        magnet_url: "magnet:?xt=urn:btih:x".to_string(),
        save_path: Some("/tmp/dl".to_string()),
        title: "Show 01".to_string(),
        bangumi_id: 42,
        resource_id: 7,
        episode_number: 1,
        name: "Show".to_string(),
        name_cn: "番".to_string(),
        cover: "c.jpg".to_string(),
        total_size: 0,
    }
}

#[test]
fn download_lifecycle_statuses() {
    let mut t = new_download_task(3, request(), 100);
    assert_eq!(t.id, Some(3));
    assert_eq!(t.status, DownloadStatus::Pending);
    assert_eq!(t.created_at, 100);
    mark_paused(&mut t, 110);
    assert_eq!(t.status, DownloadStatus::Paused);
    mark_downloading(&mut t, 120);
    assert_eq!(t.status, DownloadStatus::Downloading);
    assert_eq!(t.updated_at, 120);
}

#[test]
fn handle_state_mapping() {
    assert_eq!(status_from_session(true, "live"), DownloadStatus::Completed);
    assert_eq!(status_from_session(false, "error"), DownloadStatus::Failed);
    assert_eq!(status_from_session(false, "paused"), DownloadStatus::Paused);
    assert_eq!(status_from_session(false, "initializing"), DownloadStatus::Pending);
    assert_eq!(status_from_session(false, "live"), DownloadStatus::Downloading);
    assert_eq!(status_from_session(false, "other"), DownloadStatus::Downloading);
}

#[test]
fn error_message_only_in_error_state() {
    assert_eq!(error_message_for("error", Some("tracker".to_string())), Some("tracker".to_string()));
    assert_eq!(error_message_for("error", None), Some(String::new()));
    assert_eq!(error_message_for("live", Some("x".to_string())), None);
}

#[test]
fn reconcile_writes_only_on_change() {
    let mut t = new_download_task(3, request(), 100);
    assert!(!reconcile(&mut t, DownloadStatus::Pending, 999, None, 200));
    assert_eq!(t.updated_at, 100);
    assert!(reconcile(&mut t, DownloadStatus::Failed, 999, Some("e".to_string()), 200));
    assert_eq!(t.status, DownloadStatus::Failed);
    assert_eq!(t.total_size, 999);
    assert_eq!(t.error_msg.as_deref(), Some("e"));
    assert_eq!(t.updated_at, 200);
}

#[test]
fn download_selections() {
    let mk = |id: i64, s: DownloadStatus| {
        let mut t = new_download_task(id, request(), 0);
        t.status = s;
        t
    };
    let all = || vec![
        mk(1, DownloadStatus::Pending),
        mk(2, DownloadStatus::Completed),
        mk(3, DownloadStatus::Failed),
        mk(4, DownloadStatus::Deleted),
        mk(5, DownloadStatus::Paused),
    ];
    let ids = |v: Vec<ikuyo::models::DownloadTask>| v.iter().map(|t| t.id.unwrap()).collect::<Vec<_>>();
    assert_eq!(ids(select_downloads(all(), DownloadSelection::Unfinished)), vec![1, 3, 4, 5]);
    assert_eq!(ids(select_downloads(all(), DownloadSelection::Visible)), vec![1, 2, 3, 5]);
    assert_eq!(ids(select_downloads(all(), DownloadSelection::Restorable)), vec![1, 5]);
}

#[test]
fn zero_limit_is_unbounded() {
    assert_eq!(limit_offset(0, 30), (-1, 0));
    assert_eq!(limit_offset(-5, 30), (-1, 0));
    assert_eq!(limit_offset(10, 30), (10, 30));
}

#[test]
fn filter_without_criteria_only_binds_show() {
    let f = ResourceFilter { mikan_id: 9, resolution: None, episode_number: None, subtitle_type: None };
    assert_eq!(
        resource_filter_sql(&f),
        "SELECT * FROM resource WHERE mikan_id = ? ORDER BY release_date DESC LIMIT ? OFFSET ?"
    );
    let g = ResourceFilter {
        mikan_id: 9,
        resolution: Some("1080p".to_string()),
        episode_number: Some(3),
        subtitle_type: Some("简体中文".to_string()),
    };
    assert_eq!(
        resource_filter_sql(&g),
        "SELECT * FROM resource WHERE mikan_id = ? AND resolution = ? AND episode_number = ? AND subtitle_type = ? ORDER BY release_date DESC LIMIT ? OFFSET ?"
    );
}

#[test]
fn subscription_sort_and_order() {
    assert_eq!(sort_column("rating"), "anime_rating");
    assert_eq!(sort_column("air_date"), "anime_air_date");
    assert_eq!(sort_column("name"), "anime_name_cn");
    assert_eq!(sort_column("whatever"), "subscribed_at");
    assert_eq!(order_direction("DeSc"), "DESC");
    assert_eq!(order_direction("asc"), "ASC");
    assert_eq!(order_direction("descending"), "ASC");
    assert!(eq_ignore_ascii_case("AbC", "aBc"));
    assert!(!eq_ignore_ascii_case("abc", "abd"));
}

#[test]
fn search_is_lower_cased_substring() {
    assert_eq!(search_pattern("Frieren"), "%frieren%");
}

#[test]
fn page_arithmetic() {
    assert_eq!(page_offset(3, 10), 20);
    let p = pagination(2, 10, 25);
    assert_eq!(p.total_pages, 3);
    assert!(p.has_next);
    assert!(p.has_prev);
    let last = pagination(3, 10, 25);
    assert!(!last.has_next);
    assert_eq!(pagination(1, 10, 0).total_pages, 0);
}

#[test]
fn subscription_listing_sql() {
    assert_eq!(
        ikuyo::query::subscriptions_sql("rating", "DESC", true, true),
        "SELECT * FROM user_subscriptions WHERE user_id = ? AND (lower(anime_name) LIKE ? OR lower(anime_name_cn) LIKE ?) ORDER BY anime_rating DESC LIMIT ? OFFSET ?"
    );
    assert_eq!(
        ikuyo::query::subscriptions_sql("x", "up", false, false),
        "SELECT * FROM user_subscriptions WHERE user_id = ? ORDER BY subscribed_at ASC OFFSET ?"
    );
}
