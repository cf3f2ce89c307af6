use ikuyo::error::TaskError;
use ikuyo::models::{CrawlerTaskStatus, CrawlerTaskType};
use ikuyo::task::{
    after_attempt, cancel_task, claim_task, fail_after_retries, mark_all_running_as_failed,
    new_task, oldest_pending, AttemptOutcome, MAX_ATTEMPTS,
};
use ikuyo::types;

#[test]
fn new_task_is_pending_with_zero_counters() {
    let t = new_task(CrawlerTaskType::Scheduled, "{}".to_string(), 42);
    assert_eq!(t.status, CrawlerTaskStatus::Pending);
    assert_eq!(t.created_at, Some(42));
    assert_eq!(t.percentage, Some(0));
    assert_eq!(t.processed_items, Some(0));
    assert_eq!(t.total_items, Some(0));
    assert_eq!(t.started_at, None);
}

#[test]
fn claim_starts_task() {
    let mut t = new_task(CrawlerTaskType::Manual, "{}".to_string(), 1);
    claim_task(&mut t, 5);
    assert_eq!(t.status, CrawlerTaskStatus::Running);
    assert_eq!(t.started_at, Some(5));
}

#[test]
fn cancel_pending_and_running() {
    let mut t = new_task(CrawlerTaskType::Manual, "{}".to_string(), 1);
    assert!(cancel_task(&mut t, 3).is_ok());
    assert_eq!(t.status, CrawlerTaskStatus::Cancelled);
    assert_eq!(t.completed_at, Some(3));
    let mut r = new_task(CrawlerTaskType::Manual, "{}".to_string(), 1);
    claim_task(&mut r, 2);
    assert!(cancel_task(&mut r, 4).is_ok());
    assert_eq!(r.completed_at, Some(4));
}

#[test]
fn cancel_terminal_is_refused() {
    let mut t = new_task(CrawlerTaskType::Manual, "{}".to_string(), 1);
    claim_task(&mut t, 2);
    fail_after_retries(&mut t, &"boom".to_string(), 3);
    match cancel_task(&mut t, 4) {
        Err(TaskError::Cancel(m)) => assert_eq!(m, "任务无法取消，当前状态不允许取消操作"),
        other => panic!("unexpected {:?}", other),
    }
    assert_eq!(t.status, CrawlerTaskStatus::Failed);
    assert_eq!(t.completed_at, Some(3));
}

#[test]
fn retry_budget() {
    assert_eq!(MAX_ATTEMPTS, 3);
    assert_eq!(after_attempt(1, MAX_ATTEMPTS, false), AttemptOutcome::Retry);
    assert_eq!(after_attempt(2, MAX_ATTEMPTS, false), AttemptOutcome::Retry);
    assert_eq!(after_attempt(3, MAX_ATTEMPTS, false), AttemptOutcome::GiveUp);
    assert_eq!(after_attempt(2, MAX_ATTEMPTS, true), AttemptOutcome::Done);
}

#[test]
fn restart_leaves_no_running_task() {
    let mut a = new_task(CrawlerTaskType::Manual, "{}".to_string(), 1);
    claim_task(&mut a, 2);
    let b = new_task(CrawlerTaskType::Manual, "{}".to_string(), 1);
    let mut c = new_task(CrawlerTaskType::Scheduled, "{}".to_string(), 1);
    claim_task(&mut c, 3);
    let mut rows = vec![a, b, c];
    let n = mark_all_running_as_failed(&mut rows, &"restarted".to_string(), 10);
    assert_eq!(n, 2);
    assert!(rows.iter().all(|t| t.status != CrawlerTaskStatus::Running));
    assert_eq!(rows[0].status, CrawlerTaskStatus::Failed);
    assert_eq!(rows[0].error_message.as_deref(), Some("restarted"));
    assert_eq!(rows[1].status, CrawlerTaskStatus::Pending);
    assert_eq!(rows[2].completed_at, Some(10));
}

#[test]
fn oldest_pending_is_claimed_first() {
    let a = new_task(CrawlerTaskType::Manual, "{}".to_string(), 30);
    let mut b = new_task(CrawlerTaskType::Manual, "{}".to_string(), 10);
    claim_task(&mut b, 11);
    let c = new_task(CrawlerTaskType::Manual, "{}".to_string(), 20);
    let d = new_task(CrawlerTaskType::Manual, "{}".to_string(), 20);
    let rows = vec![a, b, c, d];
    assert_eq!(oldest_pending(&rows), Some(2));
    assert_eq!(oldest_pending(&vec![]), None);
}

#[test]
fn mode_and_season_names() {
    assert_eq!(types::CrawlerMode::Homepage.as_str(), "homepage");
    assert_eq!(types::CrawlerMode::Season.as_str(), "season");
    assert_eq!(types::CrawlerMode::Year.as_str(), "year");
    assert_eq!(types::SeasonName::Spring.as_str(), "春");
    assert_eq!(types::SeasonName::Winter.as_str(), "冬");
}

#[test]
fn front_end_status_and_type() {
    assert_eq!(types::CrawlerTaskType::from(CrawlerTaskType::Scheduled), types::CrawlerTaskType::Schedule);
    assert_eq!(types::CrawlerTaskStatus::from(CrawlerTaskStatus::Cancelled), types::CrawlerTaskStatus::Cancelled);
}
