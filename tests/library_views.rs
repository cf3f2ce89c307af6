use ikuyo::bangumi::{episode_availability, group_resources, to_episode_resource};
use ikuyo::config::Config;
use ikuyo::error::{AppError, DomainError};
use ikuyo::models::{EpisodeResourceCount, Resource};
use ikuyo::subscription::{
    check_new_subscription, subscription_pagination, subscription_status, ttl_update_for,
};

fn res(id: i64, group: i64, ep: Option<i32>) -> Resource {
    Resource {
        id: Some(id),
        mikan_id: 1,
        subtitle_group_id: group,
        episode_number: ep,
        title: format!("r{}", id),
        file_size: Some("1GB".to_string()),
        resolution: Some("1080p".to_string()),
        subtitle_type: None,
        magnet_url: Some("magnet:?x".to_string()),
        torrent_url: None,
        play_url: None,
        magnet_hash: None,
        release_date: Some(1700000000000),
        created_at: None,
        updated_at: None,
    }
}

#[test]
fn availability_by_episode() {
    let counts = vec![
        EpisodeResourceCount { episode_number: 1, resource_count: 3 },
        EpisodeResourceCount { episode_number: 2, resource_count: 0 },
    ];
    let a = episode_availability(42, &counts);
    assert_eq!(a.bangumi_id, 42);
    assert_eq!(a.episodes[0].0, "1");
    assert!(a.episodes[0].1.available);
    assert_eq!(a.episodes[0].1.resource_count, 3);
    assert_eq!(a.episodes[1].0, "2");
    assert!(!a.episodes[1].1.available);
}

#[test]
fn resources_grouped_by_ascending_group() {
    let rs = vec![res(1, 30, Some(1)), res(2, 10, Some(1)), res(3, 30, Some(2)), res(4, 20, None)];
    let names = vec![(10, "Ten".to_string()), (30, "Thirty".to_string())];
    let d = group_resources(&rs, &names);
    assert_eq!(d.total_resources, 4);
    let ids: Vec<i64> = d.subtitle_groups.iter().map(|g| g.id).collect();
    assert_eq!(ids, vec![10, 20, 30]);
    assert_eq!(d.subtitle_groups[0].name, "Ten");
    assert_eq!(d.subtitle_groups[1].name, "Unknown");
    assert_eq!(d.subtitle_groups[2].resource_count, 2);
    let in30: Vec<i64> = d.subtitle_groups[2].resources.iter().map(|e| e.id).collect();
    assert_eq!(in30, vec![1, 3]);
    assert_eq!(d.subtitle_groups[1].resources[0].episode_number, 0);
}

#[test]
fn grouping_nothing() {
    let d = group_resources(&vec![], &vec![]);
    assert_eq!(d.total_resources, 0);
    assert!(d.subtitle_groups.is_empty());
}

#[test]
fn resource_listing_fields() {
    let e = to_episode_resource(&res(5, 7, Some(4)), &"G".to_string());
    assert_eq!(e.id, 5);
    assert_eq!(e.episode_number, 4);
    assert_eq!(e.release_date, "1700000000000");
    assert_eq!(e.size, "1GB");
    assert_eq!(e.subtitle_type, "");
    assert_eq!(e.torrent_url, "");
    assert_eq!(e.group_name, "G");
}

#[test]
fn second_subscription_conflicts() {
    assert!(check_new_subscription(false).is_ok());
    match check_new_subscription(true) {
        Err(AppError::Domain(DomainError::Conflict(m))) => assert_eq!(m, "番剧已订阅"),
        other => panic!("unexpected {:?}", other),
    }
}

#[test]
fn status_of_lookup() {
    let s = subscription_status(Some((1234, Some("note".to_string()))));
    assert!(s.subscribed);
    assert_eq!(s.subscribed_at, Some(1234));
    assert_eq!(s.notes.as_deref(), Some("note"));
    let n = subscription_status(None);
    assert!(!n.subscribed);
    assert_eq!(n.subscribed_at, None);
}

#[test]
fn subscription_pages() {
    let p = subscription_pagination(2, 10, 21);
    assert_eq!((p.page, p.limit, p.total, p.pages), (2, 10, 21, 3));
}

#[test]
fn subscribe_then_unsubscribe_ttl() {
    let c = Config::default();
    let sub = ttl_update_for(&c, 42, true);
    assert_eq!((sub.bangumi_id, sub.ttl), (42, 3600));
    let unsub = ttl_update_for(&c, 42, false);
    assert_eq!(unsub.ttl, 43200);
}
