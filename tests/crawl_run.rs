use ikuyo::crawler::{append_detail_urls, dedup_urls, list_urls, CrawlerService, UnitStep};
use ikuyo::models::{
    Anime, AnimeData, CrawlerTask, CrawlerTaskStatus, CrawlerTaskType, Resource, SubtitleGroup,
};
use ikuyo::task::{claim_task, new_task};
use ikuyo::types::{CrawlerMode, CrawlerTaskCreate, SeasonName};

const BASE: &str = "https://mikanani.me";

fn anime(id: i64) -> Anime {
    Anime {
        mikan_id: id,
        bangumi_id: 0,
        title: format!("show {}", id),
        original_title: None,
        broadcast_day: None,
        broadcast_start: None,
        official_website: None,
        bangumi_url: None,
        description: None,
        status: None,
        created_at: None,
        updated_at: None,
    }
}

fn group(id: i64) -> SubtitleGroup {
    SubtitleGroup { id: Some(id), name: format!("group {}", id), last_update: None, created_at: None }
}

fn resource(mikan_id: i64, group_id: i64, hash: Option<&str>) -> Resource {
    Resource {
        id: None,
        mikan_id,
        subtitle_group_id: group_id,
        episode_number: Some(1),
        title: "t".to_string(),
        file_size: None,
        resolution: None,
        subtitle_type: None,
        magnet_url: Some("magnet:?".to_string()),
        torrent_url: None,
        play_url: None,
        magnet_hash: hash.map(|h| h.to_string()),
        release_date: None,
        created_at: None,
        updated_at: None,
    }
}

fn running_task(now: i64) -> CrawlerTask {
    let mut t = new_task(CrawlerTaskType::Manual, "{\"mode\":\"homepage\"}".to_string(), now);
    claim_task(&mut t, now);
    t
}

#[test]
fn list_urls_homepage() {
    let p = CrawlerTaskCreate::default();
    assert_eq!(list_urls(BASE, &p), vec!["https://mikanani.me/Home".to_string()]);
}

#[test]
fn list_urls_season_defaults() {
    let p = CrawlerTaskCreate { mode: CrawlerMode::Season, year: Some(2024), season: Some(SeasonName::Autumn), limit: None };
    assert_eq!(
        list_urls(BASE, &p),
        vec!["https://mikanani.me/Home/BangumiCoverFlowByDayOfWeek?year=2024&seasonStr=秋".to_string()]
    );
    let q = CrawlerTaskCreate { mode: CrawlerMode::Season, year: None, season: None, limit: None };
    assert_eq!(
        list_urls(BASE, &q),
        vec!["https://mikanani.me/Home/BangumiCoverFlowByDayOfWeek?year=0&seasonStr=春".to_string()]
    );
}

#[test]
fn list_urls_year_has_four_seasons() {
    let p = CrawlerTaskCreate { mode: CrawlerMode::Year, year: Some(2023), season: None, limit: Some(2) };
    let urls = list_urls(BASE, &p);
    assert_eq!(urls.len(), 4);
    assert!(urls[0].ends_with("year=2023&seasonStr=春"));
    assert!(urls[1].ends_with("year=2023&seasonStr=夏"));
    assert!(urls[2].ends_with("year=2023&seasonStr=秋"));
    assert!(urls[3].ends_with("year=2023&seasonStr=冬"));
}

#[test]
fn dedup_keeps_first_occurrences() {
    let v = vec!["a".to_string(), "b".to_string(), "a".to_string(), "c".to_string(), "b".to_string()];
    assert_eq!(dedup_urls(v), vec!["a".to_string(), "b".to_string(), "c".to_string()]);
}

#[test]
fn limit_applies_per_list() {
    let mut all = Vec::new();
    append_detail_urls(&mut all, vec!["a".into(), "b".into(), "c".into()], Some(2));
    append_detail_urls(&mut all, vec!["d".into(), "e".into(), "f".into()], Some(2));
    assert_eq!(all, vec!["a", "b", "d", "e"]);
    let mut none = Vec::new();
    append_detail_urls(&mut none, vec!["a".into()], Some(0));
    assert!(none.is_empty());
    let mut unbounded = Vec::new();
    append_detail_urls(&mut unbounded, vec!["a".into(), "b".into()], None);
    assert_eq!(unbounded.len(), 2);
}

#[test]
fn merge_drops_duplicates_and_unhashed() {
    let mut s = CrawlerService::new(1);
    s.merge_anime_data(AnimeData {
        anime: Some(anime(10)),
        subtitle_groups: vec![group(1), group(1), group(2)],
        resources: vec![resource(10, 1, Some("h1")), resource(10, 1, Some("h1")), resource(10, 2, None)],
    });
    s.merge_anime_data(AnimeData {
        anime: Some(anime(10)),
        subtitle_groups: vec![group(2), group(3)],
        resources: vec![resource(10, 3, Some("h1")), resource(10, 3, Some("h2"))],
    });
    assert_eq!(s.anime_buffer.len(), 1);
    assert_eq!(s.subtitle_group_buffer.iter().map(|g| g.id.unwrap()).collect::<Vec<_>>(), vec![1, 2, 3]);
    let hashes: Vec<String> = s.resource_buffer.iter().map(|r| r.magnet_hash.clone().unwrap()).collect();
    assert_eq!(hashes, vec!["h1".to_string(), "h2".to_string()]);
}

fn page(i: i64) -> AnimeData {
    AnimeData {
        anime: Some(anime(i)),
        subtitle_groups: vec![group(i * 10 + 1), group(i * 10 + 2)],
        resources: (0..4).map(|k| resource(i, i * 10 + 1 + (k % 2), Some(&format!("hash-{}-{}", i, k)))).collect(),
    }
}

#[test]
fn crawl_three_pages_completes() {
    let mut task = running_task(1000);
    let mut s = CrawlerService::new(1);
    s.set_total(3);
    let mut flushed_animes = 0;
    let mut flushed_groups = 0;
    let mut flushed_resources = 0;
    for i in 1..=3 {
        match s.on_unit(&mut task, Some(page(i)), false, 1000 + i) {
            UnitStep::Flush(b) => {
                flushed_animes += b.animes.len();
                flushed_groups += b.subtitle_groups.len();
                flushed_resources += b.resources.len();
            }
            UnitStep::Continue => {}
            UnitStep::Cancelled => panic!("not cancelled"),
        }
    }
    s.complete(&mut task, 2000);
    assert_eq!(task.status, CrawlerTaskStatus::Completed);
    assert_eq!(task.total_items, Some(3));
    assert_eq!(task.processed_items, Some(3));
    assert_eq!(task.percentage, Some(100));
    assert_eq!(task.completed_at, Some(2000));
    assert_eq!((flushed_animes, flushed_groups, flushed_resources), (3, 6, 12));
}

#[test]
fn flush_every_tenth_unit() {
    let mut task = running_task(0);
    let mut s = CrawlerService::new(1);
    s.set_total(25);
    let mut flush_at = Vec::new();
    for i in 1..=25 {
        if let UnitStep::Flush(_) = s.on_unit(&mut task, None, false, i) {
            flush_at.push(i);
        }
    }
    assert_eq!(flush_at, vec![10, 20, 25]);
    assert_eq!(task.percentage, Some(100));
}

#[test]
fn progress_percentage_rounds_down() {
    let mut task = running_task(0);
    let mut s = CrawlerService::new(1);
    s.set_total(3);
    let _ = s.on_unit(&mut task, None, false, 5);
    assert_eq!(task.percentage, Some(33));
    assert_eq!(task.processed_items, Some(1));
    assert_eq!(task.status, CrawlerTaskStatus::Running);
}

#[test]
fn cancel_mid_flight_drops_buffers() {
    let mut task = running_task(0);
    let mut s = CrawlerService::new(1);
    s.set_total(20);
    let _ = s.on_unit(&mut task, Some(page(1)), false, 100);
    let _ = s.on_unit(&mut task, Some(page(2)), false, 200);
    let step = s.on_unit(&mut task, Some(page(3)), true, 300);
    assert!(matches!(step, UnitStep::Cancelled));
    assert_eq!(task.status, CrawlerTaskStatus::Cancelled);
    assert_eq!(task.error_message.as_deref(), Some("任务被取消"));
    assert_eq!(task.completed_at, Some(300));
    assert_eq!(s.processed_items, 2);
    assert!(s.resource_buffer.is_empty());
}

#[test]
fn flush_failure_fails_task() {
    let mut task = running_task(0);
    let s = CrawlerService::new(1);
    s.on_flush_failed(&mut task, &"disk full".to_string(), 50);
    assert_eq!(task.status, CrawlerTaskStatus::Failed);
    assert_eq!(task.error_message.as_deref(), Some("保存数据到数据库失败: disk full"));
    assert_eq!(task.completed_at, Some(50));
}

#[test]
fn complete_with_no_pages_is_full() {
    let mut task = running_task(0);
    let s = CrawlerService::new(1);
    s.complete(&mut task, 10);
    assert_eq!(task.percentage, Some(100));
    assert_eq!(task.total_items, Some(0));
}

fn run_fixture() -> (usize, usize, usize, Vec<(String, Option<i32>, Option<String>, Option<String>)>) {
    let parser = ikuyo::parser::MikanParser::new(BASE);
    let titles = ["[A] Show - 01 [1080p][简日双语]", "[A] Show - 02 [720p][CHS]", "[B] Show 第3话 [BDRip]"];
    let mut task = running_task(0);
    let mut s = CrawlerService::new(1);
    s.set_total(titles.len());
    let mut rows = Vec::new();
    let mut counts = (0, 0, 0);
    for (i, t) in titles.iter().enumerate() {
        let cells = ikuyo::parser::ResourceRowCells {
            title: t.to_string(),
            magnet: format!("magnet:?xt=urn:btih:{:040x}", i + 1),
            size: "1GB".to_string(),
            date: "2024-01-02".to_string(),
            torrent_href: None,
        };
        let r = parser.build_resource(&cells, 5, 9, 0);
        let data = AnimeData { anime: Some(anime(5)), subtitle_groups: vec![group(9)], resources: vec![r] };
        if let UnitStep::Flush(b) = s.on_unit(&mut task, Some(data), false, 10 + i as i64) {
            counts.0 += b.animes.len();
            counts.1 += b.subtitle_groups.len();
            counts.2 += b.resources.len();
            for r in b.resources {
                rows.push((r.magnet_hash.unwrap(), r.episode_number, r.resolution, r.subtitle_type));
            }
        }
    }
    rows.sort();
    (counts.0, counts.1, counts.2, rows)
}

#[test]
fn same_fixture_same_rows() {
    let first = run_fixture();
    let second = run_fixture();
    assert_eq!(first, second);
    assert_eq!((first.0, first.1, first.2), (1, 1, 3));
    assert_eq!(first.3[2].1, Some(3));
    assert_eq!(first.3[2].2.as_deref(), Some("1080p"));
}

#[test]
fn cancel_after_a_flush_keeps_at_most_ten_pages() {
    let mut task = running_task(0);
    let mut s = CrawlerService::new(1);
    s.set_total(20);
    let mut flushed_hashes = Vec::new();
    for i in 1..=12 {
        let step = s.on_unit(&mut task, Some(page(i)), i == 12, 100 * i);
        match step {
            UnitStep::Flush(b) => flushed_hashes.extend(b.resources.into_iter().map(|r| r.magnet_hash.unwrap())),
            UnitStep::Cancelled => break,
            UnitStep::Continue => {}
        }
    }
    assert_eq!(task.status, CrawlerTaskStatus::Cancelled);
    assert_eq!(flushed_hashes.len(), 40);
    let mut unique = flushed_hashes.clone();
    unique.sort();
    unique.dedup();
    assert_eq!(unique.len(), flushed_hashes.len());
}

#[test]
fn merging_a_page_twice_adds_nothing() {
    let mut s = CrawlerService::new(1);
    s.merge_anime_data(page(1));
    let n = (s.anime_buffer.len(), s.subtitle_group_buffer.len(), s.resource_buffer.len());
    s.merge_anime_data(page(1));
    assert_eq!((s.anime_buffer.len(), s.subtitle_group_buffer.len(), s.resource_buffer.len()), n);
}
