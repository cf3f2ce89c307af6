use ikuyo::parser::{
    anime_title, broadcast_info, id_from_url, official_website, GroupBlock, MikanParser,
    ResourceRowCells,
};

const BASE: &str = "https://mikanani.me";
const HASH: &str = "abcdef0123456789abcdef0123456789abcdef01";

fn row(title: &str, magnet: &str) -> ResourceRowCells {
    ResourceRowCells {
        title: format!("  {}  ", title),
        magnet: magnet.to_string(),
        size: " 512.3MB ".to_string(),
        date: "2024/01/02 03:04".to_string(),
        torrent_href: Some("/Download/x.torrent".to_string()),
    }
}

#[test]
fn resource_from_row() {
    let p = MikanParser::new(BASE);
    let m = format!("magnet:?xt=urn:btih:{}", HASH.to_uppercase());
    let r = p.build_resource(&row("[Sub] Show - 03 [1080p][简日双语]", &m), 7, 11, 99);
    assert_eq!(r.title, "[Sub] Show - 03 [1080p][简日双语]");
    assert_eq!(r.mikan_id, 7);
    assert_eq!(r.subtitle_group_id, 11);
    assert_eq!(r.episode_number, Some(3));
    assert_eq!(r.resolution.as_deref(), Some("1080p"));
    assert_eq!(r.subtitle_type.as_deref(), Some("中日双语"));
    assert_eq!(r.magnet_hash.as_deref(), Some(HASH));
    assert_eq!(r.magnet_url.as_deref(), Some(m.as_str()));
    assert_eq!(r.torrent_url.as_deref(), Some("https://mikanani.me/Download/x.torrent"));
    assert_eq!(r.file_size.as_deref(), Some("512.3MB"));
    assert_eq!(r.release_date, Some(1704164640000));
    assert_eq!(r.created_at, Some(99));
}

#[test]
fn resource_without_btih_has_no_hash() {
    let p = MikanParser::new(BASE);
    let r = p.build_resource(&row("Show 01", "magnet:?dn=show"), 7, 11, 99);
    assert_eq!(r.magnet_hash, None);
}

#[test]
fn ids_from_urls() {
    assert_eq!(id_from_url("https://mikanani.me/Home/Bangumi/3310"), 3310);
    assert_eq!(id_from_url("https://bgm.tv/subject/425998"), 425998);
    assert_eq!(id_from_url("https://mikanani.me/Home/"), 0);
    assert_eq!(id_from_url("12"), 12);
    assert_eq!(id_from_url("x/abc"), 0);
}

#[test]
fn detail_urls_absolute_and_unique() {
    let p = MikanParser::new(BASE);
    let hrefs = vec![
        "/Home/Bangumi/1".to_string(),
        "https://other.site/Home/Bangumi/2".to_string(),
        "/Home/Bangumi/1".to_string(),
    ];
    assert_eq!(
        p.detail_urls(&hrefs),
        vec!["https://mikanani.me/Home/Bangumi/1".to_string(), "https://other.site/Home/Bangumi/2".to_string()]
    );
}

#[test]
fn fallback_pattern_reads_page_text() {
    let p = MikanParser::new(BASE);
    assert!(p.fallback_detail_urls("<a href=\"/Home/Bangumi/12\">").is_empty());
    assert_eq!(
        p.fallback_detail_urls("/Home/Bangumi/\\ddd /Home/Bangumi/\\d"),
        vec!["https://mikanani.me/Home/Bangumi/\\ddd".to_string(), "https://mikanani.me/Home/Bangumi/\\d".to_string()]
    );
}

#[test]
fn group_headers() {
    let p = MikanParser::new(BASE);
    let g = p.group_header(&Some("583".to_string()), &Some(" ANi ".to_string()), 5).unwrap();
    assert_eq!(g.id, Some(583));
    assert_eq!(g.name, "ANi");
    assert!(p.group_header(&Some("0".to_string()), &Some("x".to_string()), 5).is_none());
    assert!(p.group_header(&Some("abc".to_string()), &Some("x".to_string()), 5).is_none());
    assert!(p.group_header(&Some("5".to_string()), &Some("  ".to_string()), 5).is_none());
    assert!(p.group_header(&None, &Some("x".to_string()), 5).is_none());
}

#[test]
fn groups_assembled_once() {
    let p = MikanParser::new(BASE);
    let m = format!("magnet:?xt=urn:btih:{}", HASH);
    let blocks = vec![
        GroupBlock { id_attr: Some("1".into()), name: Some("A".into()), rows: vec![row("x 01", &m)] },
        GroupBlock { id_attr: Some("0".into()), name: Some("bad".into()), rows: vec![row("y 01", &m)] },
        GroupBlock { id_attr: Some("1".into()), name: Some("A".into()), rows: vec![row("z 02", &m), row("z 03", &m)] },
        GroupBlock { id_attr: Some("2".into()), name: Some("B".into()), rows: vec![] },
    ];
    let (groups, resources) = p.assemble_groups(&blocks, 7, 1);
    assert_eq!(groups.iter().map(|g| g.id.unwrap()).collect::<Vec<_>>(), vec![1, 2]);
    assert_eq!(resources.len(), 3);
    assert!(resources.iter().all(|r| r.subtitle_group_id == 1 && r.mikan_id == 7));
}

#[test]
fn broadcast_lines() {
    let lines = vec![
        "类型：TV".to_string(),
        "放送日期：星期三\n".to_string(),
        " 放送开始： 2024/10/02 ".to_string(),
        "放送日期：星期四".to_string(),
    ];
    let (day, start) = broadcast_info(&lines);
    assert_eq!(day.as_deref(), Some("星期三"));
    assert_eq!(start.as_deref(), Some("2024/10/02"));
    let (d2, s2) = broadcast_info(&vec!["放送日期：星期一".to_string()]);
    assert_eq!(d2.as_deref(), Some("星期一"));
    assert_eq!(s2, None);
}

#[test]
fn website_line() {
    let lines = vec!["类型：TV".to_string(), "官方网站： https://example.jp/ ".to_string()];
    assert_eq!(official_website(&lines).as_deref(), Some("https://example.jp/"));
    let twice = vec!["官方网站：a官方网站：b".to_string()];
    assert_eq!(official_website(&twice).as_deref(), Some("a"));
    assert_eq!(official_website(&vec!["nothing".to_string()]), None);
}

#[test]
fn titles_without_site_prefix() {
    assert_eq!(anime_title(Some("Mikan Project - 葬送的芙莉莲".to_string())), "葬送的芙莉莲");
    assert_eq!(anime_title(None), "未知标题");
}
