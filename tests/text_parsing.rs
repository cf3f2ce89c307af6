use ikuyo::magnet::extract_magnet_hash;
use ikuyo::text::{
    infer_from_source, is_valid_episode_number, normalize_subtitle_type,
    parse_and_normalize_subtitle_type, parse_datetime_to_timestamp, parse_episode_number,
    parse_resolution, pick_episode_number,
};

const HASH_UPPER: &str = "0123456789ABCDEF0123456789ABCDEF01234567";
const HASH_LOWER: &str = "0123456789abcdef0123456789abcdef01234567";

#[test]
fn magnet_hash_is_lower_cased() {
    let m = format!("magnet:?xt=urn:btih:{}&dn=x", HASH_UPPER);
    assert_eq!(extract_magnet_hash(&m), Some(HASH_LOWER.to_string()));
}

#[test]
fn magnet_hash_absent_without_btih() {
    assert_eq!(extract_magnet_hash("magnet:?dn=only-a-name"), None);
    assert_eq!(extract_magnet_hash(""), None);
}

#[test]
fn magnet_hash_absent_when_too_short_or_not_hex() {
    assert_eq!(extract_magnet_hash("magnet:?xt=urn:btih:0123456789abcdef"), None);
    let bad = "magnet:?xt=urn:btih:g123456789abcdef0123456789abcdef01234567";
    assert_eq!(extract_magnet_hash(bad), None);
}

#[test]
fn magnet_hash_takes_first_valid_occurrence() {
    let m = format!(
        "xt=urn:btih:zz&xt=urn:btih:{}&xt=urn:btih:{}",
        HASH_LOWER, "ffffffffffffffffffffffffffffffffffffffff"
    );
    assert_eq!(extract_magnet_hash(&m), Some(HASH_LOWER.to_string()));
}

#[test]
fn episode_from_dash_pattern() {
    assert_eq!(parse_episode_number("[Group] Show Name - 05 [1080p]"), Some(5));
}

#[test]
fn episode_from_chinese_pattern() {
    assert_eq!(parse_episode_number("某番剧 第12话 简日双语"), Some(12));
}

#[test]
fn episode_from_bracket_pattern() {
    assert_eq!(parse_episode_number("[Sub][Show][07][720P]"), Some(7));
}

#[test]
fn episode_year_is_not_an_episode() {
    assert_eq!(parse_episode_number("某番剧 第2024话"), None);
    assert_eq!(parse_episode_number("某番剧 第1999话"), None);
    assert_eq!(parse_episode_number("某番剧 第2030话"), None);
    assert_eq!(parse_episode_number("某番剧 第2031话"), Some(2031));
}

#[test]
fn episode_absent() {
    assert_eq!(parse_episode_number("no numbers here"), None);
}

#[test]
fn year_range_is_invalid_episode() {
    assert!(!is_valid_episode_number("t", "2000", 2000));
    assert!(!is_valid_episode_number("t", "1999", 1999));
    assert!(is_valid_episode_number("t", "12", 12));
    assert!(is_valid_episode_number("t", "2031", 2031));
}

#[test]
fn pick_skips_invalid_captures() {
    let caps = vec![None, Some("x1".to_string()), Some("2020".to_string()), Some("08".to_string())];
    assert_eq!(pick_episode_number(&caps), Some(8));
    assert_eq!(pick_episode_number(&vec![]), None);
}

#[test]
fn resolution_explicit() {
    assert_eq!(parse_resolution("[Show][01][1080P]"), Some("1080p".to_string()));
}

#[test]
fn resolution_from_dimensions() {
    assert_eq!(parse_resolution("[Show][01][1920x1080]"), Some("1080p".to_string()));
    assert_eq!(parse_resolution("[Show][01][3840x2160]"), Some("2160p".to_string()));
    assert_eq!(parse_resolution("[Show][01][1280X720]"), Some("720p".to_string()));
    assert_eq!(parse_resolution("[Show][01][640x480]"), Some("480p".to_string()));
}

#[test]
fn resolution_from_source() {
    assert_eq!(infer_from_source("Show BDRip"), Some("1080p".to_string()));
    assert_eq!(infer_from_source("Show hdtv"), Some("720p".to_string()));
    assert_eq!(infer_from_source("Show DVD"), Some("480p".to_string()));
    assert_eq!(parse_resolution("Show web-dl"), Some("1080p".to_string()));
    assert_eq!(parse_resolution("Show"), None);
}

#[test]
fn subtitle_type_normalised() {
    assert_eq!(parse_and_normalize_subtitle_type("[Show][01][简日双语]"), Some("中日双语".to_string()));
    assert_eq!(parse_and_normalize_subtitle_type("[Show][01][CHS]"), Some("简体中文".to_string()));
    assert_eq!(parse_and_normalize_subtitle_type("[Show][01][BIG5]"), Some("繁体中文".to_string()));
    assert_eq!(parse_and_normalize_subtitle_type("[Show][01][RAW]"), Some("无字幕".to_string()));
    assert_eq!(parse_and_normalize_subtitle_type("[Show][01][简繁内封]"), Some("简繁双语".to_string()));
}

#[test]
fn subtitle_type_other() {
    assert_eq!(parse_and_normalize_subtitle_type("[Show][01]"), Some("其他".to_string()));
}

#[test]
fn normalize_keeps_unknown_names() {
    assert_eq!(normalize_subtitle_type("简繁内封"), "简繁内封");
    assert_eq!(normalize_subtitle_type("简日"), "中日双语");
    assert_eq!(normalize_subtitle_type("GB"), "简体中文");
}

#[test]
fn datetime_formats() {
    assert_eq!(parse_datetime_to_timestamp("2024-01-02"), Some(1704153600000));
    assert_eq!(parse_datetime_to_timestamp(" 2024/01/02 03:04 "), Some(1704164640000));
    assert_eq!(parse_datetime_to_timestamp("2024-01-02 03:04:05"), Some(1704164645000));
    assert_eq!(parse_datetime_to_timestamp("2024-01-02T03:04:05.500"), Some(1704164645500));
    assert_eq!(parse_datetime_to_timestamp("yesterday"), None);
}
