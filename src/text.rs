//! Normalisation of release titles: episode number, resolution, subtitle
//! type, and release dates as epoch milliseconds.
use vstd::prelude::*;
use crate::chars::{chars_of, contains_seq, decimal_in, parse_decimal, str_contains, str_eq};

verus! {

/// What `regex::Regex::new` decides: whether the pattern compiles.
pub uninterp spec fn regex_compiles(pattern: Seq<char>) -> bool;

/// What `regex::Regex::captures_iter` yields: for each successive
/// non-overlapping match, the text of capture group `group`, if it took part.
pub uninterp spec fn regex_group_matches(pattern: Seq<char>, group: nat, haystack: Seq<char>) -> Seq<
    Option<Seq<char>>,
>;

/// What `str::to_lowercase` returns.
pub uninterp spec fn lower_of(s: Seq<char>) -> Seq<char>;

/// What `str::to_uppercase` returns.
pub uninterp spec fn upper_of(s: Seq<char>) -> Seq<char>;

/// What `str::trim` returns.
pub uninterp spec fn trimmed(s: Seq<char>) -> Seq<char>;

/// What `chrono::NaiveDateTime::parse_from_str` gives for the text and the
/// format, read as UTC epoch milliseconds.
pub uninterp spec fn naive_datetime_ms(s: Seq<char>, fmt: Seq<char>) -> Option<i64>;

/// What `chrono::NaiveDate::parse_from_str` gives for the text and the
/// format, at midnight UTC, as epoch milliseconds.
pub uninterp spec fn naive_date_ms(s: Seq<char>, fmt: Seq<char>) -> Option<i64>;

pub open spec fn opt_texts(v: Seq<Option<String>>) -> Seq<Option<Seq<char>>> {
    v.map_values(|o: Option<String>| match o {
        Some(s) => Some(s@),
        None => None,
    })
}

/// Relies on `regex::Regex::new` and `Regex::captures_iter` with
/// `Captures::get`: compiles the pattern, then lists capture group `group` of
/// each successive match.
#[verifier::external_body]
pub(crate) fn regex_captures(pattern: &str, group: usize, haystack: &str) -> (r: Option<Vec<Option<String>>>)
    ensures
        r.is_some() == regex_compiles(pattern@),
        r matches Some(v) ==> opt_texts(v@) == regex_group_matches(pattern@, group as nat, haystack@),
{
    match regex::Regex::new(pattern) {
        Ok(re) => Some(
            re.captures_iter(haystack).map(|c| c.get(group).map(|m| m.as_str().to_string())).collect(),
        ),
        Err(_) => None,
    }
}

/// Relies on `str::to_lowercase`.
#[verifier::external_body]
pub(crate) fn lowercase(s: &str) -> (r: String)
    ensures
        r@ == lower_of(s@),
{
    s.to_lowercase()
}

/// Relies on `str::to_uppercase`.
#[verifier::external_body]
fn uppercase(s: &str) -> (r: String)
    ensures
        r@ == upper_of(s@),
{
    s.to_uppercase()
}

/// Relies on `str::trim`.
#[verifier::external_body]
pub(crate) fn trim_str(s: &str) -> (r: String)
    ensures
        r@ == trimmed(s@),
{
    s.trim().to_string()
}

/// Relies on `chrono::NaiveDateTime::parse_from_str`, then
/// `and_utc().timestamp_millis()`.
#[verifier::external_body]
fn parse_naive_datetime_ms(s: &str, fmt: &str) -> (r: Option<i64>)
    ensures
        r == naive_datetime_ms(s@, fmt@),
{
    match chrono::NaiveDateTime::parse_from_str(s, fmt) {
        Ok(dt) => Some(dt.and_utc().timestamp_millis()),
        Err(_) => None,
    }
}

/// Relies on `chrono::NaiveDate::parse_from_str`, then midnight through
/// `and_hms_opt(0, 0, 0)` (always valid) and `and_utc().timestamp_millis()`.
#[verifier::external_body]
fn parse_naive_date_ms(s: &str, fmt: &str) -> (r: Option<i64>)
    ensures
        r == naive_date_ms(s@, fmt@),
{
    match chrono::NaiveDate::parse_from_str(s, fmt) {
        Ok(d) => Some(d.and_hms_opt(0, 0, 0).unwrap().and_utc().timestamp_millis()),
        Err(_) => None,
    }
}

// ---------------------------------------------------------------------------
// Episode number
// ---------------------------------------------------------------------------

/// Number of episode patterns, tried in order.
pub const EPISODE_PATTERN_COUNT: usize = 9;

pub open spec fn episode_pattern(i: int) -> Seq<char> {
    if i == 0 {
        r"第(\d{1,4})[话集]"@
    } else if i == 1 {
        r"EP(\d{1,3})"@
    } else if i == 2 {
        r"E(\d{1,3})"@
    } else if i == 3 {
        r"Episode\s*(\d{1,3})"@
    } else if i == 4 {
        r"- (\d{1,3})v\d+"@
    } else if i == 5 {
        r"- (\d{1,3})\s"@
    } else if i == 6 {
        r"\[(\d{1,3})v\d+\]"@
    } else if i == 7 {
        r"\[(\d{1,3})\]"@
    } else if i == 8 {
        r"【(\d{1,3})】"@
    } else {
        Seq::empty()
    }
}

fn episode_pattern_exec(i: usize) -> (r: &'static str)
    requires
        i < 9,
    ensures
        r@ == episode_pattern(i as int),
{
    match i {
        0 => r"第(\d{1,4})[话集]",
        1 => r"EP(\d{1,3})",
        2 => r"E(\d{1,3})",
        3 => r"Episode\s*(\d{1,3})",
        4 => r"- (\d{1,3})v\d+",
        5 => r"- (\d{1,3})\s",
        6 => r"\[(\d{1,3})v\d+\]",
        7 => r"\[(\d{1,3})\]",
        _ => r"【(\d{1,3})】",
    }
}

/// A year-like number is never an episode number.
pub open spec fn is_valid_episode(n: int) -> bool {
    !(1999 <= n && n <= 2030)
}

/// Rejects numbers in the year range `1999..=2030`; the title and matched
/// text do not matter.
pub fn is_valid_episode_number(_title: &str, _matched_str: &str, episode_num: i32) -> (r: bool)
    ensures
        r == is_valid_episode(episode_num as int),
{
    !(1999 <= episode_num && episode_num <= 2030)
}

/// First capture that reads as an `i32` and is a valid episode number.
pub open spec fn first_valid_episode(caps: Seq<Option<Seq<char>>>) -> Option<i32>
    decreases caps.len(),
{
    if caps.len() == 0 {
        None
    } else {
        let rest = first_valid_episode(caps.drop_first());
        match caps[0] {
            Some(m) => match decimal_in(m, i32::MIN as int, i32::MAX as int) {
                Some(v) => if is_valid_episode(v) {
                    Some(v as i32)
                } else {
                    rest
                },
                None => rest,
            },
            None => rest,
        }
    }
}

/// Episode number of a title: the patterns are tried in order, and within
/// a pattern its matches in order; the first valid number wins.
pub open spec fn episode_from(pats: Seq<Seq<char>>, title: Seq<char>) -> Option<i32>
    decreases pats.len(),
{
    if pats.len() == 0 {
        None
    } else {
        let here = if regex_compiles(pats[0]) {
            first_valid_episode(regex_group_matches(pats[0], 1, title))
        } else {
            None
        };
        if here is Some {
            here
        } else {
            episode_from(pats.drop_first(), title)
        }
    }
}

pub open spec fn episode_patterns() -> Seq<Seq<char>> {
    Seq::new(9, |i: int| episode_pattern(i))
}

/// Picks the first capture that reads as an `i32` outside the year range.
pub fn pick_episode_number(caps: &Vec<Option<String>>) -> (r: Option<i32>)
    ensures
        r == first_valid_episode(opt_texts(caps@)),
        r matches Some(n) ==> is_valid_episode(n as int),
{
    let ghost all = opt_texts(caps@);
    proof {
        assert(all.subrange(0, all.len() as int) =~= all);
    }
    let mut i: usize = 0;
    while i < caps.len()
        invariant
            i <= caps@.len(),
            all == opt_texts(caps@),
            first_valid_episode(all) == first_valid_episode(all.subrange(i as int, all.len() as int)),
        decreases caps@.len() - i,
    {
        let ghost tail = all.subrange(i as int, all.len() as int);
        proof {
            assert(tail.drop_first() =~= all.subrange(i + 1, all.len() as int));
        }
        match &caps[i] {
            Some(m) => {
                let cs = chars_of(m.as_str());
                match parse_decimal(&cs, i32::MIN as i64, i32::MAX as i64) {
                    Some(v) => {
                        if !(1999 <= v && v <= 2030) {
                            return Some(v as i32);
                        }
                    },
                    None => {},
                }
            },
            None => {},
        }
        i = i + 1;
    }
    proof {
        assert(all.subrange(i as int, all.len() as int) =~= Seq::<Option<Seq<char>>>::empty());
    }
    None
}

/// Episode number of a release title, if one of the patterns gives a
/// number outside the year range `1999..=2030`.
pub fn parse_episode_number(title: &str) -> (r: Option<i32>)
    ensures
        r == episode_from(episode_patterns(), title@),
        r matches Some(n) ==> is_valid_episode(n as int),
{
    let ghost pats = episode_patterns();
    proof {
        assert(pats.subrange(0, 9) =~= pats);
    }
    let mut i: usize = 0;
    while i < EPISODE_PATTERN_COUNT
        invariant
            i <= 9,
            pats == episode_patterns(),
            episode_from(pats, title@) == episode_from(pats.subrange(i as int, 9), title@),
        decreases 9 - i,
    {
        let ghost tail = pats.subrange(i as int, 9);
        proof {
            assert(tail.drop_first() =~= pats.subrange(i + 1, 9));
            assert(tail[0] == episode_pattern(i as int));
        }
        let pattern = episode_pattern_exec(i);
        match regex_captures(pattern, 1, title) {
            Some(caps) => {
                let found = pick_episode_number(&caps);
                if found.is_some() {
                    return found;
                }
            },
            None => {},
        }
        i = i + 1;
    }
    proof {
        assert(pats.subrange(9, 9) =~= Seq::<Seq<char>>::empty());
    }
    None
}

// ---------------------------------------------------------------------------
// Resolution
// ---------------------------------------------------------------------------

pub open spec fn resolution_pattern() -> Seq<char> {
    r"(\d{3,4}[pP])"@
}

pub open spec fn dimensions_pattern() -> Seq<char> {
    r"(\d{3,4})[xX](\d{3,4})"@
}

/// `NNNp` in the title, lower-cased.
pub open spec fn resolution_from_text(title: Seq<char>) -> Option<Seq<char>> {
    let m = regex_group_matches(resolution_pattern(), 1, title);
    if regex_compiles(resolution_pattern()) && m.len() > 0 && m[0] is Some {
        Some(lower_of(m[0]->0))
    } else {
        None
    }
}

/// Resolution class of a frame height.
pub open spec fn height_class(h: int) -> Seq<char> {
    if h >= 2100 {
        "2160p"@
    } else if h >= 1070 {
        "1080p"@
    } else if h >= 700 {
        "720p"@
    } else {
        "480p"@
    }
}

/// `WxH` in the title, classed by its height.
pub open spec fn resolution_from_dimensions(title: Seq<char>) -> Option<Seq<char>> {
    let m = regex_group_matches(dimensions_pattern(), 2, title);
    if regex_compiles(dimensions_pattern()) && m.len() > 0 && m[0] is Some {
        match decimal_in(m[0]->0, i32::MIN as int, i32::MAX as int) {
            Some(h) => Some(height_class(h)),
            None => None,
        }
    } else {
        None
    }
}

pub open spec fn source_tag(i: int) -> Seq<char> {
    if i == 0 {
        "BDRIP"@
    } else if i == 1 {
        "BLURAY"@
    } else if i == 2 {
        "BD"@
    } else if i == 3 {
        "WEBRIP"@
    } else if i == 4 {
        "WEB-DL"@
    } else if i == 5 {
        "WEBDL"@
    } else if i == 6 {
        "HDTV"@
    } else if i == 7 {
        "HDTVRIP"@
    } else if i == 8 {
        "DVDRIP"@
    } else if i == 9 {
        "DVD"@
    } else {
        Seq::empty()
    }
}

pub open spec fn source_resolution(i: int) -> Seq<char> {
    if i == 0 {
        "1080p"@
    } else if i == 1 {
        "1080p"@
    } else if i == 2 {
        "1080p"@
    } else if i == 3 {
        "1080p"@
    } else if i == 4 {
        "1080p"@
    } else if i == 5 {
        "1080p"@
    } else if i == 6 {
        "720p"@
    } else if i == 7 {
        "720p"@
    } else if i == 8 {
        "480p"@
    } else if i == 9 {
        "480p"@
    } else {
        Seq::empty()
    }
}

fn source_tag_exec(i: usize) -> (r: &'static str)
    requires
        i < 10,
    ensures
        r@ == source_tag(i as int),
{
    match i {
        0 => "BDRIP",
        1 => "BLURAY",
        2 => "BD",
        3 => "WEBRIP",
        4 => "WEB-DL",
        5 => "WEBDL",
        6 => "HDTV",
        7 => "HDTVRIP",
        8 => "DVDRIP",
        _ => "DVD",
    }
}

fn source_resolution_exec(i: usize) -> (r: &'static str)
    requires
        i < 10,
    ensures
        r@ == source_resolution(i as int),
{
    match i {
        0 => "1080p",
        1 => "1080p",
        2 => "1080p",
        3 => "1080p",
        4 => "1080p",
        5 => "1080p",
        6 => "720p",
        7 => "720p",
        8 => "480p",
        _ => "480p",
    }
}

/// Number of release-source tags, tried in order.
pub const SOURCE_TAG_COUNT: usize = 10;

/// Resolution implied by the first release-source tag found in the
/// upper-cased title, starting the search at tag `i`.
pub open spec fn source_from(up: Seq<char>, i: int) -> Option<Seq<char>>
    decreases 10 - i,
{
    if i < 0 || i >= 10 {
        None
    } else if contains_seq(up, source_tag(i)) {
        Some(source_resolution(i))
    } else {
        source_from(up, i + 1)
    }
}

pub open spec fn resolution_from_source(title: Seq<char>) -> Option<Seq<char>> {
    source_from(upper_of(title), 0)
}

/// The resolution a title states or implies: an explicit `NNNp`, else the
/// height of `WxH`, else the release source.
pub open spec fn resolution_of(title: Seq<char>) -> Option<Seq<char>> {
    if resolution_from_text(title) is Some {
        resolution_from_text(title)
    } else if resolution_from_dimensions(title) is Some {
        resolution_from_dimensions(title)
    } else {
        resolution_from_source(title)
    }
}

fn height_class_exec(h: i64) -> (r: String)
    ensures
        r@ == height_class(h as int),
{
    if h >= 2100 {
        String::from_str("2160p")
    } else if h >= 1070 {
        String::from_str("1080p")
    } else if h >= 700 {
        String::from_str("720p")
    } else {
        String::from_str("480p")
    }
}

fn from_resolution_str(title: &str) -> (r: Option<String>)
    ensures
        r matches Some(s) ==> resolution_from_text(title@) == Some(s@),
        r is None ==> resolution_from_text(title@) is None,
{
    match regex_captures(r"(\d{3,4}[pP])", 1, title) {
        Some(caps) => {
            if caps.len() > 0 {
                match &caps[0] {
                    Some(m) => Some(lowercase(m.as_str())),
                    None => None,
                }
            } else {
                None
            }
        },
        None => None,
    }
}

fn from_dimensions(title: &str) -> (r: Option<String>)
    ensures
        r matches Some(s) ==> resolution_from_dimensions(title@) == Some(s@),
        r is None ==> resolution_from_dimensions(title@) is None,
{
    match regex_captures(r"(\d{3,4})[xX](\d{3,4})", 2, title) {
        Some(caps) => {
            if caps.len() > 0 {
                match &caps[0] {
                    Some(m) => {
                        let cs = chars_of(m.as_str());
                        match parse_decimal(&cs, i32::MIN as i64, i32::MAX as i64) {
                            Some(h) => Some(height_class_exec(h)),
                            None => None,
                        }
                    },
                    None => None,
                }
            } else {
                None
            }
        },
        None => None,
    }
}

/// Resolution implied by a release-source tag (`BDRIP`, `WEB-DL`, `HDTV`,
/// `DVD`, ...) in the title, compared case-insensitively.
pub fn infer_from_source(title: &str) -> (r: Option<String>)
    ensures
        r matches Some(s) ==> resolution_from_source(title@) == Some(s@),
        r is None ==> resolution_from_source(title@) is None,
{
    let up = uppercase(title);
    let mut i: usize = 0;
    while i < SOURCE_TAG_COUNT
        invariant
            i <= 10,
            up@ == upper_of(title@),
            source_from(up@, 0) == source_from(up@, i as int),
        decreases 10 - i,
    {
        if str_contains(up.as_str(), source_tag_exec(i)) {
            return Some(String::from_str(source_resolution_exec(i)));
        }
        i = i + 1;
    }
    None
}

/// Resolution of a release title: an explicit `NNNp` (lower-cased), else
/// the class of the height in `WxH`, else what the release source implies.
pub fn parse_resolution(title: &str) -> (r: Option<String>)
    ensures
        r matches Some(s) ==> resolution_of(title@) == Some(s@),
        r is None ==> resolution_of(title@) is None,
{
    match from_resolution_str(title) {
        Some(r) => {
            return Some(r);
        },
        None => {},
    }
    match from_dimensions(title) {
        Some(r) => {
            return Some(r);
        },
        None => {},
    }
    infer_from_source(title)
}

// ---------------------------------------------------------------------------
// Subtitle type
// ---------------------------------------------------------------------------

/// Number of subtitle keywords, tried in order.
pub const SUBTITLE_KEYWORD_COUNT: usize = 53;

pub open spec fn subtitle_keyword(i: int) -> Seq<char> {
    if i == 0 {
        "简繁日内封"@
    } else if i == 1 {
        "简繁日内嵌"@
    } else if i == 2 {
        "简繁日多语"@
    } else if i == 3 {
        "简繁英"@
    } else if i == 4 {
        "简体日语双语"@
    } else if i == 5 {
        "繁体日语双语"@
    } else if i == 6 {
        "简日双语"@
    } else if i == 7 {
        "简日双字"@
    } else if i == 8 {
        "繁日双语"@
    } else if i == 9 {
        "繁日双字"@
    } else if i == 10 {
        "中日双语"@
    } else if i == 11 {
        "中日双字"@
    } else if i == 12 {
        "简繁双语"@
    } else if i == 13 {
        "简繁双字"@
    } else if i == 14 {
        "双语字幕"@
    } else if i == 15 {
        "简日"@
    } else if i == 16 {
        "繁日"@
    } else if i == 17 {
        "简英"@
    } else if i == 18 {
        "繁英"@
    } else if i == 19 {
        "简繁"@
    } else if i == 20 {
        "简日内封"@
    } else if i == 21 {
        "繁日内封"@
    } else if i == 22 {
        "简日内嵌"@
    } else if i == 23 {
        "繁日内嵌"@
    } else if i == 24 {
        "简繁内封"@
    } else if i == 25 {
        "简繁内挂"@
    } else if i == 26 {
        "简繁内嵌"@
    } else if i == 27 {
        "简体内封"@
    } else if i == 28 {
        "简体内挂"@
    } else if i == 29 {
        "简体内嵌"@
    } else if i == 30 {
        "繁体内封"@
    } else if i == 31 {
        "繁体内挂"@
    } else if i == 32 {
        "繁体内嵌"@
    } else if i == 33 {
        "简体外挂"@
    } else if i == 34 {
        "繁体外挂"@
    } else if i == 35 {
        "简繁外挂"@
    } else if i == 36 {
        "外挂字幕"@
    } else if i == 37 {
        "CHT"@
    } else if i == 38 {
        "CHS"@
    } else if i == 39 {
        "GB"@
    } else if i == 40 {
        "BIG5"@
    } else if i == 41 {
        "简体"@
    } else if i == 42 {
        "繁体"@
    } else if i == 43 {
        "简中"@
    } else if i == 44 {
        "繁中"@
    } else if i == 45 {
        "中字"@
    } else if i == 46 {
        "英语"@
    } else if i == 47 {
        "内嵌字幕"@
    } else if i == 48 {
        "内挂字幕"@
    } else if i == 49 {
        "中文字幕"@
    } else if i == 50 {
        "日语原声"@
    } else if i == 51 {
        "无字幕"@
    } else if i == 52 {
        "RAW"@
    } else {
        Seq::empty()
    }
}

fn subtitle_keyword_exec(i: usize) -> (r: &'static str)
    requires
        i < 53,
    ensures
        r@ == subtitle_keyword(i as int),
{
    match i {
        0 => "简繁日内封",
        1 => "简繁日内嵌",
        2 => "简繁日多语",
        3 => "简繁英",
        4 => "简体日语双语",
        5 => "繁体日语双语",
        6 => "简日双语",
        7 => "简日双字",
        8 => "繁日双语",
        9 => "繁日双字",
        10 => "中日双语",
        11 => "中日双字",
        12 => "简繁双语",
        13 => "简繁双字",
        14 => "双语字幕",
        15 => "简日",
        16 => "繁日",
        17 => "简英",
        18 => "繁英",
        19 => "简繁",
        20 => "简日内封",
        21 => "繁日内封",
        22 => "简日内嵌",
        23 => "繁日内嵌",
        24 => "简繁内封",
        25 => "简繁内挂",
        26 => "简繁内嵌",
        27 => "简体内封",
        28 => "简体内挂",
        29 => "简体内嵌",
        30 => "繁体内封",
        31 => "繁体内挂",
        32 => "繁体内嵌",
        33 => "简体外挂",
        34 => "繁体外挂",
        35 => "简繁外挂",
        36 => "外挂字幕",
        37 => "CHT",
        38 => "CHS",
        39 => "GB",
        40 => "BIG5",
        41 => "简体",
        42 => "繁体",
        43 => "简中",
        44 => "繁中",
        45 => "中字",
        46 => "英语",
        47 => "内嵌字幕",
        48 => "内挂字幕",
        49 => "中文字幕",
        50 => "日语原声",
        51 => "无字幕",
        _ => "RAW",
    }
}

/// The canonical name of a subtitle type; names without one stay as
/// they are.
pub open spec fn normalized_type(raw: Seq<char>) -> Seq<char> {
    if raw == "简日双语"@ || raw == "繁日双语"@ || raw == "中日双语"@ || raw == "简日"@ {
        "中日双语"@
    } else if raw == "简繁"@ || raw == "简繁双语"@ {
        "简繁双语"@
    } else if raw == "CHS"@ || raw == "简体"@ || raw == "简中"@ || raw == "GB"@ {
        "简体中文"@
    } else if raw == "CHT"@ || raw == "繁体"@ || raw == "繁中"@ || raw == "BIG5"@ {
        "繁体中文"@
    } else if raw == "无字幕"@ || raw == "RAW"@ {
        "无字幕"@
    } else {
        raw
    }
}

/// The canonical name of a subtitle type (simplified / traditional Chinese,
/// bilingual, raw); a name without one is returned as it is.
pub fn normalize_subtitle_type(raw_type: &str) -> (r: String)
    ensures
        r@ == normalized_type(raw_type@),
{
    if str_eq(raw_type, "简日双语") || str_eq(raw_type, "繁日双语") || str_eq(raw_type, "中日双语") || str_eq(raw_type, "简日") {
        String::from_str("中日双语")
    } else if str_eq(raw_type, "简繁") || str_eq(raw_type, "简繁双语") {
        String::from_str("简繁双语")
    } else if str_eq(raw_type, "CHS") || str_eq(raw_type, "简体") || str_eq(raw_type, "简中") || str_eq(raw_type, "GB") {
        String::from_str("简体中文")
    } else if str_eq(raw_type, "CHT") || str_eq(raw_type, "繁体") || str_eq(raw_type, "繁中") || str_eq(raw_type, "BIG5") {
        String::from_str("繁体中文")
    } else if str_eq(raw_type, "无字幕") || str_eq(raw_type, "RAW") {
        String::from_str("无字幕")
    } else {
        String::from_str(raw_type)
    }
}

/// Subtitle type named by the first keyword found in the title, searching
/// from keyword `i` on.
pub open spec fn subtitle_from(title: Seq<char>, i: int) -> Option<Seq<char>>
    decreases 53 - i,
{
    if i < 0 || i >= 53 {
        None
    } else if contains_seq(title, subtitle_keyword(i)) {
        Some(normalized_type(subtitle_keyword(i)))
    } else {
        subtitle_from(title, i + 1)
    }
}

/// The normalised subtitle type of a title; "其他" when no keyword occurs.
pub open spec fn subtitle_type_of(title: Seq<char>) -> Seq<char> {
    match subtitle_from(title, 0) {
        Some(t) => t,
        None => "其他"@,
    }
}

/// Subtitle type of a release title: the first keyword of the list that
/// occurs in it, normalised; "其他" when none does. Never `None`.
pub fn parse_and_normalize_subtitle_type(title: &str) -> (r: Option<String>)
    ensures
        r matches Some(s) && s@ == subtitle_type_of(title@),
{
    let mut i: usize = 0;
    while i < SUBTITLE_KEYWORD_COUNT
        invariant
            i <= 53,
            subtitle_from(title@, 0) == subtitle_from(title@, i as int),
        decreases 53 - i,
    {
        let kw = subtitle_keyword_exec(i);
        if str_contains(title, kw) {
            return Some(normalize_subtitle_type(kw));
        }
        i = i + 1;
    }
    Some(String::from_str("其他"))
}

// ---------------------------------------------------------------------------
// Release date
// ---------------------------------------------------------------------------

/// Number of date formats, tried in order.
pub const DATE_FORMAT_COUNT: usize = 4;

pub open spec fn date_format(i: int) -> Seq<char> {
    if i == 0 {
        "%Y/%m/%d %H:%M"@
    } else if i == 1 {
        "%Y-%m-%dT%H:%M:%S%.f"@
    } else if i == 2 {
        "%Y-%m-%d %H:%M:%S"@
    } else if i == 3 {
        "%Y-%m-%d"@
    } else {
        Seq::empty()
    }
}

fn date_format_exec(i: usize) -> (r: &'static str)
    requires
        i < 4,
    ensures
        r@ == date_format(i as int),
{
    match i {
        0 => "%Y/%m/%d %H:%M",
        1 => "%Y-%m-%dT%H:%M:%S%.f",
        2 => "%Y-%m-%d %H:%M:%S",
        _ => "%Y-%m-%d",
    }
}

/// Epoch milliseconds of a trimmed date text: for each format in turn, a
/// date-time reading, then a date-only reading at midnight UTC.
pub open spec fn timestamp_from(s: Seq<char>, i: int) -> Option<i64>
    decreases 4 - i,
{
    if i < 0 || i >= 4 {
        None
    } else if naive_datetime_ms(s, date_format(i)) is Some {
        naive_datetime_ms(s, date_format(i))
    } else if naive_date_ms(s, date_format(i)) is Some {
        naive_date_ms(s, date_format(i))
    } else {
        timestamp_from(s, i + 1)
    }
}

/// Release date text (surrounding white space ignored) as UTC epoch
/// milliseconds, or `None` when no format reads it.
pub fn parse_datetime_to_timestamp(date_str: &str) -> (r: Option<i64>)
    ensures
        r == timestamp_from(trimmed(date_str@), 0),
{
    let s = trim_str(date_str);
    let mut i: usize = 0;
    while i < DATE_FORMAT_COUNT
        invariant
            i <= 4,
            s@ == trimmed(date_str@),
            timestamp_from(s@, 0) == timestamp_from(s@, i as int),
        decreases 4 - i,
    {
        let fmt = date_format_exec(i);
        match parse_naive_datetime_ms(s.as_str(), fmt) {
            Some(v) => {
                return Some(v);
            },
            None => {},
        }
        match parse_naive_date_ms(s.as_str(), fmt) {
            Some(v) => {
                return Some(v);
            },
            None => {},
        }
        i = i + 1;
    }
    None
}

} // verus!
