//! What follows the walk through a release-tracker page: detail URLs from
//! the links found, resources from table rows, subtitle groups from their
//! headers, and the text rules of a show's header. The walk itself hands
//! over the texts and attributes it found.
use vstd::prelude::*;
use crate::chars::{
    chars_of, contains_seq, contains_string, copy_string, decimal_in, find_first, first_occurrence,
    occurs_at,
    parse_decimal, replace_all, replace_str, starts_with_seq, str_contains, str_starts_with,
    string_of, texts,
};
use crate::crawler::dedup_texts;
use crate::magnet::{extract_magnet_hash, is_lower_hex_hash, magnet_hash_of};
use crate::models::{Resource, SubtitleGroup};
use crate::text::{
    episode_from, episode_patterns, opt_texts, parse_and_normalize_subtitle_type,
    parse_datetime_to_timestamp, parse_episode_number, parse_resolution, regex_compiles,
    regex_group_matches, resolution_of, subtitle_type_of, timestamp_from, trimmed,
};

verus! {

/// Texts and attributes of one row of a release table.
#[derive(Debug, Clone)]
pub struct ResourceRowCells {
    /// Text of the release title link.
    pub title: String,
    /// The magnet URI the row offers.
    pub magnet: String,
    /// Text of the size cell.
    pub size: String,
    /// Text of the date cell.
    pub date: String,
    /// Link of the torrent cell, as written in the page.
    pub torrent_href: Option<String>,
}

/// A subtitle group header and the rows of the table that follows it.
#[derive(Debug, Clone)]
pub struct GroupBlock {
    /// The header's `id` attribute.
    pub id_attr: Option<String>,
    /// Text of the header's first link.
    pub name: Option<String>,
    pub rows: Vec<ResourceRowCells>,
}

pub struct MikanParser {
    pub base_url: String,
}

pub open spec fn detail_url_spec(base: Seq<char>, href: Seq<char>) -> Seq<char> {
    if starts_with_seq(href, "http"@) {
        href
    } else {
        base + href
    }
}

/// Detail URLs found through the fallback pattern, first occurrences only.
pub open spec fn fallback_urls(base: Seq<char>, caps: Seq<Option<Seq<char>>>) -> Seq<Seq<char>>
    decreases caps.len(),
{
    if caps.len() == 0 {
        seq![]
    } else {
        let prev = fallback_urls(base, caps.drop_last());
        match caps.last() {
            Some(c) => {
                let u = base + "/Home/Bangumi/"@ + c;
                if prev.contains(u) {
                    prev
                } else {
                    prev.push(u)
                }
            },
            None => prev,
        }
    }
}

pub open spec fn fallback_pattern() -> Seq<char> {
    r"/Home/Bangumi/(\\d+)"@
}

/// Text after the last `/` (all of it when there is none).
pub open spec fn last_segment(s: Seq<char>) -> Seq<char>
    decreases s.len(),
{
    if s.len() == 0 {
        s
    } else if s.last() == '/' {
        Seq::empty()
    } else {
        last_segment(s.drop_last()).push(s.last())
    }
}

/// The number ending a URL, or 0.
pub open spec fn id_of_url(url: Seq<char>) -> i64 {
    match decimal_in(last_segment(url), i64::MIN as int, i64::MAX as int) {
        Some(v) => v as i64,
        None => 0,
    }
}

/// The numeric id at the end of a URL; 0 when it does not end in one.
pub fn id_from_url(url: &str) -> (r: i64)
    ensures
        r == id_of_url(url@),
{
    let cs = chars_of(url);
    let n = cs.len();
    let mut k: usize = n;
    proof {
        assert(cs@.take(n as int) =~= cs@);
        assert(cs@ + cs@.skip(n as int) =~= cs@);
    }
    while k > 0 && cs[k - 1] != '/'
        invariant
            n == cs@.len(),
            k <= n,
            cs@ == url@,
            last_segment(cs@) == last_segment(cs@.take(k as int)) + cs@.skip(k as int),
        decreases k,
    {
        proof {
            let t = cs@.take(k as int);
            assert(t.drop_last() =~= cs@.take(k - 1));
            assert(t.last() == cs@[k - 1]);
            assert(last_segment(cs@.take(k - 1)) + cs@.skip(k - 1) =~= last_segment(cs@.take(k - 1)).push(cs@[k - 1]) + cs@.skip(k as int));
        }
        k = k - 1;
    }
    let mut seg: Vec<char> = Vec::new();
    let mut j: usize = k;
    while j < n
        invariant
            n == cs@.len(),
            k <= j <= n,
            seg@ == cs@.subrange(k as int, j as int),
        decreases n - j,
    {
        seg.push(cs[j]);
        j = j + 1;
        proof {
            assert(seg@ =~= cs@.subrange(k as int, j as int));
        }
    }
    proof {
        if k == 0 {
            assert(cs@.take(0) =~= Seq::<char>::empty());
        } else {
            assert(last_segment(cs@.take(k as int)) =~= Seq::<char>::empty());
        }
        assert(seg@ =~= last_segment(cs@));
    }
    match parse_decimal(&seg, i64::MIN, i64::MAX) {
        Some(v) => v,
        None => 0,
    }
}

/// Resources of a row: the fields a row yields, read from its texts.
pub open spec fn built_from(r: Resource, base: Seq<char>, cells: ResourceRowCells, mikan_id: i64, group_id: i64, now: i64) -> bool {
    &&& r.id is None
    &&& r.mikan_id == mikan_id
    &&& r.subtitle_group_id == group_id
    &&& r.title@ == trimmed(cells.title@)
    &&& r.episode_number == episode_from(episode_patterns(), r.title@)
    &&& (r.resolution matches Some(x) ==> resolution_of(r.title@) == Some(x@))
    &&& (r.resolution is None ==> resolution_of(r.title@) is None)
    &&& (r.subtitle_type matches Some(x) && x@ == subtitle_type_of(r.title@))
    &&& (r.magnet_url matches Some(m) && m@ == cells.magnet@)
    &&& r.magnet_hash.is_some() == magnet_hash_of(cells.magnet@).is_some()
    &&& (r.magnet_hash matches Some(h) ==> h@ == magnet_hash_of(cells.magnet@)->0 && is_lower_hex_hash(h@))
    &&& (cells.torrent_href matches Some(h) ==> (r.torrent_url matches Some(u) && u@ == base + h@))
    &&& (cells.torrent_href is None ==> r.torrent_url is None)
    &&& (r.file_size matches Some(f) && f@ == trimmed(cells.size@))
    &&& r.release_date == timestamp_from(trimmed(trimmed(cells.date@)), 0)
    &&& r.play_url is None
    &&& r.created_at == Some(now)
    &&& r.updated_at == Some(now)
}

/// The group a header names: its id and trimmed name, when the id reads as
/// a non-zero number and the name is not empty.
pub open spec fn header_id(id_attr: Option<String>) -> i64 {
    match id_attr {
        Some(a) => match decimal_in(a@, i64::MIN as int, i64::MAX as int) {
            Some(v) => v as i64,
            None => 0,
        },
        None => 0,
    }
}

pub open spec fn header_name(name: Option<String>) -> Seq<char> {
    match name {
        Some(n) => trimmed(n@),
        None => Seq::empty(),
    }
}

pub open spec fn header_valid(b: GroupBlock) -> bool {
    header_id(b.id_attr) != 0 && header_name(b.name).len() > 0
}

/// Ids of valid headers, first occurrences only.
pub open spec fn header_ids(blocks: Seq<GroupBlock>) -> Seq<i64>
    decreases blocks.len(),
{
    if blocks.len() == 0 {
        seq![]
    } else {
        let prev = header_ids(blocks.drop_last());
        let b = blocks.last();
        if header_valid(b) && !prev.contains(header_id(b.id_attr)) {
            prev.push(header_id(b.id_attr))
        } else {
            prev
        }
    }
}

/// Names of the groups `header_ids` lists, in the same order.
pub open spec fn header_names(blocks: Seq<GroupBlock>) -> Seq<Seq<char>>
    decreases blocks.len(),
{
    if blocks.len() == 0 {
        seq![]
    } else {
        let b = blocks.last();
        if header_valid(b) && !header_ids(blocks.drop_last()).contains(header_id(b.id_attr)) {
            header_names(blocks.drop_last()).push(header_name(b.name))
        } else {
            header_names(blocks.drop_last())
        }
    }
}

/// Rows under valid headers, each with its group's id, in page order.
pub open spec fn valid_rows(blocks: Seq<GroupBlock>) -> Seq<(ResourceRowCells, i64)>
    decreases blocks.len(),
{
    if blocks.len() == 0 {
        seq![]
    } else {
        let b = blocks.last();
        valid_rows(blocks.drop_last()) + if header_valid(b) {
            b.rows@.map_values(|c: ResourceRowCells| (c, header_id(b.id_attr)))
        } else {
            seq![]
        }
    }
}

/// Marker of the broadcast day line of a show header.
pub open spec fn day_marker() -> Seq<char> {
    "放送日期："@
}

/// Marker of the broadcast start line of a show header.
pub open spec fn start_marker() -> Seq<char> {
    "放送开始："@
}

/// Marker of the official website line of a show header.
pub open spec fn website_marker() -> Seq<char> {
    "官方网站："@
}

/// A header line without its line breaks, trimmed.
pub open spec fn line_text(p: Seq<char>) -> Seq<char> {
    trimmed(replace_all(p, "\n"@, Seq::empty()))
}

pub open spec fn marked_value(t: Seq<char>, marker: Seq<char>) -> Option<Seq<char>> {
    if starts_with_seq(t, marker) {
        Some(trimmed(replace_all(t, marker, Seq::empty())))
    } else {
        None
    }
}

/// Broadcast day and start, scanning lines in order; a later line replaces
/// an earlier value, and the scan stops once both are known.
pub open spec fn broadcast_fold(ps: Seq<Seq<char>>, day: Option<Seq<char>>, start: Option<Seq<char>>) -> (
    Option<Seq<char>>,
    Option<Seq<char>>,
)
    decreases ps.len(),
{
    if ps.len() == 0 {
        (day, start)
    } else {
        let t = line_text(ps[0]);
        let d2 = if marked_value(t, day_marker()) is Some {
            marked_value(t, day_marker())
        } else {
            day
        };
        let s2 = if marked_value(t, start_marker()) is Some {
            marked_value(t, start_marker())
        } else {
            start
        };
        if d2 is Some && s2 is Some {
            (d2, s2)
        } else {
            broadcast_fold(ps.drop_first(), d2, s2)
        }
    }
}

/// Text between the first `sep` and the next one (or the end).
pub open spec fn second_part(t: Seq<char>, sep: Seq<char>) -> Seq<char> {
    let k = choose|k: int| first_occurrence(t, sep, k);
    let u = t.skip(k + sep.len());
    if contains_seq(u, sep) {
        u.take(choose|j: int| first_occurrence(u, sep, j))
    } else {
        u
    }
}

/// Official website: from the first line that holds the marker, the text
/// after it up to any further marker, trimmed.
pub open spec fn website_from(ps: Seq<Seq<char>>) -> Option<Seq<char>>
    decreases ps.len(),
{
    if ps.len() == 0 {
        None
    } else {
        let t = line_text(ps[0]);
        if contains_seq(t, website_marker()) {
            Some(trimmed(second_part(t, website_marker())))
        } else {
            website_from(ps.drop_first())
        }
    }
}

proof fn lemma_first_occurrence_unique(s: Seq<char>, p: Seq<char>, i: int, j: int)
    requires
        first_occurrence(s, p, i),
        first_occurrence(s, p, j),
    ensures
        i == j,
{
    if i < j {
        assert(!occurs_at(s, p, i));
    } else if j < i {
        assert(!occurs_at(s, p, j));
    }
}

fn trimmed_string(s: &str) -> (r: String)
    ensures
        r@ == trimmed(s@),
{
    crate::text::trim_str(s)
}

fn line_of(p: &str) -> (r: String)
    ensures
        r@ == line_text(p@),
{
    proof {
        reveal_strlit("\n");
        reveal_strlit("");
        assert(""@ =~= Seq::<char>::empty());
    }
    let no_breaks = replace_str(p, "\n", "");
    trimmed_string(no_breaks.as_str())
}

fn marked(t: &str, marker: &str) -> (r: Option<String>)
    requires
        marker@.len() > 0,
    ensures
        r matches Some(v) ==> marked_value(t@, marker@) == Some(v@),
        r is None ==> marked_value(t@, marker@) is None,
{
    proof {
        reveal_strlit("");
        assert(""@ =~= Seq::<char>::empty());
    }
    if str_starts_with(t, marker) {
        let v = replace_str(t, marker, "");
        Some(trimmed_string(v.as_str()))
    } else {
        None
    }
}

pub open spec fn opt_text(o: Option<String>) -> Option<Seq<char>> {
    match o {
        Some(s) => Some(s@),
        None => None,
    }
}

/// Broadcast day and start of a show, from the texts of its header lines.
pub fn broadcast_info(paragraphs: &Vec<String>) -> (r: (Option<String>, Option<String>))
    ensures
        (opt_text(r.0), opt_text(r.1)) == broadcast_fold(texts(paragraphs@), None, None),
{
    let ghost all = texts(paragraphs@);
    let mut day: Option<String> = None;
    let mut start: Option<String> = None;
    let mut i: usize = 0;
    proof {
        assert(all.skip(0) =~= all);
        reveal_strlit("放送日期：");
        reveal_strlit("放送开始：");
    }
    while i < paragraphs.len()
        invariant
            all == texts(paragraphs@),
            i <= paragraphs@.len(),
            broadcast_fold(all, None, None) == broadcast_fold(all.skip(i as int), opt_text(day), opt_text(start)),
            day_marker().len() > 0,
            start_marker().len() > 0,
        decreases paragraphs@.len() - i,
    {
        let ghost rest = all.skip(i as int);
        proof {
            assert(rest[0] == paragraphs@[i as int]@);
            assert(rest.drop_first() =~= all.skip(i + 1));
        }
        let t = line_of(paragraphs[i].as_str());
        match marked(t.as_str(), "放送日期：") {
            Some(v) => {
                day = Some(v);
            },
            None => {},
        }
        match marked(t.as_str(), "放送开始：") {
            Some(v) => {
                start = Some(v);
            },
            None => {},
        }
        if day.is_some() && start.is_some() {
            return (day, start);
        }
        i = i + 1;
    }
    proof {
        assert(all.skip(i as int) =~= Seq::<Seq<char>>::empty());
    }
    (day, start)
}

/// Official website of a show, from the texts of its header lines.
pub fn official_website(paragraphs: &Vec<String>) -> (r: Option<String>)
    ensures
        opt_text(r) == website_from(texts(paragraphs@)),
{
    let ghost all = texts(paragraphs@);
    let marker = chars_of("官方网站：");
    let mut i: usize = 0;
    proof {
        assert(all.skip(0) =~= all);
    }
    while i < paragraphs.len()
        invariant
            all == texts(paragraphs@),
            i <= paragraphs@.len(),
            marker@ == website_marker(),
            website_from(all) == website_from(all.skip(i as int)),
        decreases paragraphs@.len() - i,
    {
        let ghost rest = all.skip(i as int);
        proof {
            assert(rest[0] == paragraphs@[i as int]@);
            assert(rest.drop_first() =~= all.skip(i + 1));
        }
        let t = line_of(paragraphs[i].as_str());
        let tc = chars_of(t.as_str());
        match find_first(&tc, &marker) {
            Some(k) => {
                let tn = tc.len();
                let mn = marker.len();
                proof {
                    assert(k + mn <= tn);
                }
                let from = k + mn;
                let mut u: Vec<char> = Vec::new();
                let mut j: usize = from;
                while j < tc.len()
                    invariant
                        from <= j <= tc@.len(),
                        u@ == tc@.subrange(from as int, j as int),
                    decreases tc@.len() - j,
                {
                    u.push(tc[j]);
                    j = j + 1;
                    proof {
                        assert(u@ =~= tc@.subrange(from as int, j as int));
                    }
                }
                proof {
                    assert(u@ =~= tc@.skip(from as int));
                    let kk = choose|kk: int| first_occurrence(tc@, marker@, kk);
                    lemma_first_occurrence_unique(tc@, marker@, k as int, kk);
                }
                let part: Vec<char> = match find_first(&u, &marker) {
                    Some(m) => {
                        let mut p: Vec<char> = Vec::new();
                        let mut q: usize = 0;
                        while q < m
                            invariant
                                m <= u@.len(),
                                q <= m,
                                p@ == u@.take(q as int),
                            decreases m - q,
                        {
                            p.push(u[q]);
                            q = q + 1;
                            proof {
                                assert(p@ =~= u@.take(q as int));
                            }
                        }
                        proof {
                            let mm = choose|mm: int| first_occurrence(u@, marker@, mm);
                            lemma_first_occurrence_unique(u@, marker@, m as int, mm);
                            assert(contains_seq(u@, marker@));
                        }
                        p
                    },
                    None => u,
                };
                let ps = string_of(&part);
                return Some(trimmed_string(ps.as_str()));
            },
            None => {},
        }
        i = i + 1;
    }
    proof {
        assert(all.skip(i as int) =~= Seq::<Seq<char>>::empty());
    }
    None
}

/// Title of a show: the extracted text, or "未知标题", without the site's
/// "Mikan Project - " prefix.
pub fn anime_title(extracted: Option<String>) -> (r: String)
    ensures
        r@ == replace_all(
            match extracted {
                Some(t) => t@,
                None => "未知标题"@,
            },
            "Mikan Project - "@,
            Seq::empty(),
        ),
{
    proof {
        reveal_strlit("Mikan Project - ");
        reveal_strlit("");
        assert(""@ =~= Seq::<char>::empty());
    }
    match extracted {
        Some(t) => replace_str(t.as_str(), "Mikan Project - ", ""),
        None => replace_str("未知标题", "Mikan Project - ", ""),
    }
}

impl MikanParser {
    pub fn new(base_url: &str) -> (r: Self)
        ensures
            r.base_url@ == base_url@,
    {
        MikanParser { base_url: String::from_str(base_url) }
    }

    /// Absolute URL of a detail link: kept when it starts with `http`,
    /// else prefixed with the site's base URL.
    pub fn detail_url(&self, href: &str) -> (r: String)
        ensures
            r@ == detail_url_spec(self.base_url@, href@),
    {
        if str_starts_with(href, "http") {
            String::from_str(href)
        } else {
            let mut s = copy_string(&self.base_url);
            s.append(href);
            s
        }
    }

    /// Detail URLs of a list page from its links, made absolute, first
    /// occurrences only.
    pub fn detail_urls(&self, hrefs: &Vec<String>) -> (r: Vec<String>)
        ensures
            texts(r@) == dedup_texts(texts(hrefs@).map_values(|h: Seq<char>| detail_url_spec(self.base_url@, h))),
    {
        let mut urls: Vec<String> = Vec::new();
        let mut i: usize = 0;
        while i < hrefs.len()
            invariant
                i <= hrefs@.len(),
                urls@.len() == i,
                forall|k: int| 0 <= k < i ==> (#[trigger] urls@[k])@ == detail_url_spec(self.base_url@, hrefs@[k]@),
            decreases hrefs@.len() - i,
        {
            urls.push(self.detail_url(hrefs[i].as_str()));
            i = i + 1;
        }
        proof {
            assert(texts(urls@) =~= texts(hrefs@).map_values(|h: Seq<char>| detail_url_spec(self.base_url@, h)));
        }
        crate::crawler::dedup_urls(urls)
    }

    /// Detail URLs read straight from the page text with the fallback
    /// pattern, first occurrences only.
    pub fn fallback_detail_urls(&self, html: &str) -> (r: Vec<String>)
        ensures
            regex_compiles(fallback_pattern()) ==> texts(r@) == fallback_urls(
                self.base_url@,
                regex_group_matches(fallback_pattern(), 1, html@),
            ),
            !regex_compiles(fallback_pattern()) ==> r@.len() == 0,
    {
        let mut urls: Vec<String> = Vec::new();
        match crate::text::regex_captures(r"/Home/Bangumi/(\\d+)", 1, html) {
            Some(caps) => {
                let ghost all = opt_texts(caps@);
                let mut i: usize = 0;
                while i < caps.len()
                    invariant
                        i <= caps@.len(),
                        all == opt_texts(caps@),
                        texts(urls@) == fallback_urls(self.base_url@, all.take(i as int)),
                    decreases caps@.len() - i,
                {
                    proof {
                        assert(all.take(i + 1).drop_last() =~= all.take(i as int));
                    }
                    match &caps[i] {
                        Some(c) => {
                            let mut u = copy_string(&self.base_url);
                            u.append("/Home/Bangumi/");
                            u.append(c.as_str());
                            if !contains_string(&urls, &u) {
                                urls.push(u);
                            }
                        },
                        None => {},
                    }
                    i = i + 1;
                    proof {
                        assert(texts(urls@) =~= fallback_urls(self.base_url@, all.take(i as int)));
                    }
                }
                proof {
                    assert(all.take(i as int) =~= all);
                }
            },
            None => {},
        }
        urls
    }

    /// A resource from the texts of a table row.
    pub fn build_resource(&self, cells: &ResourceRowCells, mikan_id: i64, group_id: i64, now: i64) -> (r:
        Resource)
        ensures
            built_from(r, self.base_url@, *cells, mikan_id, group_id, now),
    {
        let title = trimmed_string(cells.title.as_str());
        let size = trimmed_string(cells.size.as_str());
        let date = trimmed_string(cells.date.as_str());
        let torrent_url = match &cells.torrent_href {
            Some(h) => {
                let mut u = copy_string(&self.base_url);
                u.append(h.as_str());
                Some(u)
            },
            None => None,
        };
        let magnet_hash = extract_magnet_hash(cells.magnet.as_str());
        let episode_number = parse_episode_number(title.as_str());
        let resolution = parse_resolution(title.as_str());
        let subtitle_type = parse_and_normalize_subtitle_type(title.as_str());
        let release_date = parse_datetime_to_timestamp(date.as_str());
        Resource {
            id: None,
            mikan_id,
            subtitle_group_id: group_id,
            episode_number,
            title,
            file_size: Some(size),
            resolution,
            subtitle_type,
            magnet_url: Some(copy_string(&cells.magnet)),
            torrent_url,
            play_url: None,
            magnet_hash,
            release_date,
            created_at: Some(now),
            updated_at: Some(now),
        }
    }

    /// The group a header names, when its id is a non-zero number and its
    /// name is not empty.
    pub fn group_header(&self, id_attr: &Option<String>, name: &Option<String>, now: i64) -> (r: Option<
        SubtitleGroup,
    >)
        ensures
            r is Some == (header_id(*id_attr) != 0 && header_name(*name).len() > 0),
            r matches Some(g) ==> g.id == Some(header_id(*id_attr)) && g.name@ == header_name(*name)
                && g.last_update == Some(now) && g.created_at == Some(now),
    {
        let id: i64 = match id_attr {
            Some(a) => {
                let cs = chars_of(a.as_str());
                match parse_decimal(&cs, i64::MIN, i64::MAX) {
                    Some(v) => v,
                    None => 0,
                }
            },
            None => 0,
        };
        let group_name = match name {
            Some(n) => trimmed_string(n.as_str()),
            None => String::new(),
        };
        if id == 0 || group_name.unicode_len() == 0 {
            None
        } else {
            Some(SubtitleGroup { id: Some(id), name: group_name, last_update: Some(now), created_at: Some(now) })
        }
    }

    /// Groups and resources of a detail page. A block with an invalid header
    /// is skipped with its rows; a group is listed once; every row under a
    /// valid header becomes a resource of that group.
    pub fn assemble_groups(&self, blocks: &Vec<GroupBlock>, mikan_id: i64, now: i64) -> (r: (
        Vec<SubtitleGroup>,
        Vec<Resource>,
    ))
        ensures
            crate::crawler::group_ids(r.0@) == header_ids(blocks@),
            r.0@.len() == header_names(blocks@).len(),
            forall|k: int| 0 <= k < r.0@.len() ==> {
                &&& (#[trigger] r.0@[k]).id is Some
                &&& r.0@[k].name@ == header_names(blocks@)[k]
                &&& r.0@[k].last_update == Some(now)
                &&& r.0@[k].created_at == Some(now)
            },
            r.1@.len() == valid_rows(blocks@).len(),
            forall|k: int| 0 <= k < r.1@.len() ==> built_from(
                #[trigger] r.1@[k],
                self.base_url@,
                valid_rows(blocks@)[k].0,
                mikan_id,
                valid_rows(blocks@)[k].1,
                now,
            ),
            forall|k: int| 0 <= k < r.1@.len() ==> {
                &&& (#[trigger] r.1@[k]).subtitle_group_id != 0
                &&& header_ids(blocks@).contains(r.1@[k].subtitle_group_id)
            },
    {
        let mut groups: Vec<SubtitleGroup> = Vec::new();
        let mut resources: Vec<Resource> = Vec::new();
        let mut seen: Vec<i64> = Vec::new();
        let mut i: usize = 0;
        while i < blocks.len()
            invariant
                i <= blocks@.len(),
                seen@ == header_ids(blocks@.take(i as int)),
                crate::crawler::group_ids(groups@) == seen@,
                groups@.len() == header_names(blocks@.take(i as int)).len(),
                forall|k: int| 0 <= k < groups@.len() ==> {
                    &&& (#[trigger] groups@[k]).id is Some
                    &&& groups@[k].name@ == header_names(blocks@.take(i as int))[k]
                    &&& groups@[k].last_update == Some(now)
                    &&& groups@[k].created_at == Some(now)
                },
                resources@.len() == valid_rows(blocks@.take(i as int)).len(),
                forall|k: int| 0 <= k < resources@.len() ==> built_from(
                    #[trigger] resources@[k],
                    self.base_url@,
                    valid_rows(blocks@.take(i as int))[k].0,
                    mikan_id,
                    valid_rows(blocks@.take(i as int))[k].1,
                    now,
                ),
                forall|k: int| 0 <= k < resources@.len() ==> {
                    &&& (#[trigger] resources@[k]).subtitle_group_id != 0
                    &&& seen@.contains(resources@[k].subtitle_group_id)
                },
            decreases blocks@.len() - i,
        {
            proof {
                assert(blocks@.take(i + 1).drop_last() =~= blocks@.take(i as int));
                assert(blocks@.take(i + 1).last() == blocks@[i as int]);
            }
            let b = &blocks[i];
            let ghost prev_rows = valid_rows(blocks@.take(i as int));
            match self.group_header(&b.id_attr, &b.name, now) {
                Some(g) => {
                    let gid: i64 = match g.id {
                        Some(x) => x,
                        None => 0,
                    };
                    let ghost seen_before = seen@;
                    if !crate::crawler::contains_id(&seen, gid) {
                        seen.push(gid);
                        groups.push(g);
                        proof {
                            assert(crate::crawler::group_ids(groups@) =~= seen@);
                            assert(seen@[seen@.len() - 1] == gid);
                            assert(header_names(blocks@.take(i + 1)) =~= header_names(blocks@.take(i as int)).push(header_name(blocks@[i as int].name)));
                        }
                    }
                    proof {
                        assert(seen@ == header_ids(blocks@.take(i + 1)));
                        assert(groups@.len() == header_names(blocks@.take(i + 1)).len());
                        assert(seen@.contains(gid));
                        assert forall|k: int| 0 <= k < resources@.len() implies seen@.contains(#[trigger] resources@[k].subtitle_group_id) by {
                            assert(seen_before.contains(resources@[k].subtitle_group_id));
                            let w = choose|w: int| 0 <= w < seen_before.len() && seen_before[w] == resources@[k].subtitle_group_id;
                            assert(seen@[w] == seen_before[w]);
                        }
                    }
                    let mut j: usize = 0;
                    let ghost res_before = resources@.len();
                    let ghost prev = valid_rows(blocks@.take(i as int));
                    let ghost tagged = b.rows@.map_values(|c: ResourceRowCells| (c, header_id(b.id_attr)));
                    proof {
                        assert(valid_rows(blocks@.take(i + 1)) == prev + tagged);
                    }
                    while j < b.rows.len()
                        invariant
                            j <= b.rows@.len(),
                            b == blocks@[i as int],
                            gid != 0,
                            gid == header_id(b.id_attr),
                            seen@.contains(gid),
                            res_before == prev.len(),
                            tagged == b.rows@.map_values(|c: ResourceRowCells| (c, header_id(b.id_attr))),
                            resources@.len() == res_before + j,
                            forall|k: int| 0 <= k < resources@.len() ==> built_from(
                                #[trigger] resources@[k],
                                self.base_url@,
                                (prev + tagged)[k].0,
                                mikan_id,
                                (prev + tagged)[k].1,
                                now,
                            ),
                            forall|k: int| 0 <= k < resources@.len() ==> {
                                &&& (#[trigger] resources@[k]).subtitle_group_id != 0
                                &&& seen@.contains(resources@[k].subtitle_group_id)
                            },
                        decreases b.rows@.len() - j,
                    {
                        let res = self.build_resource(&b.rows[j], mikan_id, gid, now);
                        proof {
                            assert((prev + tagged)[res_before + j] == tagged[j as int]);
                        }
                        resources.push(res);
                        j = j + 1;
                    }
                },
                None => {
                    proof {
                        assert(!header_valid(blocks@[i as int]));
                        assert(valid_rows(blocks@.take(i + 1)) =~= prev_rows);
                    }
                },
            }
            i = i + 1;
        }
        proof {
            assert(blocks@.take(i as int) =~= blocks@);
        }
        (groups, resources)
    }
}

} // verus!
