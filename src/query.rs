//! Query shapes of the repositories: paging, the resource filter, the
//! subscription listing's sort and search, and page arithmetic. Every user
//! value is bound to a `?` placeholder, never written into the SQL text.
use vstd::prelude::*;
use crate::models::Resource;
use crate::text::{lower_of, lowercase};

verus! {

/// `LIMIT` and `OFFSET` to bind: a limit of 0 or less means no limit,
/// which SQLite spells `LIMIT -1 OFFSET 0`.
pub open spec fn limit_offset_spec(limit: i64, offset: i64) -> (i64, i64) {
    if limit > 0 {
        (limit, offset)
    } else {
        (-1i64, 0i64)
    }
}

pub fn limit_offset(limit: i64, offset: i64) -> (r: (i64, i64))
    ensures
        r == limit_offset_spec(limit, offset),
{
    if limit > 0 {
        (limit, offset)
    } else {
        (-1, 0)
    }
}

/// Law: a zero limit lists everything rather than nothing.
pub proof fn lemma_zero_limit_unbounded(offset: i64)
    ensures
        limit_offset_spec(0, offset) == (-1i64, 0i64),
{
}

pub open spec fn resource_filter_sql_spec(has_resolution: bool, has_episode: bool, has_subtitle: bool) -> Seq<
    char,
> {
    "SELECT * FROM resource WHERE mikan_id = ?"@ + (if has_resolution {
        " AND resolution = ?"@
    } else {
        Seq::empty()
    }) + (if has_episode {
        " AND episode_number = ?"@
    } else {
        Seq::empty()
    }) + (if has_subtitle {
        " AND subtitle_type = ?"@
    } else {
        Seq::empty()
    }) + " ORDER BY release_date DESC LIMIT ? OFFSET ?"@
}

/// A resource filter: the show, and optionally resolution, episode and
/// subtitle type.
#[derive(Debug, Clone)]
pub struct ResourceFilter {
    pub mikan_id: i64,
    pub resolution: Option<String>,
    pub episode_number: Option<i32>,
    pub subtitle_type: Option<String>,
}

/// Whether a row passes the filter; an absent criterion passes every row.
pub open spec fn resource_matches(r: Resource, f: ResourceFilter) -> bool {
    &&& r.mikan_id == f.mikan_id
    &&& (f.resolution matches Some(x) ==> (r.resolution matches Some(y) && y@ == x@))
    &&& (f.episode_number matches Some(e) ==> r.episode_number == Some(e))
    &&& (f.subtitle_type matches Some(x) ==> (r.subtitle_type matches Some(y) && y@ == x@))
}

/// Law: with no resolution, episode or subtitle criterion, the filter keeps
/// every row of the show.
pub proof fn lemma_filter_without_criteria(r: Resource, f: ResourceFilter)
    requires
        f.resolution is None,
        f.episode_number is None,
        f.subtitle_type is None,
    ensures
        resource_matches(r, f) <==> r.mikan_id == f.mikan_id,
{
}

/// SQL of the resource filter, newest release first. Placeholders, in
/// order: `mikan_id`, then each criterion present, then limit and offset
/// (see `limit_offset`).
pub fn resource_filter_sql(filter: &ResourceFilter) -> (r: String)
    ensures
        r@ == resource_filter_sql_spec(
            filter.resolution is Some,
            filter.episode_number is Some,
            filter.subtitle_type is Some,
        ),
{
    let mut s = String::from_str("SELECT * FROM resource WHERE mikan_id = ?");
    if filter.resolution.is_some() {
        s.append(" AND resolution = ?");
    }
    if filter.episode_number.is_some() {
        s.append(" AND episode_number = ?");
    }
    if filter.subtitle_type.is_some() {
        s.append(" AND subtitle_type = ?");
    }
    s.append(" ORDER BY release_date DESC LIMIT ? OFFSET ?");
    proof {
        assert(s@ =~= resource_filter_sql_spec(
            filter.resolution is Some,
            filter.episode_number is Some,
            filter.subtitle_type is Some,
        ));
    }
    s
}

/// Column a subscription listing sorts by.
pub open spec fn sort_column_spec(sort: Seq<char>) -> Seq<char> {
    if sort == "rating"@ {
        "anime_rating"@
    } else if sort == "air_date"@ {
        "anime_air_date"@
    } else if sort == "name"@ {
        "anime_name_cn"@
    } else {
        "subscribed_at"@
    }
}

pub fn sort_column(sort: &str) -> (r: &'static str)
    ensures
        r@ == sort_column_spec(sort@),
{
    if crate::chars::str_eq(sort, "rating") {
        "anime_rating"
    } else if crate::chars::str_eq(sort, "air_date") {
        "anime_air_date"
    } else if crate::chars::str_eq(sort, "name") {
        "anime_name_cn"
    } else {
        "subscribed_at"
    }
}

pub open spec fn ascii_lower(c: char) -> char {
    if 'A' <= c && c <= 'Z' {
        ((c as u32) + 32) as char
    } else {
        c
    }
}

/// Equal once ASCII letters are folded to lower case.
pub open spec fn eq_ignore_ascii_case_spec(a: Seq<char>, b: Seq<char>) -> bool {
    a.len() == b.len() && forall|i: int| 0 <= i < a.len() ==> ascii_lower(#[trigger] a[i]) == ascii_lower(b[i])
}

fn ascii_lower_exec(c: char) -> (r: char)
    ensures
        r == ascii_lower(c),
{
    if 'A' <= c && c <= 'Z' {
        let u = (c as u32) + 32;
        proof {
            assert(0x61 <= u <= 0x7a);
        }
        match u {
            0x61 => 'a', 0x62 => 'b', 0x63 => 'c', 0x64 => 'd', 0x65 => 'e', 0x66 => 'f',
            0x67 => 'g', 0x68 => 'h', 0x69 => 'i', 0x6a => 'j', 0x6b => 'k', 0x6c => 'l',
            0x6d => 'm', 0x6e => 'n', 0x6f => 'o', 0x70 => 'p', 0x71 => 'q', 0x72 => 'r',
            0x73 => 's', 0x74 => 't', 0x75 => 'u', 0x76 => 'v', 0x77 => 'w', 0x78 => 'x',
            0x79 => 'y', _ => 'z',
        }
    } else {
        c
    }
}

/// Whether two strings are equal up to ASCII case.
pub fn eq_ignore_ascii_case(a: &str, b: &str) -> (r: bool)
    ensures
        r == eq_ignore_ascii_case_spec(a@, b@),
{
    let x = crate::chars::chars_of(a);
    let y = crate::chars::chars_of(b);
    if x.len() != y.len() {
        return false;
    }
    let mut i: usize = 0;
    while i < x.len()
        invariant
            x@ == a@,
            y@ == b@,
            x@.len() == y@.len(),
            i <= x@.len(),
            forall|j: int| 0 <= j < i ==> ascii_lower(#[trigger] x@[j]) == ascii_lower(y@[j]),
        decreases x@.len() - i,
    {
        if ascii_lower_exec(x[i]) != ascii_lower_exec(y[i]) {
            return false;
        }
        i = i + 1;
    }
    true
}

/// Sort direction: descending for any casing of `desc`, else ascending.
pub fn order_direction(order: &str) -> (r: &'static str)
    ensures
        eq_ignore_ascii_case_spec(order@, "desc"@) ==> r@ == "DESC"@,
        !eq_ignore_ascii_case_spec(order@, "desc"@) ==> r@ == "ASC"@,
{
    if eq_ignore_ascii_case(order, "desc") {
        "DESC"
    } else {
        "ASC"
    }
}

pub open spec fn subscriptions_sql_spec(sort: Seq<char>, order: Seq<char>, searched: bool, limited: bool) -> Seq<char> {
    "SELECT * FROM user_subscriptions WHERE user_id = ? "@ + (if searched {
        "AND (lower(anime_name) LIKE ? OR lower(anime_name_cn) LIKE ?) "@
    } else {
        Seq::empty()
    }) + "ORDER BY "@ + sort_column_spec(sort) + " "@ + (if eq_ignore_ascii_case_spec(order, "desc"@) {
        "DESC"@
    } else {
        "ASC"@
    }) + " "@ + (if limited {
        "LIMIT ? OFFSET ?"@
    } else {
        "OFFSET ?"@
    })
}

/// SQL of a user's subscription listing. Placeholders, in order: the user,
/// the search pattern twice when searched, then limit (when limited) and
/// offset. Column and direction come from fixed lists.
pub fn subscriptions_sql(sort: &str, order: &str, searched: bool, limited: bool) -> (r: String)
    ensures
        r@ == subscriptions_sql_spec(sort@, order@, searched, limited),
{
    let mut q = String::from_str("SELECT * FROM user_subscriptions WHERE user_id = ? ");
    if searched {
        q.append("AND (lower(anime_name) LIKE ? OR lower(anime_name_cn) LIKE ?) ");
    }
    q.append("ORDER BY ");
    q.append(sort_column(sort));
    q.append(" ");
    q.append(order_direction(order));
    q.append(" ");
    if limited {
        q.append("LIMIT ? OFFSET ?");
    } else {
        q.append("OFFSET ?");
    }
    proof {
        assert(q@ =~= subscriptions_sql_spec(sort@, order@, searched, limited));
    }
    q
}

/// `LIKE` pattern of a search: the lower-cased text anywhere.
pub fn search_pattern(search: &str) -> (r: String)
    ensures
        r@ == "%"@ + lower_of(search@) + "%"@,
{
    let mut s = String::from_str("%");
    let low = lowercase(search);
    s.append(low.as_str());
    s.append("%");
    s
}

/// Offset of a 1-based page.
pub fn page_offset(page: i64, limit: i64) -> (r: i64)
    requires
        i64::MIN <= (page as int - 1) * (limit as int) <= i64::MAX,
    ensures
        r as int == (page as int - 1) * (limit as int),
{
    let p = (page as i128) - 1;
    let v = p * (limit as i128);
    v as i64
}

/// Page information of a listing.
#[derive(Debug, Clone, Copy, PartialEq, Eq, Structural)]
pub struct Pagination {
    pub current_page: i64,
    pub per_page: i64,
    pub total: i64,
    pub total_pages: i64,
    pub has_next: bool,
    pub has_prev: bool,
}

/// Shows matching a library search, with page information.
#[derive(Debug, Clone)]
pub struct SearchLibraryResponse {
    pub bangumi_ids: Vec<i64>,
    pub pagination: Pagination,
}

/// Pages needed for `total` rows, `limit` to a page (none when the limit
/// is not positive).
pub open spec fn page_count(total: int, limit: int) -> int {
    if limit > 0 && total > 0 {
        (total + limit - 1) / limit
    } else {
        0
    }
}

/// Page information for page `page` of `total` rows.
pub fn pagination(page: i64, limit: i64, total: i64) -> (r: Pagination)
    ensures
        r.current_page == page,
        r.per_page == limit,
        r.total == total,
        r.total_pages as int == page_count(total as int, limit as int),
        r.has_next == ((page as int) * (limit as int) < total as int),
        r.has_prev == (page > 1),
{
    let total_pages: i64 = if limit > 0 && total > 0 {
        let t = ((total as i128) + (limit as i128) - 1) / (limit as i128);
        proof {
            assert(((total as int) + (limit as int) - 1) / (limit as int) <= (total as int)) by (nonlinear_arith)
                requires total > 0, limit > 0;
            assert(((total as int) + (limit as int) - 1) / (limit as int) >= 0) by (nonlinear_arith)
                requires total > 0, limit > 0;
        }
        t as i64
    } else {
        0
    };
    proof {
        assert(-0x8000_0000_0000_0000 * 0x8000_0000_0000_0000 <= (page as int) * (limit as int) <= 0x8000_0000_0000_0000 * 0x8000_0000_0000_0000) by (nonlinear_arith)
            requires -0x8000_0000_0000_0000 <= page <= 0x8000_0000_0000_0000, -0x8000_0000_0000_0000 <= limit <= 0x8000_0000_0000_0000;
    }
    let has_next = (page as i128) * (limit as i128) < total as i128;
    Pagination {
        current_page: page,
        per_page: limit,
        total,
        total_pages,
        has_next,
        has_prev: page > 1,
    }
}

} // verus!
