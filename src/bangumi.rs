//! Library views of stored releases: episode availability of a show, and
//! its resources grouped by subtitle group.
use vstd::prelude::*;
use crate::chars::{copy_string, int_text, push_int};
use crate::models::{EpisodeResourceCount, Resource};

verus! {

#[derive(Debug, Clone, Copy, PartialEq, Eq, Structural)]
pub struct EpisodeAvailability {
    pub available: bool,
    pub resource_count: i64,
}

/// Availability of each episode that has resources, keyed by the episode
/// number's decimal text.
#[derive(Debug, Clone)]
pub struct EpisodeAvailabilityData {
    pub bangumi_id: i64,
    pub episodes: Vec<(String, EpisodeAvailability)>,
}

/// Availability of a show's episodes from per-episode resource counts.
pub fn episode_availability(bangumi_id: i64, counts: &Vec<EpisodeResourceCount>) -> (r:
    EpisodeAvailabilityData)
    ensures
        r.bangumi_id == bangumi_id,
        r.episodes@.len() == counts@.len(),
        forall|k: int| 0 <= k < counts@.len() ==> {
            &&& (#[trigger] r.episodes@[k]).0@ == int_text(counts@[k].episode_number as int)
            &&& r.episodes@[k].1.resource_count == counts@[k].resource_count
            &&& r.episodes@[k].1.available == (counts@[k].resource_count > 0)
        },
{
    let mut episodes: Vec<(String, EpisodeAvailability)> = Vec::new();
    let mut i: usize = 0;
    while i < counts.len()
        invariant
            i <= counts@.len(),
            episodes@.len() == i,
            forall|k: int| 0 <= k < i ==> {
                &&& (#[trigger] episodes@[k]).0@ == int_text(counts@[k].episode_number as int)
                &&& episodes@[k].1.resource_count == counts@[k].resource_count
                &&& episodes@[k].1.available == (counts@[k].resource_count > 0)
            },
        decreases counts@.len() - i,
    {
        let c = counts[i];
        let mut key = String::new();
        push_int(&mut key, c.episode_number as i64);
        proof {
            assert(key@ =~= int_text(c.episode_number as int));
        }
        episodes.push((key, EpisodeAvailability { available: c.resource_count > 0, resource_count: c.resource_count }));
        i = i + 1;
    }
    EpisodeAvailabilityData { bangumi_id, episodes }
}

/// One resource as listed to the user.
#[derive(Debug, Clone)]
pub struct EpisodeResource {
    pub id: i64,
    pub episode_number: i64,
    pub title: String,
    pub resolution: String,
    pub subtitle_type: String,
    pub magnet_url: String,
    pub torrent_url: String,
    pub release_date: String,
    pub size: String,
    pub group_id: i64,
    pub group_name: String,
}

/// A subtitle group with its resources.
#[derive(Debug, Clone)]
pub struct SubtitleGroupResource {
    pub id: i64,
    pub name: String,
    pub resource_count: i64,
    pub resources: Vec<EpisodeResource>,
}

#[derive(Debug, Clone)]
pub struct EpisodeResourcesData {
    pub total_resources: i64,
    pub subtitle_groups: Vec<SubtitleGroupResource>,
}

pub open spec fn text_or_empty(o: Option<String>) -> Seq<char> {
    match o {
        Some(s) => s@,
        None => Seq::empty(),
    }
}

/// `e` lists resource `r` under group name `name`; absent fields read as
/// empty text or zero.
pub open spec fn lists(e: EpisodeResource, r: Resource, name: Seq<char>) -> bool {
    &&& e.id == (match r.id {
        Some(x) => x,
        None => 0,
    })
    &&& e.episode_number == (match r.episode_number {
        Some(x) => x as i64,
        None => 0,
    })
    &&& e.title@ == r.title@
    &&& e.resolution@ == text_or_empty(r.resolution)
    &&& e.subtitle_type@ == text_or_empty(r.subtitle_type)
    &&& e.magnet_url@ == text_or_empty(r.magnet_url)
    &&& e.torrent_url@ == text_or_empty(r.torrent_url)
    &&& e.release_date@ == int_text(
        match r.release_date {
            Some(x) => x as int,
            None => 0,
        },
    )
    &&& e.size@ == text_or_empty(r.file_size)
    &&& e.group_id == r.subtitle_group_id
    &&& e.group_name@ == name
}

/// Name of group `gid` in the `(id, name)` list; "Unknown" when absent.
pub open spec fn name_for(names: Seq<(i64, String)>, gid: i64) -> Seq<char>
    decreases names.len(),
{
    if names.len() == 0 {
        "Unknown"@
    } else if names[0].0 == gid {
        names[0].1@
    } else {
        name_for(names.drop_first(), gid)
    }
}

pub open spec fn in_group(rs: Seq<Resource>, gid: i64) -> Seq<Resource> {
    rs.filter(|r: Resource| r.subtitle_group_id == gid)
}

/// Group `g` lists exactly the resources of `rs` in its group, in order.
pub open spec fn group_ok(g: SubtitleGroupResource, rs: Seq<Resource>, names: Seq<(i64, String)>) -> bool {
    &&& g.resources@.len() == in_group(rs, g.id).len()
    &&& g.resource_count == g.resources@.len()
    &&& g.name@ == name_for(names, g.id)
    &&& in_group(rs, g.id).len() > 0
    &&& forall|m: int|
        0 <= m < g.resources@.len() ==> lists(#[trigger] g.resources@[m], in_group(rs, g.id)[m], g.name@)
}

/// The groups of `rs`, by ascending id, each listing its resources.
pub open spec fn grouped(out: Seq<SubtitleGroupResource>, rs: Seq<Resource>, names: Seq<(i64, String)>) -> bool {
    &&& forall|a: int, b: int| 0 <= a < b < out.len() ==> (#[trigger] out[a]).id < (#[trigger] out[b]).id
    &&& forall|k: int| 0 <= k < out.len() ==> group_ok(#[trigger] out[k], rs, names)
    &&& forall|j: int|
        0 <= j < rs.len() ==> exists|k: int| 0 <= k < out.len() && (#[trigger] out[k]).id == (
        #[trigger] rs[j]).subtitle_group_id
}

fn group_name(names: &Vec<(i64, String)>, gid: i64) -> (r: String)
    ensures
        r@ == name_for(names@, gid),
{
    let mut i: usize = 0;
    proof {
        assert(names@.skip(0) =~= names@);
    }
    while i < names.len()
        invariant
            i <= names@.len(),
            name_for(names@, gid) == name_for(names@.skip(i as int), gid),
        decreases names@.len() - i,
    {
        proof {
            assert(names@.skip(i as int).drop_first() =~= names@.skip(i + 1));
        }
        if names[i].0 == gid {
            return copy_string(&names[i].1);
        }
        i = i + 1;
    }
    String::from_str("Unknown")
}

fn opt_text(o: &Option<String>) -> (r: String)
    ensures
        r@ == text_or_empty(*o),
{
    match o {
        Some(s) => copy_string(s),
        None => String::new(),
    }
}

/// A stored resource as listed under group name `name`.
pub fn to_episode_resource(r: &Resource, name: &String) -> (e: EpisodeResource)
    ensures
        lists(e, *r, name@),
{
    let mut release_date = String::new();
    let d: i64 = match r.release_date {
        Some(x) => x,
        None => 0,
    };
    push_int(&mut release_date, d);
    proof {
        assert(release_date@ =~= int_text(d as int));
    }
    EpisodeResource {
        id: match r.id {
            Some(x) => x,
            None => 0,
        },
        episode_number: match r.episode_number {
            Some(x) => x as i64,
            None => 0,
        },
        title: copy_string(&r.title),
        resolution: opt_text(&r.resolution),
        subtitle_type: opt_text(&r.subtitle_type),
        magnet_url: opt_text(&r.magnet_url),
        torrent_url: opt_text(&r.torrent_url),
        release_date,
        size: opt_text(&r.file_size),
        group_id: r.subtitle_group_id,
        group_name: copy_string(name),
    }
}

proof fn lemma_in_group_push(rs: Seq<Resource>, x: Resource, gid: i64)
    ensures
        x.subtitle_group_id == gid ==> in_group(rs.push(x), gid) == in_group(rs, gid).push(x),
        x.subtitle_group_id != gid ==> in_group(rs.push(x), gid) == in_group(rs, gid),
{
    reveal(Seq::filter);
    assert(rs.push(x).drop_last() =~= rs);
}

proof fn lemma_in_group_empty(rs: Seq<Resource>, gid: i64)
    requires
        forall|j: int| 0 <= j < rs.len() ==> (#[trigger] rs[j]).subtitle_group_id != gid,
    ensures
        in_group(rs, gid).len() == 0,
    decreases rs.len(),
{
    reveal(Seq::filter);
    if rs.len() > 0 {
        let d = rs.drop_last();
        assert forall|j: int| 0 <= j < d.len() implies (#[trigger] d[j]).subtitle_group_id != gid by {
            assert(d[j] == rs[j]);
        }
        lemma_in_group_empty(d, gid);
        assert(rs.last() == rs[rs.len() - 1]);
    }
}

/// Groups a show's resources by subtitle group, groups by ascending id,
/// each resource listed under its group's name ("Unknown" when the group
/// is not in `names`), in the order given.
pub fn group_resources(resources: &Vec<Resource>, names: &Vec<(i64, String)>) -> (r: EpisodeResourcesData)
    requires
        resources@.len() <= i64::MAX,
    ensures
        r.total_resources == resources@.len(),
        grouped(r.subtitle_groups@, resources@, names@),
{
    let mut out: Vec<SubtitleGroupResource> = Vec::new();
    let mut i: usize = 0;
    while i < resources.len()
        invariant
            i <= resources@.len(),
            resources@.len() <= i64::MAX,
            grouped(out@, resources@.take(i as int), names@),
            forall|k: int| 0 <= k < out@.len() ==> (#[trigger] out@[k]).resource_count <= i,
        decreases resources@.len() - i,
    {
        let ghost pre = resources@.take(i as int);
        let ghost post = resources@.take(i + 1);
        let x = &resources[i];
        let gid = x.subtitle_group_id;
        proof {
            assert(post =~= pre.push(*x));
        }
        // position of the first group whose id is not below `gid`
        let mut p: usize = 0;
        while p < out.len() && out[p].id < gid
            invariant
                p <= out@.len(),
                forall|k: int| 0 <= k < p ==> (#[trigger] out@[k]).id < gid,
            decreases out@.len() - p,
        {
            p = p + 1;
        }
        let ghost old_out = out@;
        if p < out.len() && out[p].id == gid {
            let mut g = out.remove(p);
            let e = to_episode_resource(x, &g.name);
            g.resources.push(e);
            g.resource_count = g.resource_count + 1;
            out.insert(p, g);
            proof {
                assert(out@ =~= old_out.update(p as int, g));
                lemma_in_group_push(pre, *x, gid);
                assert(group_ok(out@[p as int], post, names@)) by {
                    let og = old_out[p as int];
                    assert(group_ok(og, pre, names@));
                    assert forall|m: int| 0 <= m < g.resources@.len() implies lists(
                        #[trigger] g.resources@[m],
                        in_group(post, g.id)[m],
                        g.name@,
                    ) by {
                        if m < og.resources@.len() {
                            assert(g.resources@[m] == og.resources@[m]);
                        }
                    }
                }
                assert forall|k: int| 0 <= k < out@.len() implies group_ok(#[trigger] out@[k], post, names@) by {
                    if k != p {
                        assert(out@[k] == old_out[k]);
                        assert(group_ok(old_out[k], pre, names@));
                        if old_out[k].id == gid {
                            if k < p {
                                assert(old_out[k].id < old_out[p as int].id);
                            } else {
                                assert(old_out[p as int].id < old_out[k].id);
                            }
                        }
                        lemma_in_group_push(pre, *x, old_out[k].id);
                    }
                }
                assert forall|a: int, b: int| 0 <= a < b < out@.len() implies (#[trigger] out@[a]).id < (
                #[trigger] out@[b]).id by {
                    assert(old_out[a].id < old_out[b].id);
                }
                assert forall|j: int| 0 <= j < post.len() implies exists|k: int|
                    0 <= k < out@.len() && (#[trigger] out@[k]).id == (#[trigger] post[j]).subtitle_group_id by {
                    if j < pre.len() {
                        assert(post[j] == pre[j]);
                        let k = choose|k: int| 0 <= k < old_out.len() && (#[trigger] old_out[k]).id == pre[j].subtitle_group_id;
                        assert(out@[k].id == old_out[k].id);
                    } else {
                        assert(out@[p as int].id == gid);
                    }
                }
            }
        } else {
            let name = group_name(names, gid);
            let e = to_episode_resource(x, &name);
            let mut rs: Vec<EpisodeResource> = Vec::new();
            rs.push(e);
            let g = SubtitleGroupResource { id: gid, name, resource_count: 1, resources: rs };
            out.insert(p, g);
            proof {
                assert forall|j: int| 0 <= j < pre.len() implies (#[trigger] pre[j]).subtitle_group_id != gid by {
                    if pre[j].subtitle_group_id == gid {
                        let k = choose|k: int| 0 <= k < old_out.len() && (#[trigger] old_out[k]).id == pre[j].subtitle_group_id;
                        if k < p {
                        } else {
                            assert(p < old_out.len());
                            if k > p {
                                assert(old_out[p as int].id < old_out[k].id);
                            }
                        }
                    }
                }
                lemma_in_group_empty(pre, gid);
                lemma_in_group_push(pre, *x, gid);
                assert(in_group(post, gid) =~= seq![*x]);
                assert(out@[p as int] == g);
                assert(group_ok(g, post, names@)) by {
                    assert(g.resources@[0] == e);
                }
                assert forall|k: int| 0 <= k < out@.len() implies group_ok(#[trigger] out@[k], post, names@) by {
                    if k < p {
                        assert(out@[k] == old_out[k]);
                        assert(group_ok(old_out[k], pre, names@));
                        lemma_in_group_push(pre, *x, old_out[k].id);
                    } else if k > p {
                        assert(out@[k] == old_out[k - 1]);
                        assert(group_ok(old_out[k - 1], pre, names@));
                        lemma_in_group_push(pre, *x, old_out[k - 1].id);
                    }
                }
                assert forall|a: int, b: int| 0 <= a < b < out@.len() implies (#[trigger] out@[a]).id < (
                #[trigger] out@[b]).id by {
                    if b < p {
                        assert(old_out[a].id < old_out[b].id);
                    } else if b == p {
                        assert(old_out[a].id < gid);
                    } else if a < p {
                        assert(out@[b] == old_out[b - 1]);
                        assert(old_out[b - 1].id >= gid || b - 1 < p);
                        if b - 1 >= p {
                            assert(old_out[p as int].id <= old_out[b - 1].id);
                            assert(old_out[p as int].id != gid);
                        }
                        assert(old_out[a].id < gid);
                    } else if a == p {
                        assert(out@[b] == old_out[b - 1]);
                        if b - 1 > p {
                            assert(old_out[p as int].id < old_out[b - 1].id);
                        }
                    } else {
                        assert(old_out[a - 1].id < old_out[b - 1].id);
                    }
                }
                assert forall|j: int| 0 <= j < post.len() implies exists|k: int|
                    0 <= k < out@.len() && (#[trigger] out@[k]).id == (#[trigger] post[j]).subtitle_group_id by {
                    if j < pre.len() {
                        assert(post[j] == pre[j]);
                        let k = choose|k: int| 0 <= k < old_out.len() && (#[trigger] old_out[k]).id == pre[j].subtitle_group_id;
                        if k < p {
                            assert(out@[k] == old_out[k]);
                        } else {
                            assert(out@[k + 1] == old_out[k]);
                        }
                    } else {
                        assert(out@[p as int].id == gid);
                    }
                }
            }
        }
        i = i + 1;
    }
    proof {
        assert(resources@.take(i as int) =~= resources@);
    }
    EpisodeResourcesData { total_resources: resources.len() as i64, subtitle_groups: out }
}

} // verus!
