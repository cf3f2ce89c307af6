//! The info-hash carried by a magnet URI (`xt=urn:btih:` followed by forty
//! hexadecimal digits), normalised to lower case.
use vstd::prelude::*;
use crate::chars::{chars_of, string_of, occurs_at, occurs_at_exec};

verus! {

/// Number of hexadecimal digits in a BitTorrent v1 info-hash.
pub const HASH_LEN: usize = 40;

/// The exact-topic prefix that announces a v1 info-hash.
pub open spec fn btih_marker() -> Seq<char> {
    seq!['x', 't', '=', 'u', 'r', 'n', ':', 'b', 't', 'i', 'h', ':']
}

pub open spec fn is_hex_char(c: char) -> bool {
    ('0' <= c && c <= '9') || ('a' <= c && c <= 'f') || ('A' <= c && c <= 'F')
}

pub open spec fn is_lower_hex_char(c: char) -> bool {
    ('0' <= c && c <= '9') || ('a' <= c && c <= 'f')
}

pub open spec fn lower_hex_char(c: char) -> char {
    if 'A' <= c && c <= 'F' {
        ((c as u32) + 32) as char
    } else {
        c
    }
}

/// A string of exactly forty lower-case hexadecimal digits.
pub open spec fn is_lower_hex_hash(h: Seq<char>) -> bool {
    h.len() == 40 && forall|k: int| 0 <= k < 40 ==> is_lower_hex_char(#[trigger] h[k])
}

/// The marker starts at `i` and is followed by forty hexadecimal digits.
pub open spec fn hash_at(s: Seq<char>, i: int) -> bool {
    &&& occurs_at(s, btih_marker(), i)
    &&& i + 52 <= s.len()
    &&& forall|k: int| i + 12 <= k < i + 52 ==> is_hex_char(#[trigger] s[k])
}

/// The leftmost position at which an info-hash is announced.
pub open spec fn first_hash_at(s: Seq<char>, i: int) -> bool {
    hash_at(s, i) && forall|j: int| 0 <= j < i ==> !hash_at(s, j)
}

pub open spec fn lowered(h: Seq<char>) -> Seq<char> {
    h.map_values(|c: char| lower_hex_char(c))
}

/// The normalised info-hash of a magnet URI, if it announces one.
pub open spec fn magnet_hash_of(s: Seq<char>) -> Option<Seq<char>> {
    if exists|i: int| first_hash_at(s, i) {
        let i = choose|i: int| first_hash_at(s, i);
        Some(lowered(s.subrange(i + 12, i + 52)))
    } else {
        None
    }
}

fn is_hex_exec(c: char) -> (r: bool)
    ensures
        r == is_hex_char(c),
{
    ('0' <= c && c <= '9') || ('a' <= c && c <= 'f') || ('A' <= c && c <= 'F')
}

fn lower_hex_exec(c: char) -> (r: char)
    requires
        is_hex_char(c),
    ensures
        r == lower_hex_char(c),
        is_lower_hex_char(r),
{
    match c {
        'A' => 'a',
        'B' => 'b',
        'C' => 'c',
        'D' => 'd',
        'E' => 'e',
        'F' => 'f',
        _ => c,
    }
}

fn marker_exec() -> (r: Vec<char>)
    ensures
        r@ == btih_marker(),
{
    let r = vec!['x', 't', '=', 'u', 'r', 'n', ':', 'b', 't', 'i', 'h', ':'];
    assert(r@ =~= btih_marker());
    r
}

fn hash_at_exec(s: &Vec<char>, marker: &Vec<char>, i: usize) -> (r: bool)
    requires
        marker@ == btih_marker(),
    ensures
        r == hash_at(s@, i as int),
{
    if !occurs_at_exec(s, marker, i) {
        return false;
    }
    let n = s.len();
    if n < 52 || i > n - 52 {
        return false;
    }
    let end = i + 52;
    let mut k: usize = i + 12;
    while k < end
        invariant
            end == i + 52,
            i + 52 <= s@.len(),
            i + 12 <= k <= i + 52,
            forall|j: int| i + 12 <= j < k ==> is_hex_char(#[trigger] s@[j]),
        decreases end - k,
    {
        if !is_hex_exec(s[k]) {
            return false;
        }
        k = k + 1;
    }
    true
}

/// Extracts the info-hash of a magnet URI, lower-cased; `None` when the URI
/// carries no `xt=urn:btih:` followed by forty hexadecimal digits.
pub fn extract_magnet_hash(magnet_url: &str) -> (r: Option<String>)
    ensures
        r.is_some() == magnet_hash_of(magnet_url@).is_some(),
        r.is_some() ==> r.unwrap()@ == magnet_hash_of(magnet_url@).unwrap(),
        r.is_some() ==> is_lower_hex_hash(r.unwrap()@),
{
    let s = chars_of(magnet_url);
    let marker = marker_exec();
    let mut i: usize = 0;
    while i < s.len()
        invariant
            s@ == magnet_url@,
            marker@ == btih_marker(),
            forall|j: int| 0 <= j < i ==> !hash_at(s@, j),
        decreases s@.len() - i,
    {
        if hash_at_exec(&s, &marker, i) {
            let mut h: Vec<char> = Vec::new();
            let end = i + 52;
            let mut k: usize = i + 12;
            while k < end
                invariant
                    end == i + 52,
                    i + 52 <= s@.len(),
                    i + 12 <= k <= i + 52,
                    hash_at(s@, i as int),
                    h@ == lowered(s@.subrange(i + 12, k as int)),
                decreases end - k,
            {
                let c = lower_hex_exec(s[k]);
                h.push(c);
                k = k + 1;
                proof {
                    assert(h@ =~= lowered(s@.subrange(i + 12, k as int)));
                }
            }
            proof {
                assert(first_hash_at(s@, i as int));
                let w = choose|w: int| first_hash_at(s@, w);
                if w < i {
                } else if w > i {
                    assert(!hash_at(s@, i as int));
                }
                assert(w == i);
                assert forall|k: int| 0 <= k < 40 implies is_lower_hex_char(#[trigger] h@[k]) by {
                    assert(is_hex_char(s@[i + 12 + k]));
                }
            }
            return Some(string_of(&h));
        }
        i = i + 1;
    }
    proof {
        assert forall|j: int| !first_hash_at(s@, j) by {
            if 0 <= j && j < s@.len() {
            } else {
                if hash_at(s@, j) {
                    assert(j + 52 <= s@.len());
                }
            }
        }
    }
    None
}

/// Lemma: any hash this module yields is forty lower-case hexadecimal digits.
pub proof fn lemma_magnet_hash_is_lower_hex(s: Seq<char>)
    ensures
        magnet_hash_of(s) matches Some(h) ==> is_lower_hex_hash(h),
{
    if exists|i: int| first_hash_at(s, i) {
        let i = choose|i: int| first_hash_at(s, i);
        let h = lowered(s.subrange(i + 12, i + 52));
        assert forall|k: int| 0 <= k < 40 implies is_lower_hex_char(#[trigger] h[k]) by {
            assert(is_hex_char(s[i + 12 + k]));
        }
    }
}

} // verus!
