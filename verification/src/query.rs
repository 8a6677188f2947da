//! Query-string handling: extracting the query part of a URI and looking up
//! a parameter. Parameters are the non-empty `&`-separated segments of the
//! query string; a segment's key is the text before its first `=`, its value
//! the text between the first and second `=` (empty when there is no `=`).
//! When a key occurs more than once, the first occurrence wins.

use vstd::prelude::*;

use crate::text::{opt_str_view, split_on, split_str, str_eq, str_views};

verus! {

/// The query part of a URI: the text between the first and second `?`
/// (empty when there is no `?`).
pub open spec fn query_of_uri(uri: Seq<char>) -> Seq<char> {
    let parts = split_on(uri, '?');
    if parts.len() >= 2 {
        parts[1]
    } else {
        Seq::empty()
    }
}

/// The (key, value) pair a query segment carries.
pub open spec fn pair_of_segment(seg: Seq<char>) -> (Seq<char>, Seq<char>) {
    let parts = split_on(seg, '=');
    if parts.len() >= 2 {
        (parts[0], parts[1])
    } else {
        (parts[0], Seq::empty())
    }
}

/// First-key-wins lookup over a sequence of query segments; empty segments
/// carry no pair.
pub open spec fn lookup_segments(segs: Seq<Seq<char>>, key: Seq<char>) -> Option<Seq<char>>
    decreases segs.len(),
{
    if segs.len() == 0 {
        None
    } else if segs[0].len() > 0 && pair_of_segment(segs[0]).0 == key {
        Some(pair_of_segment(segs[0]).1)
    } else {
        lookup_segments(segs.drop_first(), key)
    }
}

/// The value of parameter `key` in query string `q`.
pub open spec fn query_value(q: Seq<char>, key: Seq<char>) -> Option<Seq<char>> {
    lookup_segments(split_on(q, '&'), key)
}

/// Extracts the query part of a URI.
pub fn uri_query(uri: &str) -> (r: String)
    ensures
        r@ == query_of_uri(uri@),
{
    let parts = split_str(uri, '?');
    if parts.len() >= 2 {
        parts[1].clone()
    } else {
        String::new()
    }
}

/// The (key, value) pair of one non-empty query segment.
fn segment_pair(seg: &str) -> (r: (String, String))
    ensures
        (r.0@, r.1@) == pair_of_segment(seg@),
{
    let parts = split_str(seg, '=');
    if parts.len() >= 2 {
        let key = parts[0].clone();
        let value = parts[1].clone();
        (key, value)
    } else {
        proof {
            assert(split_on(seg@, '=').len() >= 1);
            assert(parts@.len() == str_views(parts@).len());
        }
        let key = parts[0].clone();
        (key, String::new())
    }
}

fn lookup_from(segs: &Vec<String>, i: usize, key: &str) -> (r: Option<String>)
    requires
        i <= segs@.len(),
    ensures
        opt_str_view(r) == lookup_segments(str_views(segs@).skip(i as int), key@),
    decreases segs@.len() - i,
{
    if i == segs.len() {
        proof {
            assert(str_views(segs@).skip(i as int) =~= Seq::<Seq<char>>::empty());
        }
        None
    } else {
        let seg = &segs[i];
        let rest_ghost: Ghost<Seq<Seq<char>>> = Ghost(str_views(segs@).skip(i as int));
        proof {
            assert(rest_ghost@[0] == seg@);
            assert(rest_ghost@.drop_first() =~= str_views(segs@).skip(i as int + 1));
        }
        if seg.as_str().unicode_len() > 0 {
            let (k, v) = segment_pair(seg.as_str());
            if str_eq(k.as_str(), key) {
                return Some(v);
            }
        }
        lookup_from(segs, i + 1, key)
    }
}

/// Looks up `key` in query string `q`, first occurrence winning.
pub fn query_lookup(q: &str, key: &str) -> (r: Option<String>)
    ensures
        opt_str_view(r) == query_value(q@, key@),
{
    let segs = split_str(q, '&');
    let r = lookup_from(&segs, 0, key);
    proof {
        assert(str_views(segs@).skip(0) =~= str_views(segs@));
    }
    r
}

} // verus!
