use vstd::prelude::*;

use crate::text::{
    chars_of, contains, contains_at_window, find_char, index_of, string_from_chars,
};

verus! {

/// The relation marker that identifies the cursor to the following page.
pub open spec fn rel_next() -> Seq<char> {
    "rel=\"next\""@
}

/// The text between the first `<` and the first `>` of a link token.
pub open spec fn bracketed(seg: Seq<char>) -> Option<Seq<char>> {
    match (index_of(seg, '<'), index_of(seg, '>')) {
        (Some(a), Some(b)) => if a < b {
            Some(seg.subrange(a + 1, b))
        } else {
            None
        },
        _ => None,
    }
}

/// The next-page URL of a `link` header: the first comma-separated token
/// that carries `rel="next"` decides, by the URL between its angle brackets.
pub open spec fn next_link_in(h: Seq<char>) -> Option<Seq<char>>
    decreases h.len(),
{
    match index_of(h, ',') {
        Some(k) => {
            if 0 <= k < h.len() {
                if contains(h.subrange(0, k), rel_next()) {
                    bracketed(h.subrange(0, k))
                } else {
                    next_link_in(h.subrange(k + 1, h.len() as int))
                }
            } else {
                None
            }
        },
        None => if contains(h, rel_next()) {
            bracketed(h)
        } else {
            None
        },
    }
}

/// The next-page URL of an optional `link` header.
pub open spec fn next_link(h: Option<Seq<char>>) -> Option<Seq<char>> {
    match h {
        Some(s) => next_link_in(s),
        None => None,
    }
}

/// The view of an optional string.
pub open spec fn opt_view(o: Option<String>) -> Option<Seq<char>> {
    match o {
        Some(s) => Some(s@),
        None => None,
    }
}

/// The view of an optional string slice.
pub open spec fn opt_str_view(o: Option<&str>) -> Option<Seq<char>> {
    match o {
        Some(s) => Some(s@),
        None => None,
    }
}

/// Extracts the URL of `v[lo..hi]` between its first `<` and first `>`.
fn extract_bracketed(v: &Vec<char>, lo: usize, hi: usize) -> (r: Option<String>)
    requires
        lo <= hi <= v@.len(),
    ensures
        opt_view(r) == bracketed(v@.subrange(lo as int, hi as int)),
{
    let ghost seg = v@.subrange(lo as int, hi as int);
    let start = find_char(v, lo, hi, '<');
    let end = find_char(v, lo, hi, '>');
    match (start, end) {
        (Some(a), Some(b)) => {
            if a < b {
                let mut out: Vec<char> = Vec::new();
                let mut i: usize = a + 1;
                while i < b
                    invariant
                        a + 1 <= i <= b,
                        b < hi <= v@.len(),
                        out@ == v@.subrange(a + 1, i as int),
                    decreases b - i,
                {
                    out.push(v[i]);
                    proof {
                        assert(v@.subrange(a + 1, i + 1) =~= v@.subrange(a + 1, i as int).push(v@[i as int]));
                    }
                    i = i + 1;
                }
                proof {
                    let sa = (a - lo) as int;
                    let sb = (b - lo) as int;
                    assert(seg.subrange(sa + 1, sb) =~= v@.subrange(a + 1, b as int));
                }
                Some(string_from_chars(out))
            } else {
                None
            }
        },
        _ => None,
    }
}

/// Finds the URL of the `next` relation in a `link` header, if there is one.
pub fn parse_next_link(link_header: Option<&str>) -> (r: Option<String>)
    ensures
        opt_view(r) == next_link(opt_str_view(link_header)),
{
    let header = match link_header {
        Some(h) => h,
        None => {
            return None;
        },
    };
    let v = chars_of(header);
    let marker = chars_of("rel=\"next\"");
    let n = v.len();
    let mut pos: usize = 0;
    assert(v@.subrange(0, n as int) =~= v@);
    assert(next_link(opt_str_view(link_header)) == next_link_in(v@));
    while pos <= n
        invariant
            n == v@.len(),
            v@ == header@,
            marker@ == rel_next(),
            pos <= n,
            next_link_in(v@) == next_link_in(v@.subrange(pos as int, n as int)),
            next_link(opt_str_view(link_header)) == next_link_in(v@),
        decreases n - pos,
    {
        let ghost rest = v@.subrange(pos as int, n as int);
        let comma = find_char(&v, pos, n, ',');
        match comma {
            Some(k) => {
                let ghost kk = (k - pos) as int;
                assert(index_of(rest, ',') == Some(kk));
                assert(rest.subrange(0, kk) =~= v@.subrange(pos as int, k as int));
                if contains_at_window(&v, pos, k, &marker) {
                    assert(next_link_in(rest) == bracketed(rest.subrange(0, kk)));
                    return extract_bracketed(&v, pos, k);
                }
                assert(next_link_in(rest) == next_link_in(rest.subrange(kk + 1, rest.len() as int)));
                assert(rest.subrange(kk + 1, rest.len() as int) =~= v@.subrange(k + 1, n as int));
                pos = k + 1;
            },
            None => {
                assert(index_of(rest, ',') == None::<int>);
                if contains_at_window(&v, pos, n, &marker) {
                    assert(next_link_in(rest) == bracketed(rest));
                    return extract_bracketed(&v, pos, n);
                }
                assert(next_link_in(rest) == None::<Seq<char>>);
                return None;
            },
        }
    }
    None
}

} // verus!
