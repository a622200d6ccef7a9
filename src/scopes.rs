use vstd::prelude::*;

use crate::removal::{is_white_space, is_whitespace_char};
use crate::text::chars_of;

verus! {

/// The characters that separate granted scopes.
pub open spec fn is_separator(c: char) -> bool {
    c == ',' || c == ' '
}

/// `s[a..b]` is one piece of `s` split at separators.
pub open spec fn is_piece(s: Seq<char>, a: int, b: int) -> bool {
    &&& 0 <= a <= b <= s.len()
    &&& (a == 0 || is_separator(s[a - 1]))
    &&& (b == s.len() || is_separator(s[b]))
    &&& forall|k: int| a <= k < b ==> !is_separator(#[trigger] s[k])
}

/// `piece`, white space trimmed off both ends, is `t`.
pub open spec fn trims_to(piece: Seq<char>, t: Seq<char>) -> bool {
    exists|i: int|
        0 <= i && i + t.len() <= piece.len() && #[trigger] piece.subrange(i, i + t.len()) == t
            && (forall|k: int| 0 <= k < i ==> is_white_space(#[trigger] piece[k])) && (forall|k: int|
            i + t.len() <= k < piece.len() ==> is_white_space(#[trigger] piece[k]))
}

/// The scope list `s` grants `t`: some piece of it, trimmed, is `t`.
pub open spec fn grants(s: Seq<char>, t: Seq<char>) -> bool {
    exists|a: int, b: int| is_piece(s, a, b) && #[trigger] trims_to(s.subrange(a, b), t)
}

/// A scope name: not empty, and neither starting nor ending with white space.
pub open spec fn is_scope_name(t: Seq<char>) -> bool {
    t.len() > 0 && !is_white_space(t[0]) && !is_white_space(t.last())
}

/// Whether `v[lo..hi]` equals `t`.
fn window_equals(v: &Vec<char>, lo: usize, hi: usize, t: &Vec<char>) -> (r: bool)
    requires
        lo <= hi <= v@.len(),
    ensures
        r == (v@.subrange(lo as int, hi as int) == t@),
{
    if hi - lo != t.len() {
        return false;
    }
    let mut k: usize = 0;
    while k < t.len()
        invariant
            hi - lo == t@.len(),
            lo <= hi <= v@.len(),
            k <= t@.len(),
            forall|j: int| 0 <= j < k ==> v@[lo + j] == t@[j],
        decreases t@.len() - k,
    {
        if v[lo + k] != t[k] {
            assert(v@.subrange(lo as int, hi as int)[k as int] != t@[k as int]);
            return false;
        }
        k = k + 1;
    }
    assert(v@.subrange(lo as int, hi as int) =~= t@);
    true
}

/// Whether the piece `v[a..b]`, trimmed, is `t`.
fn piece_trims_to(v: &Vec<char>, a: usize, b: usize, t: &Vec<char>) -> (r: bool)
    requires
        a <= b <= v@.len(),
        is_scope_name(t@),
    ensures
        r == trims_to(v@.subrange(a as int, b as int), t@),
{
    let ghost piece = v@.subrange(a as int, b as int);
    let mut lo: usize = a;
    while lo < b && is_whitespace_char(v[lo])
        invariant
            a <= lo <= b <= v@.len(),
            forall|k: int| a <= k < lo ==> is_white_space(#[trigger] v@[k]),
        decreases b - lo,
    {
        lo = lo + 1;
    }
    let mut hi: usize = b;
    while hi > lo && is_whitespace_char(v[hi - 1])
        invariant
            a <= lo <= hi <= b <= v@.len(),
            forall|k: int| hi <= k < b ==> is_white_space(#[trigger] v@[k]),
        decreases hi - lo,
    {
        hi = hi - 1;
    }
    let r = window_equals(v, lo, hi, t);
    proof {
        let n = t@.len() as int;
        if r {
            let i = (lo - a) as int;
            assert(piece.subrange(i, i + n) =~= v@.subrange(lo as int, hi as int));
            assert forall|k: int| 0 <= k < i implies is_white_space(#[trigger] piece[k]) by {
                assert(piece[k] == v@[a + k]);
            }
            assert forall|k: int| i + n <= k < piece.len() implies is_white_space(#[trigger] piece[k]) by {
                assert(piece[k] == v@[a + k]);
            }
            assert(trims_to(piece, t@));
        } else if trims_to(piece, t@) {
            let i = choose|i: int|
                0 <= i && i + n <= piece.len() && #[trigger] piece.subrange(i, i + n) == t@
                    && (forall|k: int| 0 <= k < i ==> is_white_space(#[trigger] piece[k]))
                    && (forall|k: int| i + n <= k < piece.len() ==> is_white_space(#[trigger] piece[k]));
            assert(piece[i] == t@[0]);
            assert(piece[i + n - 1] == t@[n - 1]);
            assert(piece[i] == v@[a + i]);
            assert(piece[i + n - 1] == v@[a + i + n - 1]);
            if lo < a + i {
                assert(piece[lo - a] == v@[lo as int]);
                assert(!is_white_space(v@[lo as int]));
            }
            if hi > a + i + n {
                assert(piece[hi - 1 - a] == v@[hi - 1]);
                assert(!is_white_space(v@[hi - 1]));
            }
            assert(lo == a + i);
            assert(hi == a + i + n);
            assert(v@.subrange(lo as int, hi as int) =~= t@) by {
                assert forall|j: int| 0 <= j < n implies v@.subrange(lo as int, hi as int)[j] == t@[j] by {
                    assert(piece.subrange(i, i + n)[j] == piece[i + j]);
                    assert(piece[i + j] == v@[a + i + j]);
                }
            }
        }
    }
    r
}

/// Whether the scope list `s` grants `t`.
fn grants_scope(v: &Vec<char>, t: &Vec<char>) -> (r: bool)
    requires
        is_scope_name(t@),
    ensures
        r == grants(v@, t@),
{
    let n = v.len();
    let mut pos: usize = 0;
    loop
        invariant
            n == v@.len(),
            is_scope_name(t@),
            pos <= n,
            pos == 0 || is_separator(v@[pos - 1]),
            forall|a: int, b: int| is_piece(v@, a, b) && a < pos ==> !#[trigger] trims_to(v@.subrange(a, b), t@),
        decreases n - pos,
    {
        let mut end: usize = pos;
        while end < n && !(v[end] == ',' || v[end] == ' ')
            invariant
                pos <= end <= n,
                n == v@.len(),
                forall|k: int| pos <= k < end ==> !is_separator(#[trigger] v@[k]),
            decreases n - end,
        {
            end = end + 1;
        }
        assert(is_piece(v@, pos as int, end as int));
        if piece_trims_to(v, pos, end, t) {
            return true;
        }
        proof {
            assert forall|a: int, b: int| is_piece(v@, a, b) && a < end + 1 implies !#[trigger] trims_to(v@.subrange(a, b), t@) by {
                if a >= pos {
                    if a > pos {
                        assert(is_separator(v@[a - 1]));
                        assert(!is_separator(v@[a - 1]));
                    }
                    if b > end {
                        assert(!is_separator(v@[end as int]));
                    }
                    if b < end {
                        assert(!is_separator(v@[b]));
                    }
                    assert(a == pos && b == end);
                }
            }
        }
        if end == n {
            proof {
                assert forall|a: int, b: int| is_piece(v@, a, b) implies !#[trigger] trims_to(v@.subrange(a, b), t@) by {
                    if a == n {
                        if pos < n {
                            assert(!is_separator(v@[n - 1]));
                        }
                    }
                }
            }
            return false;
        }
        pos = end + 1;
    }
}

/// Whether a granted scope list holds both `repo` and `read:org`, the list
/// split at commas and spaces and each piece trimmed of white space.
pub fn has_required_scopes(scopes: &str) -> (r: bool)
    ensures
        r == (grants(scopes@, "repo"@) && grants(scopes@, "read:org"@)),
{
    let v = chars_of(scopes);
    let repo = chars_of("repo");
    let read_org = chars_of("read:org");
    proof {
        reveal_strlit("repo");
        reveal_strlit("read:org");
    }
    grants_scope(&v, &repo) && grants_scope(&v, &read_org)
}

} // verus!
