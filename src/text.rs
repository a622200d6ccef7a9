use vstd::prelude::*;
use vstd::std_specs::iter::IteratorSpec;

verus! {

broadcast use {vstd::string::axiom_spec_iter, vstd::string::next_postcondition};

/// The characters of `s`, in order.
pub fn chars_of(s: &str) -> (r: Vec<char>)
    ensures
        r@ == s@,
{
    let mut out: Vec<char> = Vec::new();
    for c in it: s.chars()
        invariant
            it.seq() == s@,
            out@ == it.seq().take(it.index() as int),
    {
        out.push(c);
    }
    assert(out@ =~= s@);
    out
}

/// Relies on `String::from_iter` over chars: the string holds them in the given order.
#[verifier::external_body]
pub(crate) fn string_from_chars(v: Vec<char>) -> (r: String)
    ensures
        r@ == v@,
{
    String::from_iter(v)
}

/// `i` is the position of the first `c` in `s`.
pub open spec fn is_first(s: Seq<char>, c: char, i: int) -> bool {
    &&& 0 <= i < s.len()
    &&& s[i] == c
    &&& forall|j: int| 0 <= j < i ==> s[j] != c
}

/// Position of the first `c` in `s`, if any.
pub open spec fn index_of(s: Seq<char>, c: char) -> Option<int> {
    if exists|i: int| is_first(s, c, i) {
        Some(choose|i: int| is_first(s, c, i))
    } else {
        None
    }
}

/// `pat` occurs in `s` starting at `i`.
pub open spec fn occurs_at(s: Seq<char>, pat: Seq<char>, i: int) -> bool {
    0 <= i && i + pat.len() <= s.len() && s.subrange(i, i + pat.len()) == pat
}

/// `pat` occurs somewhere in `s`.
pub open spec fn contains(s: Seq<char>, pat: Seq<char>) -> bool {
    exists|i: int| occurs_at(s, pat, i)
}

/// Shifts a position found in a window back to the whole sequence.
pub open spec fn shifted(o: Option<int>, lo: int) -> Option<int> {
    match o {
        Some(i) => Some(i + lo),
        None => None,
    }
}

/// First `c` within `v[lo..hi]`, as a position in `v`.
pub fn find_char(v: &Vec<char>, lo: usize, hi: usize, c: char) -> (r: Option<usize>)
    requires
        lo <= hi <= v@.len(),
    ensures
        shifted(index_of(v@.subrange(lo as int, hi as int), c), lo as int) == match r {
            Some(i) => Some(i as int),
            None => None::<int>,
        },
        match r {
            Some(i) => lo <= i < hi && is_first(v@.subrange(lo as int, hi as int), c, i - lo),
            None => true,
        },
{
    let ghost w = v@.subrange(lo as int, hi as int);
    let mut i: usize = lo;
    while i < hi
        invariant
            lo <= i <= hi <= v@.len(),
            w == v@.subrange(lo as int, hi as int),
            forall|j: int| lo <= j < i ==> v@[j] != c,
        decreases hi - i,
    {
        if v[i] == c {
            proof {
                let k = (i - lo) as int;
                assert(is_first(w, c, k));
                assert forall|m: int| is_first(w, c, m) implies m == k by {
                    if m < k {
                        assert(w[m] == v@[m + lo]);
                    } else if m > k {
                        assert(w[k] == c);
                    }
                }
            }
            return Some(i);
        }
        i = i + 1;
    }
    proof {
        assert forall|m: int| !is_first(w, c, m) by {
            if 0 <= m < w.len() {
                assert(w[m] == v@[m + lo]);
            }
        }
    }
    None
}

/// Whether `pat` occurs within `v[lo..hi]`.
pub fn contains_at_window(v: &Vec<char>, lo: usize, hi: usize, pat: &Vec<char>) -> (r: bool)
    requires
        lo <= hi <= v@.len(),
    ensures
        r == contains(v@.subrange(lo as int, hi as int), pat@),
{
    let ghost w = v@.subrange(lo as int, hi as int);
    let n = hi - lo;
    let m = pat.len();
    if m > n {
        proof {
            assert forall|i: int| !occurs_at(w, pat@, i) by {}
        }
        return false;
    }
    let mut i: usize = 0;
    while i <= n - m
        invariant
            m <= n,
            n == hi - lo,
            m == pat@.len(),
            lo <= hi <= v@.len(),
            w == v@.subrange(lo as int, hi as int),
            forall|k: int| 0 <= k < i ==> !occurs_at(w, pat@, k),
        decreases n - m + 1 - i,
    {
        let mut j: usize = 0;
        let mut same = true;
        while j < m
            invariant
                m <= n,
                m == pat@.len(),
                i + m <= n,
                n == hi - lo,
                lo <= hi <= v@.len(),
                w == v@.subrange(lo as int, hi as int),
                j <= m,
                same == forall|k: int| 0 <= k < j ==> w[i + k] == pat@[k],
            decreases m - j,
        {
            if v[lo + i + j] != pat[j] {
                same = false;
            }
            j = j + 1;
        }
        if same {
            proof {
                assert(w.subrange(i as int, i + m) =~= pat@);
                assert(occurs_at(w, pat@, i as int));
            }
            return true;
        }
        proof {
            assert(!occurs_at(w, pat@, i as int)) by {
                if occurs_at(w, pat@, i as int) {
                    let k = choose|k: int| 0 <= k < m && w[i + k] != pat@[k];
                    assert(w.subrange(i as int, i + m)[k] == w[i + k]);
                }
            }
        }
        i = i + 1;
    }
    false
}

} // verus!
