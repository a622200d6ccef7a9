use vstd::prelude::*;

use crate::removal::{is_white_space, is_whitespace_char};
use crate::text::{chars_of, string_from_chars};

verus! {

/// `t` is `s` with white space trimmed off both ends.
pub open spec fn is_trim_of(t: Seq<char>, s: Seq<char>) -> bool {
    exists|lo: int, hi: int|
        #![trigger s.subrange(lo, hi)]
        0 <= lo <= hi <= s.len() && t == s.subrange(lo, hi) && (forall|k: int|
            0 <= k < lo ==> is_white_space(#[trigger] s[k])) && (forall|k: int|
            hi <= k < s.len() ==> is_white_space(#[trigger] s[k])) && (lo < hi ==> !is_white_space(
            s[lo],
        ) && !is_white_space(s[hi - 1]))
}

/// `s` with white space trimmed off both ends.
pub fn trim_text(s: &str) -> (r: String)
    ensures
        is_trim_of(r@, s@),
{
    let v = chars_of(s);
    let n = v.len();
    let mut lo: usize = 0;
    while lo < n && is_whitespace_char(v[lo])
        invariant
            lo <= n,
            n == v@.len(),
            forall|k: int| 0 <= k < lo ==> is_white_space(#[trigger] v@[k]),
        decreases n - lo,
    {
        lo = lo + 1;
    }
    let mut hi: usize = n;
    while hi > lo && is_whitespace_char(v[hi - 1])
        invariant
            lo <= hi <= n,
            n == v@.len(),
            forall|k: int| hi <= k < n ==> is_white_space(#[trigger] v@[k]),
        decreases hi - lo,
    {
        hi = hi - 1;
    }
    let mut out: Vec<char> = Vec::new();
    let mut i: usize = lo;
    while i < hi
        invariant
            lo <= i <= hi <= n,
            n == v@.len(),
            out@ == v@.subrange(lo as int, i as int),
        decreases hi - i,
    {
        out.push(v[i]);
        proof {
            assert(v@.subrange(lo as int, i + 1) =~= v@.subrange(lo as int, i as int).push(v@[i as int]));
        }
        i = i + 1;
    }
    proof {
        assert(is_trim_of(out@, s@)) by {
            assert(s@.subrange(lo as int, hi as int) == out@);
        }
    }
    string_from_chars(out)
}

/// Whether a request with this method changes state, and so must carry the
/// session's anti-forgery token.
pub open spec fn changes_state(method: Seq<char>) -> bool {
    method == "POST"@ || method == "PUT"@ || method == "PATCH"@ || method == "DELETE"@
}

/// Whether a request with this method must carry the anti-forgery token.
pub fn requires_csrf(method: &str) -> (r: bool)
    ensures
        r == changes_state(method@),
{
    let m = method.to_owned();
    m == "POST".to_owned() || m == "PUT".to_owned() || m == "PATCH".to_owned() || m
        == "DELETE".to_owned()
}

/// What becomes of a request at the anti-forgery check.
#[derive(Debug, Clone, Copy, PartialEq, Eq)]
pub enum CsrfVerdict {
    /// It goes on.
    Pass,
    /// There is no session: 401.
    Unauthenticated,
    /// The token is missing or wrong: 403.
    Rejected,
}

/// The verdict of the anti-forgery check: requests that change nothing pass;
/// the others need a session, and a header token that, trimmed, is the
/// session's token.
pub open spec fn csrf_verdict_of(
    method: Seq<char>,
    header_token: Option<Seq<char>>,
    session_token: Option<Seq<char>>,
) -> CsrfVerdict {
    if !changes_state(method) {
        CsrfVerdict::Pass
    } else {
        match session_token {
            None => CsrfVerdict::Unauthenticated,
            Some(expected) => match header_token {
                Some(h) => if is_trim_of(expected, h) {
                    CsrfVerdict::Pass
                } else {
                    CsrfVerdict::Rejected
                },
                None => CsrfVerdict::Rejected,
            },
        }
    }
}

proof fn lemma_trim_unique(a: Seq<char>, b: Seq<char>, s: Seq<char>)
    requires
        is_trim_of(a, s),
        is_trim_of(b, s),
    ensures
        a == b,
{
    let (lo1, hi1) = choose|lo: int, hi: int|
        #![trigger s.subrange(lo, hi)]
        0 <= lo <= hi <= s.len() && a == s.subrange(lo, hi) && (forall|k: int|
            0 <= k < lo ==> is_white_space(#[trigger] s[k])) && (forall|k: int|
            hi <= k < s.len() ==> is_white_space(#[trigger] s[k])) && (lo < hi ==> !is_white_space(
            s[lo],
        ) && !is_white_space(s[hi - 1]));
    let (lo2, hi2) = choose|lo: int, hi: int|
        #![trigger s.subrange(lo, hi)]
        0 <= lo <= hi <= s.len() && b == s.subrange(lo, hi) && (forall|k: int|
            0 <= k < lo ==> is_white_space(#[trigger] s[k])) && (forall|k: int|
            hi <= k < s.len() ==> is_white_space(#[trigger] s[k])) && (lo < hi ==> !is_white_space(
            s[lo],
        ) && !is_white_space(s[hi - 1]));
    if lo1 < hi1 && lo2 < hi2 {
        assert(lo1 == lo2);
        assert(hi1 == hi2);
    } else if lo1 < hi1 {
        assert(is_white_space(s[lo1]));
    } else if lo2 < hi2 {
        assert(is_white_space(s[lo2]));
    }
    assert(a =~= b);
}

/// The verdict of the anti-forgery check on a request.
pub fn csrf_verdict(method: &str, header_token: Option<&str>, session_token: Option<&String>) -> (r: CsrfVerdict)
    ensures
        r == csrf_verdict_of(
            method@,
            match header_token {
                Some(h) => Some(h@),
                None => None,
            },
            match session_token {
                Some(t) => Some(t@),
                None => None,
            },
        ),
{
    if !requires_csrf(method) {
        return CsrfVerdict::Pass;
    }
    let expected = match session_token {
        Some(t) => t,
        None => {
            return CsrfVerdict::Unauthenticated;
        },
    };
    match header_token {
        Some(h) => {
            let trimmed = trim_text(h);
            if trimmed == *expected {
                CsrfVerdict::Pass
            } else {
                proof {
                    if is_trim_of(expected@, h@) {
                        lemma_trim_unique(expected@, trimmed@, h@);
                    }
                }
                CsrfVerdict::Rejected
            }
        },
        None => CsrfVerdict::Rejected,
    }
}

/// Whether a request path is one of the removal endpoints, which answer a
/// missing session with 401 rather than a redirect to the login.
pub open spec fn is_removal_path(path: Seq<char>) -> bool {
    "/remove"@.len() <= path.len() && path.subrange(0, "/remove"@.len() as int) == "/remove"@
}

/// Whether a request path is one of the removal endpoints.
pub fn removal_path(path: &str) -> (r: bool)
    ensures
        r == is_removal_path(path@),
{
    let v = chars_of(path);
    let prefix = chars_of("/remove");
    if prefix.len() > v.len() {
        return false;
    }
    let mut i: usize = 0;
    while i < prefix.len()
        invariant
            prefix@ == "/remove"@,
            v@ == path@,
            prefix@.len() <= v@.len(),
            i <= prefix@.len(),
            forall|k: int| 0 <= k < i ==> v@[k] == prefix@[k],
        decreases prefix@.len() - i,
    {
        if v[i] != prefix[i] {
            assert(v@.subrange(0, prefix@.len() as int)[i as int] != prefix@[i as int]);
            return false;
        }
        i = i + 1;
    }
    assert(v@.subrange(0, prefix@.len() as int) =~= prefix@);
    true
}

} // verus!
