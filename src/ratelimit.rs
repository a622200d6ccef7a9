use vstd::prelude::*;

use crate::error::AppError;
use crate::link::opt_view;
use crate::text::chars_of;

verus! {

/// How many times one request is sent before rate limiting is given up on.
pub const MAX_ATTEMPTS: u8 = 5;

/// The wait, in seconds, when a rate-limited response names no time.
pub const FALLBACK_BACKOFF_SECS: u64 = 60;

/// What the request logic reads of a response: its status and the headers
/// for rate limiting and pagination, each as text when present.
#[derive(Debug, Clone, PartialEq, Eq)]
pub struct ResponseHead {
    pub status: u16,
    pub ratelimit_remaining: Option<String>,
    pub retry_after: Option<String>,
    pub ratelimit_reset: Option<String>,
    pub link: Option<String>,
}

/// Whether `c` is an ASCII decimal digit.
pub open spec fn is_digit(c: char) -> bool {
    '0' <= c <= '9'
}

/// The number written by the decimal digits `s`.
pub open spec fn digits_value(s: Seq<char>) -> nat
    decreases s.len(),
{
    if s.len() == 0 {
        0
    } else {
        digits_value(s.drop_last()) * 10 + ((s.last() as int) - ('0' as int)) as nat
    }
}

/// The digits of an unsigned number, once an optional leading `+` is taken off.
pub open spec fn unsigned_digits(s: Seq<char>) -> Seq<char> {
    if s.len() > 0 && s[0] == '+' {
        s.drop_first()
    } else {
        s
    }
}

/// The `u64` that `s` writes in decimal, if it writes one: an optional `+`,
/// then one or more digits and nothing else, of a value that fits.
pub open spec fn parsed_u64(s: Seq<char>) -> Option<u64> {
    let d = unsigned_digits(s);
    if d.len() > 0 && (forall|i: int| 0 <= i < d.len() ==> is_digit(d[i])) && digits_value(d)
        <= u64::MAX {
        Some(digits_value(d) as u64)
    } else {
        None
    }
}

/// Relies on `str::parse::<u64>`: it accepts exactly an optional `+` followed
/// by decimal digits whose value fits in a `u64`.
#[verifier::external_body]
fn parse_u64(s: &str) -> (r: Option<u64>)
    ensures
        r == parsed_u64(s@),
{
    s.parse::<u64>().ok()
}

/// The value of an optional header, read as a `u64`.
pub open spec fn header_u64(h: Option<String>) -> Option<u64> {
    match h {
        Some(s) => parsed_u64(s@),
        None => None,
    }
}

/// The response says that the quota is used up, or when to come back.
pub open spec fn quota_exhausted(h: ResponseHead) -> bool {
    opt_view(h.ratelimit_remaining) == Some(seq!['0']) || h.retry_after is Some
}

/// The response asks the client to slow down.
pub open spec fn rate_limited(h: ResponseHead) -> bool {
    h.status == 429 || (h.status == 403 && quota_exhausted(h))
}

/// The wait that an explicit retry-after header asks for, at least one second.
pub open spec fn retry_after_secs(h: ResponseHead) -> Option<u64> {
    match header_u64(h.retry_after) {
        Some(n) => Some(if n >= 1 { n } else { 1 }),
        None => None,
    }
}

/// The wait until the quota resets, at least one second.
pub open spec fn reset_wait_secs(h: ResponseHead, now: u64) -> Option<u64> {
    match header_u64(h.ratelimit_reset) {
        Some(at) => Some(if at > now { (at - now) as u64 } else { 1 }),
        None => None,
    }
}

/// The wait before a rate-limited request is sent again; none for a response
/// that is not rate-limited.
pub open spec fn backoff_secs(h: ResponseHead, now: u64) -> Option<u64> {
    if !rate_limited(h) {
        None
    } else {
        match retry_after_secs(h) {
            Some(d) => Some(d),
            None => match reset_wait_secs(h, now) {
                Some(d) => Some(d),
                None => Some(FALLBACK_BACKOFF_SECS),
            },
        }
    }
}

/// Whether the headers report the quota used up, or carry a retry-after.
pub fn is_rate_limited(head: &ResponseHead) -> (r: bool)
    ensures
        r == quota_exhausted(*head),
{
    let zero = match &head.ratelimit_remaining {
        Some(v) => {
            let cs = chars_of(v.as_str());
            let z = cs.len() == 1 && cs[0] == '0';
            assert(z == (cs@ =~= seq!['0']));
            z
        },
        None => false,
    };
    zero || head.retry_after.is_some()
}

/// The wait asked for by the retry-after header, if it holds a number.
pub fn retry_after_delay(head: &ResponseHead) -> (r: Option<u64>)
    ensures
        r == retry_after_secs(*head),
{
    match &head.retry_after {
        Some(v) => match parse_u64(v.as_str()) {
            Some(n) => Some(if n >= 1 { n } else { 1 }),
            None => None,
        },
        None => None,
    }
}

/// The wait until the reset time that the headers give, seen from `now`
/// (seconds since the Unix epoch).
pub fn reset_time_delay(head: &ResponseHead, now: u64) -> (r: Option<u64>)
    ensures
        r == reset_wait_secs(*head, now),
{
    match &head.ratelimit_reset {
        Some(v) => match parse_u64(v.as_str()) {
            Some(at) => Some(if at > now { at - now } else { 1 }),
            None => None,
        },
        None => None,
    }
}

/// How long to wait before sending again: the retry-after header first, then
/// the reset time, then the fallback; none when the response is not
/// rate-limited.
pub fn rate_limit_backoff(head: &ResponseHead, now: u64) -> (r: Option<u64>)
    ensures
        r == backoff_secs(*head, now),
{
    if head.status != 429 && !(head.status == 403 && is_rate_limited(head)) {
        return None;
    }
    if let Some(d) = retry_after_delay(head) {
        return Some(d);
    }
    if let Some(d) = reset_time_delay(head, now) {
        return Some(d);
    }
    Some(FALLBACK_BACKOFF_SECS)
}

/// What to do with a response to the given attempt.
#[derive(Debug, Clone, Copy, PartialEq, Eq)]
pub enum RetryDecision {
    /// Hand the response to the caller.
    Deliver,
    /// Wait this many seconds, then send a freshly built request.
    Backoff { attempt: u8, delay_secs: u64 },
    /// Still rate-limited after the last attempt.
    GiveUp,
}

/// The decision on the response to attempt number `attempt`.
pub open spec fn decision_for(attempt: u8, h: ResponseHead, now: u64) -> RetryDecision {
    match backoff_secs(h, now) {
        None => RetryDecision::Deliver,
        Some(d) => if attempt < MAX_ATTEMPTS {
            RetryDecision::Backoff { attempt, delay_secs: d }
        } else {
            RetryDecision::GiveUp
        },
    }
}

/// The retry bookkeeping of one logical request.
pub struct RetryState {
    attempts: u8,
}

impl RetryState {
    /// Attempts made so far.
    pub closed spec fn made(&self) -> nat {
        self.attempts as nat
    }

    /// A request not sent yet.
    pub fn new() -> (r: Self)
        ensures
            r.made() == 0,
    {
        RetryState { attempts: 0 }
    }

    /// Whether another attempt may be sent.
    pub fn can_send(&self) -> (r: bool)
        ensures
            r == (self.made() < MAX_ATTEMPTS),
    {
        self.attempts < MAX_ATTEMPTS
    }

    /// Records the response to the next attempt and decides what follows.
    pub fn after_response(&mut self, head: &ResponseHead, now: u64) -> (d: RetryDecision)
        requires
            old(self).made() < MAX_ATTEMPTS,
        ensures
            final(self).made() == old(self).made() + 1,
            d == decision_for((old(self).made() + 1) as u8, *head, now),
            d is GiveUp ==> final(self).made() == MAX_ATTEMPTS,
    {
        self.attempts = self.attempts + 1;
        match rate_limit_backoff(head, now) {
            None => RetryDecision::Deliver,
            Some(d) => if self.attempts < MAX_ATTEMPTS {
                RetryDecision::Backoff { attempt: self.attempts, delay_secs: d }
            } else {
                RetryDecision::GiveUp
            },
        }
    }
}

/// The error of a request that stayed rate-limited through every attempt.
pub fn exhausted_error() -> (r: AppError)
    ensures
        r matches AppError::Upstream(m) && m@ == "request failed repeatedly due to rate limiting"@,
{
    AppError::Upstream("request failed repeatedly due to rate limiting".to_owned())
}

} // verus!
