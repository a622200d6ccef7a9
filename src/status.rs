use vstd::prelude::*;

use crate::error::AppError;

verus! {

/// Whether an HTTP status is in the success class.
pub open spec fn is_success(status: u16) -> bool {
    200 <= status <= 299
}

/// Whether an HTTP status is in the success class.
pub fn status_is_success(status: u16) -> (r: bool)
    ensures
        r == is_success(status),
{
    200 <= status && status <= 299
}

/// The decimal digit of `d`.
pub open spec fn digit_char(d: nat) -> char {
    seq!['0', '1', '2', '3', '4', '5', '6', '7', '8', '9'][d as int]
}

/// The decimal writing of `n`, without sign or leading zeros.
pub open spec fn decimal(n: nat) -> Seq<char>
    decreases n,
{
    if n < 10 {
        seq![digit_char(n)]
    } else {
        decimal(n / 10).push(digit_char(n % 10))
    }
}

/// Relies on `ToString` of `u16`: the number written in decimal.
#[verifier::external_body]
pub(crate) fn decimal_text(n: u16) -> (r: String)
    ensures
        r@ == decimal(n as nat),
{
    n.to_string()
}

/// The message of a request that failed with `status`: what was being done,
/// then the status.
pub open spec fn failure_message(what: Seq<char>, status: u16) -> Seq<char> {
    what + ": "@ + decimal(status as nat)
}

/// An upstream error for a request that failed with `status`.
pub fn upstream_failure(what: String, status: u16) -> (r: AppError)
    ensures
        r matches AppError::Upstream(m) && m@ == failure_message(what@, status),
{
    let text = what.concat(": ").concat(decimal_text(status).as_str());
    AppError::Upstream(text)
}

} // verus!
