use std::str::FromStr;
use vstd::prelude::*;

verus! {

/// Latest instant the recurrence evaluator is asked about:
/// 9999-12-31T23:59:59Z in seconds since the Unix epoch. Far below this,
/// the evaluator itself stops at the end of the year 2100.
pub const MAX_INSTANT: i64 = 253402300799;

/// An instant, in seconds since the Unix epoch, that the recurrence
/// evaluator accepts without overflowing its datetime arithmetic.
pub open spec fn valid_instant(i: int) -> bool {
    0 <= i <= MAX_INSTANT
}

/// Whether the recurrence evaluator accepts the expression.
pub uninterp spec fn rule_valid(expr: Seq<char>) -> bool;

/// The occurrence of the recurrence rule `expr` that follows the instant
/// `after` (seconds since the Unix epoch), computed in the fixed offset of
/// `offset_secs` seconds east of UTC; `None` when the expression does not
/// parse or the rule has no further occurrence.
pub uninterp spec fn rule_next_occurrence(expr: Seq<char>, after: int, offset_secs: int) -> Option<
    i64,
>;

/// Relies on cron::Schedule::from_str: whether an expression parses is a
/// function of its text alone.
#[verifier::external_body]
pub(crate) fn rule_parses(expr: &str) -> (r: bool)
    ensures
        r == rule_valid(expr@),
{
    cron::Schedule::from_str(expr).is_ok()
}

/// Relies on cron::Schedule::from_str and cron::Schedule::after, with
/// chrono's fixed-offset datetime conversions. cron searches for a match
/// from one second past the given instant, so any occurrence returned is
/// strictly after it; the search depends only on the parsed fields, the
/// instant and the offset.
#[verifier::external_body]
pub(crate) fn rule_next_after(expr: &str, after: i64, offset_secs: i32) -> (r: Option<i64>)
    requires
        valid_instant(after as int),
    ensures
        r == rule_next_occurrence(expr@, after as int, offset_secs as int),
        !rule_valid(expr@) ==> r is None,
        r matches Some(t) ==> after < t,
{
    let schedule = match cron::Schedule::from_str(expr) {
        Ok(s) => s,
        Err(_) => return None,
    };
    let offset = match chrono::FixedOffset::east_opt(offset_secs) {
        Some(o) => o,
        None => return None,
    };
    let start = match chrono::DateTime::from_timestamp(after, 0) {
        Some(d) => d.with_timezone(&offset),
        None => return None,
    };
    schedule.after(&start).next().map(|d| d.timestamp())
}

} // verus!
