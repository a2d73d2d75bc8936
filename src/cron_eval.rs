use vstd::prelude::*;

verus! {

/// Why a cron expression gave no next run time.
#[derive(Clone, Copy, Debug, PartialEq, Eq, Structural)]
pub enum CronError {
    /// The expression does not follow the cron grammar.
    InvalidCronExpression,
    /// The expression parses but matches no later instant.
    NoUpcomingOccurrence,
}

/// The latest timestamp the evaluator takes: 9999-12-31T23:59:59 UTC.
pub const MAX_TIMESTAMP: i64 = 253402300799;

/// Timestamps the evaluator takes: from 1970-01-01T00:00:00 UTC to `MAX_TIMESTAMP`.
pub open spec fn in_time_range(t: i64) -> bool {
    0 <= t <= MAX_TIMESTAMP
}

/// Whether the cron crate accepts the text as an expression.
pub uninterp spec fn cron_accepts(expr: Seq<char>) -> bool;

/// Whether the instant `t` (seconds, UTC) matches every field of the expression.
pub uninterp spec fn cron_includes(expr: Seq<char>, t: i64) -> bool;

/// The first instant strictly after `t` that the expression matches, if any.
pub uninterp spec fn cron_first_after(expr: Seq<char>, t: i64) -> Option<i64>;

/// Relies on `cron::Schedule::from_str`: whether an expression parses depends on its text alone.
#[verifier::external_body]
fn parses(expr: &str) -> (r: bool)
    ensures
        r == cron_accepts(expr@),
{
    <cron::Schedule as std::str::FromStr>::from_str(expr).is_ok()
}

/// Relies on `cron::Schedule::after` (on the expression read by `Schedule::from_str`, with
/// the instant as a UTC `chrono::DateTime`): its first item is the first instant from one
/// second after `t` on whose every field the schedule holds, or none when none is left;
/// the search depends on the expression and `t` alone.
#[verifier::external_body]
fn first_after(expr: &str, t: i64) -> (r: Option<i64>)
    requires
        cron_accepts(expr@),
        in_time_range(t),
    ensures
        r == cron_first_after(expr@, t),
        r matches Some(x) ==> x > t && cron_includes(expr@, x),
{
    match <cron::Schedule as std::str::FromStr>::from_str(expr) {
        Ok(s) => s.after(&chrono::DateTime::from_timestamp(t, 0).unwrap()).next().map(
            |d| d.timestamp(),
        ),
        Err(_) => None,
    }
}

/// Relies on `cron::Schedule::includes` (on the expression read by `Schedule::from_str`, with
/// the instant as a UTC `chrono::DateTime`): whether each field of the instant is in the
/// schedule.
#[verifier::external_body]
fn includes_at(expr: &str, t: i64) -> (r: bool)
    requires
        cron_accepts(expr@),
        in_time_range(t),
    ensures
        r == cron_includes(expr@, t),
{
    match <cron::Schedule as std::str::FromStr>::from_str(expr) {
        Ok(s) => s.includes(chrono::DateTime::from_timestamp(t, 0).unwrap()),
        Err(_) => false,
    }
}

/// The next run time of an expression after `now`, or why there is none.
pub open spec fn next_run_spec(expr: Seq<char>, now: i64) -> Result<i64, CronError> {
    if !cron_accepts(expr) {
        Err(CronError::InvalidCronExpression)
    } else {
        match cron_first_after(expr, now) {
            Some(x) => Ok(x),
            None => Err(CronError::NoUpcomingOccurrence),
        }
    }
}

/// The first instant strictly after `now` that the cron expression matches.
/// A run time found lies strictly after `now` and satisfies the expression.
pub fn next_run(expr: &str, now: i64) -> (r: Result<i64, CronError>)
    requires
        in_time_range(now),
    ensures
        r == next_run_spec(expr@, now),
        r matches Ok(x) ==> x > now && cron_includes(expr@, x),
{
    if !parses(expr) {
        return Err(CronError::InvalidCronExpression);
    }
    match first_after(expr, now) {
        Some(x) => Ok(x),
        None => Err(CronError::NoUpcomingOccurrence),
    }
}

/// Whether the instant `t` satisfies the cron expression.
pub fn cron_matches(expr: &str, t: i64) -> (r: Result<bool, CronError>)
    requires
        in_time_range(t),
    ensures
        r is Err <==> !cron_accepts(expr@),
        r matches Err(e) ==> e == CronError::InvalidCronExpression,
        r matches Ok(b) ==> b == cron_includes(expr@, t),
{
    if !parses(expr) {
        return Err(CronError::InvalidCronExpression);
    }
    Ok(includes_at(expr, t))
}

} // verus!
