//! What the schedule logic takes from the `cron` and `chrono` crates:
//! whether a cron expression parses, and the firing it finds after a given time.

use vstd::prelude::*;
use chrono::DateTime;
use cron::Schedule;
use std::str::FromStr;

verus! {

/// Whether `cron::Schedule::from_str` accepts the expression.
pub uninterp spec fn cron_accepts(expression: Seq<char>) -> bool;

/// Unix time (in seconds) of the firing that cron's search finds after the
/// Unix time `after`, for a cron expression that parses; `None` when `after`
/// is outside chrono's range or the search finds nothing. (The search is
/// cron's own: it need not be the earliest firing, e.g. when the year of
/// `after` is not in the schedule.)
pub uninterp spec fn cron_next_after(expression: Seq<char>, after: i64) -> Option<i64>;

/// The last second that chrono can represent (the end of year 262142);
/// cron looks for a firing from one second after its start time, which
/// chrono cannot form from this second.
pub const LAST_REPRESENTABLE_SECOND: i64 = 8210266876799;

/// Display text of every error that `cron::Schedule::from_str` returns.
pub open spec fn cron_parse_error_text() -> Seq<char> {
    "Invalid expression: Invalid cron expression."@
}

/// Parses the expression with `cron::Schedule::from_str`; on failure hands
/// back the error's `Display` text (cron's parser reports every failure as
/// `ErrorKind::Expression("Invalid cron expression.")`, displayed with the
/// prefix "Invalid expression: "). Otherwise the first item of
/// `schedule.after(&DateTime::from_timestamp(after, 0)?)`, as a Unix time.
/// cron's search starts one second after its start time and only yields
/// whole seconds, so a firing it finds is later than `after`; which firing
/// it is, is left to cron and only named here. At chrono's last second,
/// cron's `start + 1s` overflows and panics; an expression that does not
/// parse is refused before that.
#[verifier::external_body]
pub(crate) fn first_firing_after(expression: &str, after: i64) -> (r: Result<Option<i64>, String>)
    requires
        after != LAST_REPRESENTABLE_SECOND || !cron_accepts(expression@),
    ensures
        r is Ok <==> cron_accepts(expression@),
        r matches Err(m) ==> m@ == cron_parse_error_text(),
        r matches Ok(next) ==> next == cron_next_after(expression@, after),
        r matches Ok(Some(next)) ==> next > after,
{
    let schedule = match Schedule::from_str(expression) {
        Ok(schedule) => schedule,
        Err(err) => return Err(err.to_string()),
    };
    let start = match DateTime::from_timestamp(after, 0) {
        Some(start) => start,
        None => return Ok(None),
    };
    match schedule.after(&start).next() {
        Some(next) => Ok(Some(next.timestamp())),
        None => Ok(None),
    }
}

} // verus!
