//! Day-of-week arithmetic and the days on which operations are open.

use vstd::prelude::*;

verus! {

/// Number of seconds in a day.
pub const SECONDS_PER_DAY: i64 = 86_400;

/// Index of the weekday that holds the second `t`: the number of whole days
/// since the origin, shifted by four, modulo seven. Days before the origin
/// count downwards, so the index always lies in `0..7`.
pub open spec fn weekday(t: int) -> int {
    (t / (SECONDS_PER_DAY as int) + 4) % 7
}

/// Whether withdrawal requests are open on the weekday `day`: on every day
/// but the one with index 1.
pub open spec fn request_open(day: int) -> bool {
    day != 1
}

/// Whether claims are open on the weekday `day`. Claims are open on every
/// day. The rule for claims stands apart from the rule for requests, so that
/// either can be changed without touching the weekday arithmetic.
pub open spec fn claim_open(day: int) -> bool {
    true
}

/// Computes [`weekday`] of a timestamp in seconds.
pub fn day_of_week(t: i64) -> (day: u8)
    ensures
        day == weekday(t as int),
        day < 7,
{
    let days: i64 = match t.checked_div_euclid(SECONDS_PER_DAY) {
        Some(d) => d,
        None => 0,
    };
    let shifted: i64 = days + 4;
    let day: i64 = match shifted.checked_rem_euclid(7) {
        Some(r) => r,
        None => 0,
    };
    day as u8
}

/// Computes [`request_open`].
pub fn is_request_allowed(day: u8) -> (open: bool)
    ensures
        open == request_open(day as int),
{
    day != 1
}

/// Computes [`claim_open`].
pub fn is_claim_allowed(day: u8) -> (open: bool)
    ensures
        open == claim_open(day as int),
{
    true
}

} // verus!
