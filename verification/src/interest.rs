//! Interest accrued by a locked sub-position.

use vstd::prelude::*;

verus! {

/// Number of seconds in a year of 365 days.
pub const SECONDS_PER_YEAR: u64 = 31_536_000;

/// Interest accrued by `amount` over `elapsed` seconds at an annual rate of
/// `rate` percent. Every division is an integer division, taken in the order
/// written: the rate is first reduced to a whole per-second rate.
pub open spec fn interest_of(rate: int, amount: int, elapsed: int) -> int {
    elapsed * (((rate / (SECONDS_PER_YEAR as int)) * amount) / 100)
}

/// With a rate below the number of seconds in a year the per-second rate
/// truncates to zero, and no interest accrues at all.
pub proof fn lemma_interest_truncates(rate: int, amount: int, elapsed: int)
    requires
        0 <= rate < SECONDS_PER_YEAR,
    ensures
        interest_of(rate, amount, elapsed) == 0,
{
    assert(rate / (SECONDS_PER_YEAR as int) == 0);
    assert((0 * amount) / 100 == 0);
    assert(elapsed * 0 == 0);
}

/// Computes [`interest_of`] for a rate held in a `u8`.
pub fn accrued_interest(rate: u8, amount: u64, elapsed: i128) -> (interest: u64)
    ensures
        interest == interest_of(rate as int, amount as int, elapsed as int),
        interest == 0,
{
    let per_second: u64 = (rate as u64) / SECONDS_PER_YEAR;
    assert(per_second == 0);
    let per_unit_time: u64 = (per_second * amount) / 100;
    proof {
        lemma_interest_truncates(rate as int, amount as int, elapsed as int);
    }
    let total: i128 = elapsed * (per_unit_time as i128);
    total as u64
}

} // verus!
