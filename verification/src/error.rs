//! The ways in which an operation is refused.

use vstd::prelude::*;

verus! {

/// Why an operation was refused. A refused operation changes nothing.
#[derive(Clone, Copy, Debug, PartialEq, Eq, Hash, Structural)]
pub enum ErrorCode {
    /// The staked or pooled balance does not cover the amount.
    NotEnoughToken,
    /// The asset named is not the asset under management.
    InvalidToken,
    /// The staker does not match the record.
    InvalidUser,
    /// The record is not in the state that the operation expects.
    InvalidPoolAction,
    /// The amount asked for is not covered by what has been unlocked.
    LockingPeriod,
    /// The operation is not open on this day of the week.
    InvalidWithdrawDay,
    /// The caller does not hold administrative authority.
    InvalidAdmin,
    /// The amount is more than the pool holds.
    ExceedPoolAmount,
    /// Every lock slot is taken and no further one may be added.
    CapacityExceeded,
}

} // verus!
