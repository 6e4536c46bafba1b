//! Claims against the withdrawal queue.

use vstd::prelude::*;
use crate::accounts::PerformWithdraw;
use crate::calendar::{claim_open, day_of_week, is_claim_allowed, weekday};
use crate::error::ErrorCode;
use crate::records::{Count, PoolActionEntry, WithdrawRequest};
use crate::transfer::TransferOrder;

verus! {

/// Why a claim of `amount` at `now` is refused, if it is.
pub open spec fn claim_error(ctx: PerformWithdraw, amount: u64, now: i64) -> Option<ErrorCode> {
    if ctx.current_staking_pool.token_amount < amount {
        Some(ErrorCode::ExceedPoolAmount)
    } else if !claim_open(weekday(now as int)) {
        Some(ErrorCode::InvalidWithdrawDay)
    } else {
        None
    }
}

/// `after` is what a claim of `amount` at `now`, logged under `count`, makes
/// of `before`: the amount leaves the queue. The pool's total and the time
/// of the latest request stay as they are.
pub open spec fn claimed(
    before: PerformWithdraw,
    after: PerformWithdraw,
    amount: u64,
    count: u8,
    now: i64,
) -> bool {
    &&& after.staker == before.staker
    &&& after.token_mint == before.token_mint
    &&& after.current_staking_pool == before.current_staking_pool
    &&& after.withdraw_pool_action == (WithdrawRequest {
        requested_amount: (before.withdraw_pool_action.requested_amount - amount) as u64,
        requested_time: before.withdraw_pool_action.requested_time,
    })
    &&& after.pool_entry == (PoolActionEntry {
        staker: before.staker,
        token_amount: amount,
        stake_action: false,
        time_stamp: now,
        confirmed: true,
    })
    &&& after.pool_count == (Count { count })
}

/// Whether a claim of `amount` can be asked for at `now`: where the claim is
/// not refused, it is no more than what is queued.
pub open spec fn spec_may_claim(ctx: &PerformWithdraw, amount: u64, now: i64) -> bool {
    claim_error(*ctx, amount, now) is None
        ==> amount <= ctx.withdraw_pool_action.requested_amount
}

/// Tells whether [`claim_withdraw`] can be called with these arguments.
#[verifier::when_used_as_spec(spec_may_claim)]
pub fn may_claim(ctx: &PerformWithdraw, amount: u64, now: i64) -> (may: bool)
    ensures
        may == may_claim(ctx, amount, now),
{
    if ctx.current_staking_pool.token_amount < amount {
        return true;
    }
    if !is_claim_allowed(day_of_week(now)) {
        return true;
    }
    amount <= ctx.withdraw_pool_action.requested_amount
}

/// Claims `claim_amount` from the withdrawal queue at `current_time`.
///
/// The claim is refused with `ExceedPoolAmount` when it is more than the
/// pool's total. Claims are open on every weekday. Otherwise the amount
/// leaves the queue and the claim is logged under `count` as confirmed. The
/// order returned moves the amount from the pool to the staker, under the
/// pool's own authority.
///
/// The queue cannot go below zero: a claim that the pool covers must not be
/// more than what is queued.
pub fn claim_withdraw(
    ctx: &mut PerformWithdraw,
    claim_amount: u64,
    count: u8,
    current_time: i64,
) -> (outcome: Result<TransferOrder, ErrorCode>)
    requires
        may_claim(old(ctx), claim_amount, current_time),
    ensures
        (match claim_error(*old(ctx), claim_amount, current_time) {
            Some(error) => {
                &&& outcome == Err::<TransferOrder, ErrorCode>(error)
                &&& *final(ctx) == *old(ctx)
            },
            None => {
                &&& outcome == Ok::<TransferOrder, ErrorCode>(
                    TransferOrder::out_of_pool(old(ctx).token_mint, old(ctx).staker, claim_amount),
                )
                &&& claimed(*old(ctx), *final(ctx), claim_amount, count, current_time)
            },
        }),
        claim_amount > old(ctx).current_staking_pool.token_amount ==> outcome == Err::<
            TransferOrder,
            ErrorCode,
        >(ErrorCode::ExceedPoolAmount),
        final(ctx).withdraw_pool_action.requested_amount
            <= old(ctx).withdraw_pool_action.requested_amount,
        claim_amount == old(ctx).withdraw_pool_action.requested_amount
            && claim_amount <= old(ctx).current_staking_pool.token_amount ==> ({
            &&& outcome is Ok
            &&& outcome->Ok_0.amount == old(ctx).withdraw_pool_action.requested_amount
            &&& final(ctx).withdraw_pool_action.requested_amount == 0
        }),
{
    if ctx.current_staking_pool.token_amount < claim_amount {
        return Err(ErrorCode::ExceedPoolAmount);
    }
    if !is_claim_allowed(day_of_week(current_time)) {
        return Err(ErrorCode::InvalidWithdrawDay);
    }
    ctx.withdraw_pool_action.requested_amount =
        ctx.withdraw_pool_action.requested_amount - claim_amount;
    ctx.pool_entry = PoolActionEntry {
        staker: ctx.staker,
        token_amount: claim_amount,
        stake_action: false,
        time_stamp: current_time,
        confirmed: true,
    };
    ctx.pool_count = Count { count };
    Ok(TransferOrder::out_of_pool(ctx.token_mint, ctx.staker, claim_amount))
}

} // verus!
