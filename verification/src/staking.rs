//! Staking and withdrawal requests.

use vstd::prelude::*;
use crate::accounts::PerformAction;
use crate::calendar::{day_of_week, is_request_allowed, request_open, weekday};
use crate::error::ErrorCode;
use crate::identity::Identity;
use crate::locks::{
    can_lock, drawn, lemma_locked_total, lemma_released_total, locked, released, LockSlot,
    LOCK_CAPACITY,
};
use crate::records::{Count, PoolActionEntry, WithdrawRequest};
use crate::transfer::TransferOrder;

verus! {

/// Why a stake of the asset `token` is refused, if it is.
pub open spec fn stake_error(ctx: PerformAction, token: Identity) -> Option<ErrorCode> {
    if token != ctx.token_mint {
        Some(ErrorCode::InvalidToken)
    } else if !can_lock(ctx.lock_pool_action@) {
        Some(ErrorCode::CapacityExceeded)
    } else {
        None
    }
}

/// `after` is what a stake of `amount` at `now`, logged under `count`, makes
/// of `before`: the amount is added to the staker's position and to the
/// pool, and locked in a slot of its own.
pub open spec fn staked(
    before: PerformAction,
    after: PerformAction,
    amount: u64,
    count: u8,
    now: i64,
) -> bool {
    &&& after.staker == before.staker
    &&& after.token_mint == before.token_mint
    &&& after.token_interest == before.token_interest
    &&& after.withdraw_pool_action == before.withdraw_pool_action
    &&& after.pool_action == before.pool_action.moved(amount as int, now)
    &&& after.current_staking_pool == before.current_staking_pool.moved(amount as int)
    &&& after.lock_pool_action@ == locked(
        before.lock_pool_action@,
        LockSlot { amount, start_time: now },
    )
    &&& after.pool_entry == (PoolActionEntry {
        staker: before.staker,
        token_amount: amount,
        stake_action: true,
        time_stamp: now,
        confirmed: true,
    })
    &&& after.pool_count == (Count { count })
}

/// The balance of the withdrawal queue after a request for `amount` at
/// `now`: what was queued before and what the request draws from the slots.
pub open spec fn queued_after(ctx: PerformAction, amount: u64, now: i64) -> int {
    ctx.withdraw_pool_action.requested_amount + drawn(
        ctx.lock_pool_action@,
        ctx.token_interest.interest as int,
        now as int,
        amount as int,
    )
}

/// Why a withdrawal request for `amount` of the asset `token` at `now` is
/// refused, if it is.
pub open spec fn request_error(
    ctx: PerformAction,
    amount: u64,
    token: Identity,
    now: i64,
) -> Option<ErrorCode> {
    if token != ctx.token_mint {
        Some(ErrorCode::InvalidToken)
    } else if !request_open(weekday(now as int)) {
        Some(ErrorCode::InvalidWithdrawDay)
    } else if queued_after(ctx, amount, now) < amount {
        Some(ErrorCode::LockingPeriod)
    } else if ctx.current_staking_pool.token_amount < amount
        || ctx.pool_action.token_amount < amount {
        Some(ErrorCode::NotEnoughToken)
    } else {
        None
    }
}

/// `after` is what a withdrawal request for `amount` at `now`, logged under
/// `count`, makes of `before`: the slots are drawn from in order, what is
/// drawn is added to the queue, and the amount leaves the staker's position
/// and the pool.
pub open spec fn withdrawal_requested(
    before: PerformAction,
    after: PerformAction,
    amount: u64,
    count: u8,
    now: i64,
) -> bool {
    &&& after.staker == before.staker
    &&& after.token_mint == before.token_mint
    &&& after.token_interest == before.token_interest
    &&& after.withdraw_pool_action == (WithdrawRequest {
        requested_amount: queued_after(before, amount, now) as u64,
        requested_time: now,
    })
    &&& after.pool_action == before.pool_action.moved(-(amount as int), now)
    &&& after.current_staking_pool == before.current_staking_pool.moved(-(amount as int))
    &&& after.lock_pool_action@ == released(
        before.lock_pool_action@,
        before.token_interest.interest as int,
        now as int,
        amount as int,
    )
    &&& after.pool_entry == (PoolActionEntry {
        staker: before.staker,
        token_amount: amount,
        stake_action: false,
        time_stamp: now,
        confirmed: false,
    })
    &&& after.pool_count == (Count { count })
}

/// Whether a stake of `amount` of the asset `token` can be asked for: the
/// amount is not zero, and where the stake is not refused, neither the
/// position nor the pool's total leaves the range of a `u64`.
pub open spec fn spec_may_stake(ctx: &PerformAction, amount: u64, token: Identity) -> bool {
    &&& amount > 0
    &&& stake_error(*ctx, token) is None ==> {
        &&& ctx.pool_action.token_amount + amount <= u64::MAX
        &&& ctx.current_staking_pool.token_amount + amount <= u64::MAX
    }
}

/// Whether a withdrawal request for `amount` of the asset `token` can be
/// asked for at `now`: where the asset is the one under management and
/// requests are open, the queue's balance and the amount together stay in
/// the range of a `u64`.
pub open spec fn spec_may_request(
    ctx: &PerformAction,
    amount: u64,
    token: Identity,
    now: i64,
) -> bool {
    token == ctx.token_mint && request_open(weekday(now as int))
        ==> ctx.withdraw_pool_action.requested_amount + amount <= u64::MAX
}

/// Whether the action can be asked for: see [`may_stake`] and
/// [`may_request`].
pub open spec fn spec_may_perform(
    ctx: &PerformAction,
    amount: u64,
    token: Identity,
    stake_action: bool,
    now: i64,
) -> bool {
    if stake_action {
        may_stake(ctx, amount, token)
    } else {
        may_request(ctx, amount, token, now)
    }
}

/// Tells whether [`stake`] can be called with these arguments.
#[verifier::when_used_as_spec(spec_may_stake)]
pub fn may_stake(ctx: &PerformAction, amount: u64, token: Identity) -> (may: bool)
    ensures
        may == may_stake(ctx, amount, token),
{
    if amount == 0 {
        return false;
    }
    if !ctx.token_mint.same_as(&token) {
        return true;
    }
    let slots = ctx.lock_pool_action.slots.len();
    if ctx.lock_pool_action.find_vacant() >= slots && slots >= LOCK_CAPACITY {
        return true;
    }
    amount <= u64::MAX - ctx.pool_action.token_amount
        && amount <= u64::MAX - ctx.current_staking_pool.token_amount
}

/// Tells whether [`request_withdraw`] can be called with these arguments.
#[verifier::when_used_as_spec(spec_may_request)]
pub fn may_request(ctx: &PerformAction, amount: u64, token: Identity, now: i64) -> (may: bool)
    ensures
        may == may_request(ctx, amount, token, now),
{
    if !ctx.token_mint.same_as(&token) {
        return true;
    }
    if !is_request_allowed(day_of_week(now)) {
        return true;
    }
    amount <= u64::MAX - ctx.withdraw_pool_action.requested_amount
}

/// Tells whether [`perform_action`] can be called with these arguments.
#[verifier::when_used_as_spec(spec_may_perform)]
pub fn may_perform(
    ctx: &PerformAction,
    amount: u64,
    token: Identity,
    stake_action: bool,
    now: i64,
) -> (may: bool)
    ensures
        may == may_perform(ctx, amount, token, stake_action, now),
{
    if stake_action {
        may_stake(ctx, amount, token)
    } else {
        may_request(ctx, amount, token, now)
    }
}

/// Notes an action of the staker at `now`: fixes the start time of the
/// position at its first action, renews its update time, and writes the log
/// entry under the sequence value `count`.
fn note_action(ctx: &mut PerformAction, amount: u64, stake_action: bool, count: u8, now: i64)
    ensures
        final(ctx).staker == old(ctx).staker,
        final(ctx).token_mint == old(ctx).token_mint,
        final(ctx).token_interest == old(ctx).token_interest,
        final(ctx).withdraw_pool_action == old(ctx).withdraw_pool_action,
        final(ctx).current_staking_pool == old(ctx).current_staking_pool,
        final(ctx).lock_pool_action == old(ctx).lock_pool_action,
        final(ctx).pool_action == old(ctx).pool_action.moved(0, now),
        final(ctx).pool_entry == (PoolActionEntry {
            staker: old(ctx).staker,
            token_amount: amount,
            stake_action,
            time_stamp: now,
            confirmed: stake_action,
        }),
        final(ctx).pool_count == (Count { count }),
{
    if ctx.pool_action.start_time == 0 {
        ctx.pool_action.start_time = now;
    }
    ctx.pool_action.update_time = now;
    ctx.pool_entry = PoolActionEntry {
        staker: ctx.staker,
        token_amount: amount,
        stake_action,
        time_stamp: now,
        confirmed: stake_action,
    };
    ctx.pool_count = Count { count };
}

/// Stakes `action_amount` of the asset `action_token` at `current_time`.
///
/// The stake is refused with `InvalidToken` when the asset is not the one
/// under management, and with `CapacityExceeded` when every lock slot is
/// taken and the schedule is full. Otherwise the amount is added to the
/// position and to the pool, locked in the first vacant slot (or in a new
/// one), and logged under `count` as confirmed. The order returned moves the
/// amount from the staker into the pool, under the staker's signature.
pub fn stake(
    ctx: &mut PerformAction,
    action_amount: u64,
    action_token: Identity,
    count: u8,
    current_time: i64,
) -> (outcome: Result<TransferOrder, ErrorCode>)
    requires
        may_stake(old(ctx), action_amount, action_token),
    ensures
        (match stake_error(*old(ctx), action_token) {
            Some(error) => {
                &&& outcome == Err::<TransferOrder, ErrorCode>(error)
                &&& *final(ctx) == *old(ctx)
            },
            None => {
                &&& outcome == Ok::<TransferOrder, ErrorCode>(
                    TransferOrder::into_pool(old(ctx).staker, old(ctx).token_mint, action_amount),
                )
                &&& staked(*old(ctx), *final(ctx), action_amount, count, current_time)
            },
        }),
        old(ctx).sound() ==> final(ctx).sound(),
{
    if !ctx.token_mint.same_as(&action_token) {
        return Err(ErrorCode::InvalidToken);
    }
    proof {
        lemma_locked_total(
            ctx.lock_pool_action@,
            LockSlot { amount: action_amount, start_time: current_time },
        );
    }
    match ctx.lock_pool_action.lock(action_amount, current_time) {
        Err(error) => {
            return Err(error);
        },
        Ok(_) => {},
    }
    ctx.pool_action.token_amount = ctx.pool_action.token_amount + action_amount;
    ctx.current_staking_pool.token_amount = ctx.current_staking_pool.token_amount + action_amount;
    note_action(ctx, action_amount, true, count, current_time);
    Ok(TransferOrder::into_pool(ctx.staker, ctx.token_mint, action_amount))
}

/// Asks at `current_time` to withdraw `action_amount` of the asset
/// `action_token`.
///
/// The request is refused, in this order: with `InvalidToken` when the asset
/// is not the one under management; with `InvalidWithdrawDay` on the weekday
/// with index 1, whatever the amount and the balances; with `LockingPeriod`
/// when the queue, after the slots have been drawn from, holds less than the
/// amount; with `NotEnoughToken` when the pool or the position holds less
/// than the amount. Otherwise the slots are drawn from in order until the
/// amount is covered, what is drawn joins the queue, the amount leaves the
/// position and the pool, and the request is logged under `count` as
/// pending. No value moves before the claim.
pub fn request_withdraw(
    ctx: &mut PerformAction,
    action_amount: u64,
    action_token: Identity,
    count: u8,
    current_time: i64,
) -> (outcome: Result<(), ErrorCode>)
    requires
        may_request(old(ctx), action_amount, action_token, current_time),
    ensures
        (match request_error(*old(ctx), action_amount, action_token, current_time) {
            Some(error) => {
                &&& outcome == Err::<(), ErrorCode>(error)
                &&& *final(ctx) == *old(ctx)
            },
            None => {
                &&& outcome == Ok::<(), ErrorCode>(())
                &&& withdrawal_requested(
                    *old(ctx),
                    *final(ctx),
                    action_amount,
                    count,
                    current_time,
                )
            },
        }),
        action_token == old(ctx).token_mint && weekday(current_time as int) == 1 ==> outcome
            == Err::<(), ErrorCode>(ErrorCode::InvalidWithdrawDay),
        final(ctx).withdraw_pool_action.requested_amount
            >= old(ctx).withdraw_pool_action.requested_amount,
        old(ctx).sound() ==> final(ctx).sound(),
{
    if !ctx.token_mint.same_as(&action_token) {
        return Err(ErrorCode::InvalidToken);
    }
    if !is_request_allowed(day_of_week(current_time)) {
        return Err(ErrorCode::InvalidWithdrawDay);
    }
    proof {
        lemma_released_total(
            ctx.lock_pool_action@,
            ctx.token_interest.interest as int,
            current_time as int,
            action_amount as int,
        );
    }
    let (locks, taken) = ctx.lock_pool_action.release(
        action_amount,
        ctx.token_interest.interest,
        current_time,
    );
    let queued: u64 = ctx.withdraw_pool_action.requested_amount + taken;
    if queued < action_amount {
        return Err(ErrorCode::LockingPeriod);
    }
    if ctx.current_staking_pool.token_amount < action_amount
        || ctx.pool_action.token_amount < action_amount {
        return Err(ErrorCode::NotEnoughToken);
    }
    ctx.lock_pool_action = locks;
    ctx.withdraw_pool_action = WithdrawRequest {
        requested_amount: queued,
        requested_time: current_time,
    };
    ctx.pool_action.token_amount = ctx.pool_action.token_amount - action_amount;
    ctx.current_staking_pool.token_amount = ctx.current_staking_pool.token_amount - action_amount;
    note_action(ctx, action_amount, false, count, current_time);
    Ok(())
}

/// Stakes, when `stake_action` is set, and asks for a withdrawal otherwise:
/// see [`stake`] and [`request_withdraw`]. A stake returns the order for the
/// movement that it calls for; a withdrawal request calls for none.
pub fn perform_action(
    ctx: &mut PerformAction,
    action_amount: u64,
    action_token: Identity,
    stake_action: bool,
    count: u8,
    current_time: i64,
) -> (outcome: Result<Option<TransferOrder>, ErrorCode>)
    requires
        may_perform(old(ctx), action_amount, action_token, stake_action, current_time),
    ensures
        stake_action ==> (match stake_error(*old(ctx), action_token) {
            Some(error) => {
                &&& outcome == Err::<Option<TransferOrder>, ErrorCode>(error)
                &&& *final(ctx) == *old(ctx)
            },
            None => {
                &&& outcome == Ok::<Option<TransferOrder>, ErrorCode>(
                    Some(
                        TransferOrder::into_pool(
                            old(ctx).staker,
                            old(ctx).token_mint,
                            action_amount,
                        ),
                    ),
                )
                &&& staked(*old(ctx), *final(ctx), action_amount, count, current_time)
            },
        }),
        !stake_action ==> (match request_error(
            *old(ctx),
            action_amount,
            action_token,
            current_time,
        ) {
            Some(error) => {
                &&& outcome == Err::<Option<TransferOrder>, ErrorCode>(error)
                &&& *final(ctx) == *old(ctx)
            },
            None => {
                &&& outcome == Ok::<Option<TransferOrder>, ErrorCode>(None)
                &&& withdrawal_requested(
                    *old(ctx),
                    *final(ctx),
                    action_amount,
                    count,
                    current_time,
                )
            },
        }),
        !stake_action && action_token == old(ctx).token_mint && weekday(current_time as int) == 1
            ==> outcome == Err::<Option<TransferOrder>, ErrorCode>(ErrorCode::InvalidWithdrawDay),
        final(ctx).withdraw_pool_action.requested_amount
            >= old(ctx).withdraw_pool_action.requested_amount,
        old(ctx).sound() ==> final(ctx).sound(),
{
    if stake_action {
        match stake(ctx, action_amount, action_token, count, current_time) {
            Ok(order) => Ok(Some(order)),
            Err(error) => Err(error),
        }
    } else {
        match request_withdraw(ctx, action_amount, action_token, count, current_time) {
            Ok(_) => Ok(None),
            Err(error) => Err(error),
        }
    }
}

} // verus!
