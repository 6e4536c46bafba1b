//! Operations reserved to the administrator.

use vstd::prelude::*;
use crate::accounts::{DepositToken, UpdateConfig, UpdateInterest, WithdrawToken};
use crate::error::ErrorCode;
use crate::identity::Identity;
use crate::records::{Config, InterestRate};
use crate::transfer::TransferOrder;

verus! {

/// The configuration after `caller` has asked to make `new_admin` the
/// administrator: the request is granted while no administrator is set, and
/// to the administrator; anyone else is refused with `InvalidAdmin`.
pub open spec fn admin_update(config: Config, caller: Identity, new_admin: Identity) -> Result<
    Config,
    ErrorCode,
> {
    if config.may_be_set_by(caller) {
        Ok(Config { admin: new_admin })
    } else {
        Err(ErrorCode::InvalidAdmin)
    }
}

/// Why a rescue of `amount` is refused, if it is.
pub open spec fn rescue_error(ctx: WithdrawToken, amount: u64) -> Option<ErrorCode> {
    if ctx.owner != ctx.admin_config.admin {
        Some(ErrorCode::InvalidAdmin)
    } else if ctx.current_staking_pool.token_amount < amount {
        Some(ErrorCode::ExceedPoolAmount)
    } else {
        None
    }
}

/// The administrator is set by the first call and guarded from then on.
/// While none is set, any caller may set one; once `first_admin` is set, a
/// request of anyone else is refused with `InvalidAdmin`, and a request of
/// `first_admin` is granted. The sentinel is left out as a first
/// administrator: setting it leaves the administrator unset.
pub proof fn lemma_admin_bootstrap(
    config: Config,
    first_caller: Identity,
    first_admin: Identity,
    next_caller: Identity,
    next_admin: Identity,
)
    requires
        config.admin.is_unset(),
        !first_admin.is_unset(),
    ensures
        admin_update(config, first_caller, first_admin) == Ok::<Config, ErrorCode>(
            Config { admin: first_admin },
        ),
        next_caller != first_admin ==> admin_update(
            Config { admin: first_admin },
            next_caller,
            next_admin,
        ) == Err::<Config, ErrorCode>(ErrorCode::InvalidAdmin),
        next_caller == first_admin ==> admin_update(
            Config { admin: first_admin },
            next_caller,
            next_admin,
        ) == Ok::<Config, ErrorCode>(Config { admin: next_admin }),
{
}

/// Makes `new_admin` the administrator, on behalf of `ctx.owner`.
///
/// While no administrator is set the first caller sets one. Afterwards only
/// the administrator may name another; any other caller is refused with
/// `InvalidAdmin`.
pub fn update_admin_wallet(ctx: &mut UpdateConfig, new_admin: Identity) -> (outcome: Result<
    (),
    ErrorCode,
>)
    ensures
        final(ctx).owner == old(ctx).owner,
        (match admin_update(old(ctx).admin_config, old(ctx).owner, new_admin) {
            Ok(config) => {
                &&& outcome == Ok::<(), ErrorCode>(())
                &&& final(ctx).admin_config == config
            },
            Err(error) => {
                &&& outcome == Err::<(), ErrorCode>(error)
                &&& *final(ctx) == *old(ctx)
            },
        }),
{
    if ctx.admin_config.admin.is_unset() || ctx.owner.same_as(&ctx.admin_config.admin) {
        ctx.admin_config.admin = new_admin;
        Ok(())
    } else {
        Err(ErrorCode::InvalidAdmin)
    }
}

/// Sets the annual interest rate of the asset to `new_interest` percent, on
/// behalf of `ctx.admin`. A caller who is not the administrator is refused
/// with `InvalidAdmin`.
pub fn update_interest_rate(ctx: &mut UpdateInterest, new_interest: u8) -> (outcome: Result<
    (),
    ErrorCode,
>)
    ensures
        final(ctx).admin == old(ctx).admin,
        final(ctx).admin_config == old(ctx).admin_config,
        old(ctx).admin == old(ctx).admin_config.admin ==> ({
            &&& outcome == Ok::<(), ErrorCode>(())
            &&& final(ctx).token_interest == (InterestRate { interest: new_interest })
        }),
        old(ctx).admin != old(ctx).admin_config.admin ==> ({
            &&& outcome == Err::<(), ErrorCode>(ErrorCode::InvalidAdmin)
            &&& *final(ctx) == *old(ctx)
        }),
{
    if !ctx.admin.same_as(&ctx.admin_config.admin) {
        return Err(ErrorCode::InvalidAdmin);
    }
    ctx.token_interest = InterestRate { interest: new_interest };
    Ok(())
}

/// Takes `withdraw_amount` out of the pool, on behalf of `ctx.owner`.
///
/// A caller who is not the administrator is refused with `InvalidAdmin`; an
/// amount that is more than the pool's total, with `ExceedPoolAmount`.
/// Otherwise the pool's total goes down by the amount; no staker's records
/// are touched. The order returned moves the amount from the pool to the
/// caller, under the pool's own authority.
pub fn rescuse_token(ctx: &mut WithdrawToken, withdraw_amount: u64) -> (outcome: Result<
    TransferOrder,
    ErrorCode,
>)
    ensures
        final(ctx).owner == old(ctx).owner,
        final(ctx).token_mint == old(ctx).token_mint,
        final(ctx).admin_config == old(ctx).admin_config,
        (match rescue_error(*old(ctx), withdraw_amount) {
            Some(error) => {
                &&& outcome == Err::<TransferOrder, ErrorCode>(error)
                &&& *final(ctx) == *old(ctx)
            },
            None => {
                &&& outcome == Ok::<TransferOrder, ErrorCode>(
                    TransferOrder::out_of_pool(
                        old(ctx).token_mint,
                        old(ctx).owner,
                        withdraw_amount,
                    ),
                )
                &&& final(ctx).current_staking_pool == old(ctx).current_staking_pool.moved(
                    -(withdraw_amount as int),
                )
            },
        }),
{
    if !ctx.owner.same_as(&ctx.admin_config.admin) {
        return Err(ErrorCode::InvalidAdmin);
    }
    if ctx.current_staking_pool.token_amount < withdraw_amount {
        return Err(ErrorCode::ExceedPoolAmount);
    }
    ctx.current_staking_pool.token_amount =
        ctx.current_staking_pool.token_amount - withdraw_amount;
    Ok(TransferOrder::out_of_pool(ctx.token_mint, ctx.owner, withdraw_amount))
}

/// Whether a deposit of `amount` can be asked for: where the caller is the
/// administrator, the pool's total stays in the range of a `u64`.
pub open spec fn spec_may_deposit(ctx: &DepositToken, amount: u64) -> bool {
    ctx.owner == ctx.admin_config.admin
        ==> ctx.current_staking_pool.token_amount + amount <= u64::MAX
}

/// Tells whether [`deposit_token`] can be called with these arguments.
#[verifier::when_used_as_spec(spec_may_deposit)]
pub fn may_deposit(ctx: &DepositToken, amount: u64) -> (may: bool)
    ensures
        may == may_deposit(ctx, amount),
{
    if !ctx.owner.same_as(&ctx.admin_config.admin) {
        return true;
    }
    amount <= u64::MAX - ctx.current_staking_pool.token_amount
}

/// Puts `deposit_amount` into the pool, on behalf of `ctx.owner`.
///
/// A caller who is not the administrator is refused with `InvalidAdmin`.
/// Otherwise the pool's total goes up by the amount; no staker's records are
/// touched. The order returned moves the amount from the caller into the
/// pool, under the caller's signature.
pub fn deposit_token(ctx: &mut DepositToken, deposit_amount: u64) -> (outcome: Result<
    TransferOrder,
    ErrorCode,
>)
    requires
        may_deposit(old(ctx), deposit_amount),
    ensures
        final(ctx).owner == old(ctx).owner,
        final(ctx).token_mint == old(ctx).token_mint,
        final(ctx).admin_config == old(ctx).admin_config,
        old(ctx).owner == old(ctx).admin_config.admin ==> ({
            &&& outcome == Ok::<TransferOrder, ErrorCode>(
                TransferOrder::into_pool(old(ctx).owner, old(ctx).token_mint, deposit_amount),
            )
            &&& final(ctx).current_staking_pool == old(ctx).current_staking_pool.moved(
                deposit_amount as int,
            )
        }),
        old(ctx).owner != old(ctx).admin_config.admin ==> ({
            &&& outcome == Err::<TransferOrder, ErrorCode>(ErrorCode::InvalidAdmin)
            &&& *final(ctx) == *old(ctx)
        }),
{
    if !ctx.owner.same_as(&ctx.admin_config.admin) {
        return Err(ErrorCode::InvalidAdmin);
    }
    ctx.current_staking_pool.token_amount =
        ctx.current_staking_pool.token_amount + deposit_amount;
    Ok(TransferOrder::into_pool(ctx.owner, ctx.token_mint, deposit_amount))
}

} // verus!
