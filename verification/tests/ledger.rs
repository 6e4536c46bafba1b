use staking_contract::{
    claim_withdraw, deposit_token, perform_action, rescuse_token, Config, DepositToken, ErrorCode,
    Identity, InterestRate, PerformAction, PerformWithdraw, StakePool, WithdrawToken,
};

fn member(tag: u8) -> Identity {
    Identity::new([tag; 32])
}

fn asset() -> Identity {
    member(9)
}

fn join(staker: Identity, pool: StakePool) -> PerformAction {
    PerformAction::new(staker, asset(), pool, InterestRate { interest: 10 })
}

fn claim_of(ctx: &PerformAction) -> PerformWithdraw {
    PerformWithdraw {
        staker: ctx.staker,
        token_mint: ctx.token_mint,
        current_staking_pool: ctx.current_staking_pool,
        withdraw_pool_action: ctx.withdraw_pool_action,
        pool_entry: ctx.pool_entry,
        pool_count: ctx.pool_count,
    }
}

fn locked_in(ctx: &PerformAction) -> u64 {
    let mut total = 0;
    for slot in &ctx.lock_pool_action.slots {
        total += slot.amount;
    }
    total
}

#[test]
fn pool_total_is_the_sum_of_the_positions() {
    let mut pool = StakePool { token_mint: asset(), token_amount: 0 };
    let mut ann = join(member(1), pool);
    let mut bob = join(member(2), pool);

    ann.current_staking_pool = pool;
    assert!(perform_action(&mut ann, 100, asset(), true, 1, 1000).is_ok());
    pool = ann.current_staking_pool;
    assert_eq!(pool.token_amount, ann.pool_action.token_amount + bob.pool_action.token_amount);

    bob.current_staking_pool = pool;
    assert!(perform_action(&mut bob, 60, asset(), true, 1, 1500).is_ok());
    pool = bob.current_staking_pool;
    assert_eq!(pool.token_amount, 160);
    assert_eq!(pool.token_amount, ann.pool_action.token_amount + bob.pool_action.token_amount);

    ann.current_staking_pool = pool;
    assert_eq!(perform_action(&mut ann, 30, asset(), false, 2, 2000), Ok(None));
    pool = ann.current_staking_pool;
    assert_eq!(pool.token_amount, 130);
    assert_eq!(pool.token_amount, ann.pool_action.token_amount + bob.pool_action.token_amount);

    bob.current_staking_pool = pool;
    assert_eq!(
        perform_action(&mut bob, 61, asset(), false, 2, 2500),
        Err(ErrorCode::LockingPeriod)
    );
    pool = bob.current_staking_pool;
    assert_eq!(pool.token_amount, ann.pool_action.token_amount + bob.pool_action.token_amount);

    ann.current_staking_pool = pool;
    let mut claim = claim_of(&ann);
    assert!(claim_withdraw(&mut claim, 30, 3, 3000).is_ok());
    pool = claim.current_staking_pool;
    ann.withdraw_pool_action = claim.withdraw_pool_action;
    assert_eq!(ann.withdraw_pool_action.requested_amount, 0);
    assert_eq!(pool.token_amount, 130);
    assert_eq!(pool.token_amount, ann.pool_action.token_amount + bob.pool_action.token_amount);
}

#[test]
fn position_covers_what_is_locked() {
    let mut ctx = join(member(1), StakePool { token_mint: asset(), token_amount: 0 });
    assert!(locked_in(&ctx) <= ctx.pool_action.token_amount);
    assert!(perform_action(&mut ctx, 100, asset(), true, 1, 1000).is_ok());
    assert_eq!(locked_in(&ctx), 100);
    assert!(perform_action(&mut ctx, 50, asset(), true, 2, 2000).is_ok());
    assert_eq!(locked_in(&ctx), 150);
    assert_eq!(ctx.pool_action.token_amount, 150);
    assert_eq!(perform_action(&mut ctx, 120, asset(), false, 3, 3000), Ok(None));
    assert_eq!(locked_in(&ctx), 30);
    assert_eq!(ctx.pool_action.token_amount, 30);
    assert!(perform_action(&mut ctx, 5, asset(), true, 4, 4000).is_ok());
    assert_eq!(locked_in(&ctx), 35);
    assert_eq!(ctx.pool_action.token_amount, 35);
    assert!(ctx.lock_pool_action.slots.len() <= 10);
}

#[test]
fn lone_staker_cannot_claim_what_left_the_pool() {
    let mut ctx = join(member(1), StakePool { token_mint: asset(), token_amount: 0 });
    assert!(perform_action(&mut ctx, 100, asset(), true, 1, 1000).is_ok());
    assert_eq!(perform_action(&mut ctx, 100, asset(), false, 2, 2000), Ok(None));
    assert_eq!(ctx.current_staking_pool.token_amount, 0);
    assert_eq!(ctx.withdraw_pool_action.requested_amount, 100);
    let mut claim = claim_of(&ctx);
    assert_eq!(claim_withdraw(&mut claim, 100, 3, 3000), Err(ErrorCode::ExceedPoolAmount));
}

#[test]
fn rescue_and_deposit_move_the_pool_total_alone() {
    let mut ctx = join(member(1), StakePool { token_mint: asset(), token_amount: 0 });
    assert!(perform_action(&mut ctx, 100, asset(), true, 1, 1000).is_ok());
    let mut rescue = WithdrawToken {
        owner: member(7),
        token_mint: asset(),
        admin_config: Config { admin: member(7) },
        current_staking_pool: ctx.current_staking_pool,
    };
    assert!(rescuse_token(&mut rescue, 40).is_ok());
    assert_eq!(rescue.current_staking_pool.token_amount, 60);
    assert_eq!(ctx.pool_action.token_amount, 100);
    let mut deposit = DepositToken {
        owner: member(7),
        token_mint: asset(),
        admin_config: Config { admin: member(7) },
        current_staking_pool: rescue.current_staking_pool,
    };
    assert!(deposit_token(&mut deposit, 55).is_ok());
    assert_eq!(deposit.current_staking_pool.token_amount, 115);
    assert_eq!(ctx.pool_action.token_amount, 100);
}
