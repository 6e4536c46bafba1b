use staking_contract::{
    perform_action, request_withdraw, stake, Count, ErrorCode, Identity, InterestRate, LockSlot,
    LockedPool, PerformAction, PoolAction, PoolActionEntry, StakePool, WithdrawRequest,
};

fn party(tag: u8) -> Identity {
    Identity::new([tag; 32])
}

fn slot_of(amount: u64, start_time: i64) -> LockSlot {
    LockSlot { amount, start_time }
}

/// A staker with 150 staked in two slots, in a pool of 400.
fn staked_twice() -> PerformAction {
    let mut ctx = PerformAction::new(
        party(1),
        party(9),
        StakePool { token_mint: party(9), token_amount: 250 },
        InterestRate { interest: 10 },
    );
    assert!(stake(&mut ctx, 100, party(9), 1, 1000).is_ok());
    assert!(stake(&mut ctx, 50, party(9), 2, 2000).is_ok());
    ctx
}

const OPEN_DAY: i64 = 5000;
const CLOSED_DAY: i64 = 4 * 86_400 + 17;

#[test]
fn request_on_day_one_is_refused() {
    let mut ctx = staked_twice();
    let before = ctx.clone();
    assert_eq!(
        request_withdraw(&mut ctx, 30, party(9), 3, CLOSED_DAY),
        Err(ErrorCode::InvalidWithdrawDay)
    );
    assert_eq!(ctx, before);
    assert_eq!(
        perform_action(&mut ctx, 30, party(9), false, 3, CLOSED_DAY),
        Err(ErrorCode::InvalidWithdrawDay)
    );
    assert_eq!(ctx, before);
}

#[test]
fn request_on_day_one_is_refused_whatever_the_amount() {
    let mut ctx = staked_twice();
    ctx.withdraw_pool_action.requested_amount = u64::MAX;
    for amount in [0, 1, 150, 151, u64::MAX] {
        assert_eq!(
            request_withdraw(&mut ctx, amount, party(9), 3, 4 * 86_400),
            Err(ErrorCode::InvalidWithdrawDay)
        );
        assert_eq!(
            request_withdraw(&mut ctx, amount, party(9), 3, 5 * 86_400 - 1),
            Err(ErrorCode::InvalidWithdrawDay)
        );
        assert_eq!(
            request_withdraw(&mut ctx, amount, party(9), 3, 11 * 86_400),
            Err(ErrorCode::InvalidWithdrawDay)
        );
    }
}

#[test]
fn request_on_day_one_is_refused_whatever_the_balances() {
    let mut empty = PerformAction::new(
        party(1),
        party(9),
        StakePool { token_mint: party(9), token_amount: 0 },
        InterestRate { interest: 0 },
    );
    assert_eq!(
        request_withdraw(&mut empty, 10, party(9), 0, CLOSED_DAY),
        Err(ErrorCode::InvalidWithdrawDay)
    );
    let mut rich = staked_twice();
    rich.current_staking_pool.token_amount = u64::MAX;
    rich.pool_action.token_amount = u64::MAX;
    assert_eq!(
        request_withdraw(&mut rich, 10, party(9), 0, CLOSED_DAY),
        Err(ErrorCode::InvalidWithdrawDay)
    );
}

#[test]
fn request_of_another_asset_is_refused_first() {
    let mut ctx = staked_twice();
    let before = ctx.clone();
    assert_eq!(
        request_withdraw(&mut ctx, 30, party(8), 3, CLOSED_DAY),
        Err(ErrorCode::InvalidToken)
    );
    assert_eq!(request_withdraw(&mut ctx, 30, party(8), 3, OPEN_DAY), Err(ErrorCode::InvalidToken));
    assert_eq!(ctx, before);
}

#[test]
fn request_shrinks_the_first_slot() {
    let mut ctx = staked_twice();
    assert_eq!(perform_action(&mut ctx, 30, party(9), false, 3, OPEN_DAY), Ok(None));
    assert_eq!(ctx.lock_pool_action.slots, vec![slot_of(70, 1000), slot_of(50, 2000)]);
    assert_eq!(
        ctx.withdraw_pool_action,
        WithdrawRequest { requested_amount: 30, requested_time: OPEN_DAY }
    );
    assert_eq!(
        ctx.pool_action,
        PoolAction { token_amount: 120, start_time: 1000, update_time: OPEN_DAY }
    );
    assert_eq!(ctx.current_staking_pool, StakePool { token_mint: party(9), token_amount: 370 });
}

#[test]
fn request_is_logged_as_pending() {
    let mut ctx = staked_twice();
    assert_eq!(request_withdraw(&mut ctx, 30, party(9), 3, OPEN_DAY), Ok(()));
    assert_eq!(
        ctx.pool_entry,
        PoolActionEntry {
            staker: party(1),
            token_amount: 30,
            stake_action: false,
            time_stamp: OPEN_DAY,
            confirmed: false,
        }
    );
    assert_eq!(ctx.pool_count, Count { count: 3 });
    assert_eq!(ctx.token_interest, InterestRate { interest: 10 });
}

#[test]
fn request_that_uses_a_slot_up_vacates_it() {
    let mut ctx = staked_twice();
    assert_eq!(request_withdraw(&mut ctx, 100, party(9), 3, OPEN_DAY), Ok(()));
    assert_eq!(ctx.lock_pool_action.slots, vec![slot_of(0, 0), slot_of(50, 2000)]);
    assert_eq!(ctx.withdraw_pool_action.requested_amount, 100);
    assert_eq!(ctx.pool_action.token_amount, 50);
    assert_eq!(ctx.current_staking_pool.token_amount, 300);
}

#[test]
fn request_runs_into_the_second_slot() {
    let mut ctx = staked_twice();
    assert_eq!(request_withdraw(&mut ctx, 120, party(9), 3, OPEN_DAY), Ok(()));
    assert_eq!(ctx.lock_pool_action.slots, vec![slot_of(0, 0), slot_of(30, 2000)]);
    assert_eq!(ctx.withdraw_pool_action.requested_amount, 120);
    assert_eq!(ctx.pool_action.token_amount, 30);
}

#[test]
fn request_of_everything_vacates_every_slot() {
    let mut ctx = staked_twice();
    assert_eq!(request_withdraw(&mut ctx, 150, party(9), 3, OPEN_DAY), Ok(()));
    assert_eq!(ctx.lock_pool_action.slots, vec![slot_of(0, 0), slot_of(0, 0)]);
    assert_eq!(ctx.withdraw_pool_action.requested_amount, 150);
    assert_eq!(ctx.pool_action.token_amount, 0);
    assert_eq!(ctx.current_staking_pool.token_amount, 250);
}

#[test]
fn requests_add_up_in_the_queue() {
    let mut ctx = staked_twice();
    assert_eq!(request_withdraw(&mut ctx, 30, party(9), 3, OPEN_DAY), Ok(()));
    assert_eq!(request_withdraw(&mut ctx, 80, party(9), 4, OPEN_DAY + 10), Ok(()));
    assert_eq!(ctx.lock_pool_action.slots, vec![slot_of(0, 0), slot_of(40, 2000)]);
    assert_eq!(
        ctx.withdraw_pool_action,
        WithdrawRequest { requested_amount: 110, requested_time: OPEN_DAY + 10 }
    );
    assert_eq!(ctx.pool_action.token_amount, 40);
    assert_eq!(ctx.current_staking_pool.token_amount, 290);
}

#[test]
fn request_beyond_what_is_locked_is_refused() {
    let mut ctx = staked_twice();
    let before = ctx.clone();
    assert_eq!(
        request_withdraw(&mut ctx, 151, party(9), 3, OPEN_DAY),
        Err(ErrorCode::LockingPeriod)
    );
    assert_eq!(ctx, before);
    assert_eq!(
        perform_action(&mut ctx, 200, party(9), false, 3, OPEN_DAY),
        Err(ErrorCode::LockingPeriod)
    );
    assert_eq!(ctx, before);
}

#[test]
fn request_with_nothing_staked_is_refused() {
    let mut ctx = PerformAction::new(
        party(1),
        party(9),
        StakePool { token_mint: party(9), token_amount: 500 },
        InterestRate { interest: 10 },
    );
    assert_eq!(request_withdraw(&mut ctx, 1, party(9), 0, OPEN_DAY), Err(ErrorCode::LockingPeriod));
}

#[test]
fn request_beyond_the_pool_is_refused() {
    let mut ctx = staked_twice();
    ctx.current_staking_pool.token_amount = 10;
    let before = ctx.clone();
    assert_eq!(
        request_withdraw(&mut ctx, 50, party(9), 3, OPEN_DAY),
        Err(ErrorCode::NotEnoughToken)
    );
    assert_eq!(ctx, before);
}

#[test]
fn request_beyond_the_position_is_refused() {
    let mut ctx = PerformAction {
        staker: party(1),
        token_mint: party(9),
        current_staking_pool: StakePool { token_mint: party(9), token_amount: 500 },
        pool_action: PoolAction { token_amount: 0, start_time: 1000, update_time: 3000 },
        lock_pool_action: LockedPool { slots: vec![slot_of(0, 0)] },
        withdraw_pool_action: WithdrawRequest { requested_amount: 100, requested_time: 3000 },
        pool_entry: PoolActionEntry::default(),
        pool_count: Count { count: 2 },
        token_interest: InterestRate { interest: 10 },
    };
    let before = ctx.clone();
    assert_eq!(
        request_withdraw(&mut ctx, 50, party(9), 3, OPEN_DAY),
        Err(ErrorCode::NotEnoughToken)
    );
    assert_eq!(ctx, before);
}

#[test]
fn queue_counts_towards_the_amount_asked_for() {
    let mut ctx = staked_twice();
    ctx.withdraw_pool_action = WithdrawRequest { requested_amount: 60, requested_time: 3000 };
    ctx.pool_action.token_amount = 500;
    ctx.current_staking_pool.token_amount = 900;
    assert_eq!(request_withdraw(&mut ctx, 200, party(9), 3, OPEN_DAY), Ok(()));
    assert_eq!(ctx.lock_pool_action.slots, vec![slot_of(0, 0), slot_of(0, 0)]);
    assert_eq!(
        ctx.withdraw_pool_action,
        WithdrawRequest { requested_amount: 210, requested_time: OPEN_DAY }
    );
    assert_eq!(ctx.pool_action.token_amount, 300);
    assert_eq!(ctx.current_staking_pool.token_amount, 700);
}

#[test]
fn request_of_nothing_is_granted() {
    let mut ctx = staked_twice();
    assert_eq!(request_withdraw(&mut ctx, 0, party(9), 3, OPEN_DAY), Ok(()));
    assert_eq!(ctx.lock_pool_action.slots, vec![slot_of(100, 1000), slot_of(50, 2000)]);
    assert_eq!(
        ctx.withdraw_pool_action,
        WithdrawRequest { requested_amount: 0, requested_time: OPEN_DAY }
    );
    assert_eq!(ctx.pool_action.token_amount, 150);
    assert_eq!(ctx.pool_action.update_time, OPEN_DAY);
}

#[test]
fn first_action_may_be_a_request() {
    let mut ctx = PerformAction::new(
        party(1),
        party(9),
        StakePool { token_mint: party(9), token_amount: 0 },
        InterestRate { interest: 10 },
    );
    assert_eq!(request_withdraw(&mut ctx, 0, party(9), 1, OPEN_DAY), Ok(()));
    assert_eq!(
        ctx.pool_action,
        PoolAction { token_amount: 0, start_time: OPEN_DAY, update_time: OPEN_DAY }
    );
}

#[test]
fn request_adds_no_interest_after_years_at_the_highest_rate() {
    let mut ctx = staked_twice();
    ctx.token_interest = InterestRate { interest: 255 };
    let later = 1000 + 31_536_000 * 20;
    assert_ne!(staking_contract::day_of_week(later), 1);
    assert_eq!(request_withdraw(&mut ctx, 150, party(9), 3, later), Ok(()));
    assert_eq!(ctx.withdraw_pool_action.requested_amount, 150);
    assert_eq!(ctx.lock_pool_action.slots, vec![slot_of(0, 0), slot_of(0, 0)]);
    assert_eq!(request_withdraw(&mut ctx, 1, party(9), 4, later), Err(ErrorCode::NotEnoughToken));
}

#[test]
fn request_before_the_slot_started_draws_the_amount_alone() {
    let mut ctx = staked_twice();
    assert_ne!(staking_contract::day_of_week(-500_000), 1);
    assert_eq!(request_withdraw(&mut ctx, 120, party(9), 3, -500_000), Ok(()));
    assert_eq!(ctx.lock_pool_action.slots, vec![slot_of(0, 0), slot_of(30, 2000)]);
    assert_eq!(ctx.withdraw_pool_action.requested_amount, 120);
}

#[test]
fn request_fills_the_queue_to_the_largest_balance() {
    let mut ctx = staked_twice();
    ctx.withdraw_pool_action.requested_amount = u64::MAX - 30;
    assert_eq!(request_withdraw(&mut ctx, 30, party(9), 3, OPEN_DAY), Ok(()));
    assert_eq!(ctx.withdraw_pool_action.requested_amount, u64::MAX);
    assert_eq!(ctx.lock_pool_action.slots, vec![slot_of(70, 1000), slot_of(50, 2000)]);
}
