use chamber::address::Address;
use chamber::chamber::Chamber;
use chamber::chamber_market::ChamberMarket;
use chamber::cpi::ExternalOp;
use chamber::decimal::Decimal;
use chamber::error::ChamberError;
use chamber::processor::{
    begin_deposit_chamber, cancel_deposit_chamber, compute_deposit_plan, deposit_chamber,
    end_deposit_chamber, initialize_chamber, process_deposit_chamber, rebalance_reopen_chamber,
    rebalance_unwind_chamber, withdraw_chamber, Action,
};
use chamber::user_account::UserAccount;
use chamber::user_account_status::UserAccountStatus;

fn addr(tag: u8) -> Address {
    Address::new([tag; 32])
}

fn dec(v: u64) -> Decimal {
    Decimal::from_u64(v)
}

/// A chamber with leverage 3, volatile base, both decimal scales 1.
fn test_chamber() -> Chamber {
    let mut chamber = Chamber {
        strategy: chamber::chamber_strategy::ChamberStrategy::new(
            ChamberMarket::Tulip,
            &addr(1),
            &addr(2),
            3,
            true,
        ),
        vault: chamber::chamber_vault::ChamberVault::new(
            &addr(3),
            &addr(4),
            &addr(5),
            &addr(6),
            &addr(7),
            &addr(8),
            1,
            1,
        ),
        config: chamber::chamber_config::ChamberConfig::new(
            &addr(9),
            &addr(10),
            &addr(11),
            &addr(12),
            254,
            0,
        ),
    };
    let actions = initialize_chamber(
        &mut chamber,
        ChamberMarket::Tulip,
        &addr(1),
        &addr(2),
        3,
        true,
        &addr(3),
        &addr(4),
        &addr(5),
        &addr(6),
        &addr(7),
        &addr(8),
        1,
        1,
        &addr(9),
        &addr(10),
        &addr(11),
        &addr(12),
        254,
        0,
        &addr(13),
    );
    assert_eq!(
        actions,
        vec![
            Action::Farm(ExternalOp::CreateUserFarm { solfarm_vault_program: addr(13) }),
            Action::Farm(ExternalOp::CreateUserFarmObligation),
        ]
    );
    chamber
}

fn test_user() -> UserAccount {
    let mut user = UserAccount {
        chamber: addr(0),
        user: addr(0),
        shares: addr(0),
        status: UserAccountStatus::Ready,
        locked_base_amount: 0,
        locked_quote_amount: 0,
        locked_shares_amount: 0,
    };
    user.init(&addr(20), &addr(21), &addr(22));
    user
}

#[test]
fn initialize_sets_every_field() {
    let chamber = test_chamber();
    assert_eq!(chamber.strategy.leverage, 3);
    assert!(chamber.strategy.is_base_volatile);
    assert_eq!(chamber.strategy.farm, addr(1));
    assert_eq!(chamber.vault.base, addr(3));
    assert_eq!(chamber.vault.base_amount, 0);
    assert_eq!(chamber.vault.quote_amount, 0);
    assert_eq!(chamber.config.authority, addr(9));
    assert_eq!(chamber.config.authority_bump, 254);
}

#[test]
fn create_user_account_starts_ready() {
    let user = test_user();
    assert_eq!(user.chamber, addr(20));
    assert_eq!(user.user, addr(21));
    assert_eq!(user.shares, addr(22));
    assert_eq!(user.status, UserAccountStatus::Ready);
    assert_eq!(user.locked_base_amount, 0);
    assert_eq!(user.locked_quote_amount, 0);
    assert_eq!(user.locked_shares_amount, 0);
}

#[test]
fn deposit_plan_splits_and_issues_shares() {
    let chamber = test_chamber();
    // first deposit: 1000 base at price 1, no quote, empty pool
    let plan = compute_deposit_plan(&chamber, 1000, 0, &dec(1), &dec(1), 0).unwrap();
    assert_eq!(plan.user_total_value, dec(1000));
    assert_eq!(plan.base_borrow_amount, 1500);
    assert_eq!(plan.quote_borrow_amount, 500);
    assert_eq!(plan.user_shares, 1000);
}

#[test]
fn begin_deposit_locks_and_advances() {
    let chamber = test_chamber();
    let mut user = test_user();
    let actions = begin_deposit_chamber(&chamber, &mut user, 1000, 0, &dec(1), &dec(1), 0).unwrap();
    assert_eq!(
        actions,
        vec![
            Action::DebitBase { amount: 1000 },
            Action::DebitQuote { amount: 0 },
            Action::Farm(ExternalOp::DepositBorrowDual {
                coin_amount: 1000,
                pc_amount: 0,
                coin_borrow_amount: 1500,
                pc_borrow_amount: 500,
                obligation_index: 0,
            }),
        ]
    );
    assert_eq!(user.status, UserAccountStatus::BeginDeposit);
    assert_eq!(user.locked_base_amount, 1000);
    assert_eq!(user.locked_quote_amount, 0);
    assert_eq!(user.locked_shares_amount, 1000);
}

#[test]
fn zero_deposit_rejected_without_effect() {
    let chamber = test_chamber();
    let mut user = test_user();
    let before = user.clone();
    let r = begin_deposit_chamber(&chamber, &mut user, 0, 0, &dec(1), &dec(1), 0);
    assert_eq!(r, Err(ChamberError::InsufficientFunds));
    assert_eq!(user.status, before.status);
    assert_eq!(user.locked_base_amount, before.locked_base_amount);
    assert_eq!(user.locked_quote_amount, before.locked_quote_amount);
    assert_eq!(user.locked_shares_amount, before.locked_shares_amount);
}

#[test]
fn wrong_stage_rejected_without_effect() {
    let mut chamber = test_chamber();
    let mut user = test_user();
    // from Ready, the later stages are illegal and mutate nothing
    let r = process_deposit_chamber(&chamber, &mut user);
    assert_eq!(r, Err(ChamberError::InvalidUserAccountStatus));
    assert_eq!(user.status, UserAccountStatus::Ready);
    let r = end_deposit_chamber(&mut chamber, &mut user);
    assert_eq!(r, Err(ChamberError::InvalidUserAccountStatus));
    assert_eq!(user.status, UserAccountStatus::Ready);
    assert_eq!(user.locked_base_amount, 0);
    assert_eq!(chamber.vault.base_amount, 0);
    // from BeginDeposit, begin and end are illegal
    begin_deposit_chamber(&chamber, &mut user, 10, 10, &dec(1), &dec(1), 0).unwrap();
    let r = begin_deposit_chamber(&chamber, &mut user, 10, 10, &dec(1), &dec(1), 0);
    assert_eq!(r, Err(ChamberError::InvalidUserAccountStatus));
    let r = end_deposit_chamber(&mut chamber, &mut user);
    assert_eq!(r, Err(ChamberError::InvalidUserAccountStatus));
    assert_eq!(user.status, UserAccountStatus::BeginDeposit);
}

#[test]
fn staged_deposit_runs_the_full_cycle() {
    let mut chamber = test_chamber();
    let mut user = test_user();
    let a1 = begin_deposit_chamber(&chamber, &mut user, 600, 400, &dec(1), &dec(1), 0).unwrap();
    let a2 = process_deposit_chamber(&chamber, &mut user).unwrap();
    assert_eq!(
        a2,
        vec![
            Action::Farm(ExternalOp::SwapTokens { obligation_index: 0 }),
            Action::Farm(ExternalOp::AddLiquidity { obligation_index: 0 }),
        ]
    );
    assert_eq!(user.status, UserAccountStatus::ProcessDeposit);
    let a3 = end_deposit_chamber(&mut chamber, &mut user).unwrap();
    assert_eq!(
        a3,
        vec![
            Action::Farm(ExternalOp::StakeVault { nonce: 0, meta_nonce: 0, obligation_index: 0 }),
            Action::MintShares { amount: 1000 },
        ]
    );
    // the record is back at rest and the accumulators grew exactly once
    assert_eq!(user.status, UserAccountStatus::Ready);
    assert_eq!(user.locked_base_amount, 0);
    assert_eq!(user.locked_quote_amount, 0);
    assert_eq!(user.locked_shares_amount, 0);
    assert_eq!(chamber.vault.base_amount, 600);
    assert_eq!(chamber.vault.quote_amount, 400);
    // the single-request path produces the same actions and the same ledger
    let mut chamber2 = test_chamber();
    let user2 = test_user();
    let single = deposit_chamber(&mut chamber2, &user2, 600, 400, &dec(1), &dec(1), 0).unwrap();
    let staged: Vec<Action> =
        a1.into_iter().chain(a2.into_iter()).chain(a3.into_iter()).collect();
    assert_eq!(single, staged);
    assert_eq!(chamber2.vault.base_amount, chamber.vault.base_amount);
    assert_eq!(chamber2.vault.quote_amount, chamber.vault.quote_amount);
}

#[test]
fn accumulators_sum_completed_deposits() {
    let mut chamber = test_chamber();
    let user = test_user();
    for (b, q) in [(100u64, 7u64), (250, 0), (1, 93)] {
        deposit_chamber(&mut chamber, &user, b, q, &dec(1), &dec(1), 0).unwrap();
    }
    assert_eq!(chamber.vault.base_amount, 100 + 250 + 1);
    assert_eq!(chamber.vault.quote_amount, 7 + 93);
    // a failing request moves nothing: no double counting on retry
    let r = deposit_chamber(&mut chamber, &user, 0, 0, &dec(1), &dec(1), 0);
    assert_eq!(r, Err(ChamberError::InsufficientFunds));
    assert_eq!(chamber.vault.base_amount, 351);
    assert_eq!(chamber.vault.quote_amount, 100);
}

#[test]
fn accumulator_overflow_is_checked() {
    let mut chamber = test_chamber();
    chamber.vault.base_amount = u128::MAX;
    let user = test_user();
    let r = deposit_chamber(&mut chamber, &user, 1, 0, &dec(1), &dec(1), 0);
    assert_eq!(r, Err(ChamberError::MathOverflow));
    assert_eq!(chamber.vault.base_amount, u128::MAX);
    assert_eq!(chamber.vault.quote_amount, 0);
}

#[test]
fn accumulator_update_is_atomic() {
    // the base side fits but the quote side would overflow: neither moves
    let mut chamber = test_chamber();
    chamber.vault.quote_amount = u128::MAX;
    let r = chamber.vault.deposit(5, 1);
    assert_eq!(r, Err(ChamberError::MathOverflow));
    assert_eq!(chamber.vault.base_amount, 0);
    assert_eq!(chamber.vault.quote_amount, u128::MAX);
}

#[test]
fn largest_deposit_overflows_the_borrow_side() {
    // the whole u64 range at price 1: the volatile borrow target, one and a
    // half times the deposit, exceeds a u64 and the request fails whole
    let chamber = test_chamber();
    let mut user = test_user();
    let r = begin_deposit_chamber(&chamber, &mut user, u64::MAX, 0, &dec(1), &dec(1), 0);
    assert_eq!(r, Err(ChamberError::MathOverflow));
    assert_eq!(user.status, UserAccountStatus::Ready);
}

#[test]
fn pooled_value_prices_both_sides() {
    let mut chamber = test_chamber();
    chamber.vault.base_amount = 1000;
    chamber.vault.quote_amount = 300;
    chamber.vault.base_decimals = 2;
    // base worth 1000 * 3 / 2 = 1500, quote worth 300
    let v = chamber.vault.get_total_value(&dec(3), &dec(1)).unwrap();
    assert_eq!(v, 1800);
}

#[test]
fn withdraw_full_balance_credits_whole_pool() {
    let mut chamber = test_chamber();
    chamber.vault.base_amount = 1000;
    chamber.vault.quote_amount = 500;
    let user = test_user();
    let actions = withdraw_chamber(&chamber, &user, 100, 100, &addr(30), &addr(31)).unwrap();
    assert_eq!(
        actions,
        vec![
            Action::Farm(ExternalOp::UnstakeVault {
                meta_nonce: 0,
                nonce: 0,
                obligation_index: 0,
                withdraw_percent: 0,
                close_method: 0,
            }),
            Action::Farm(ExternalOp::RemoveLiquidity {
                obligation_index: 0,
                obligation_vault_nonce: 0,
            }),
            Action::Farm(ExternalOp::SwapToRepay { obligation_index: 0 }),
            Action::Farm(ExternalOp::RepayObligation {
                first_reserve: addr(30),
                second_reserve: addr(31),
                obligation_index: 0,
            }),
            Action::BurnShares { amount: 100 },
            Action::CreditBase { amount: 1000 },
            Action::CreditQuote { amount: 500 },
        ]
    );
}

#[test]
fn withdraw_partial_floors_never_more() {
    let mut chamber = test_chamber();
    chamber.vault.base_amount = 1000;
    chamber.vault.quote_amount = 500;
    let user = test_user();
    let actions = withdraw_chamber(&chamber, &user, 1, 3, &addr(30), &addr(31)).unwrap();
    assert_eq!(actions[5], Action::CreditBase { amount: 333 });
    assert_eq!(actions[6], Action::CreditQuote { amount: 166 });
}

#[test]
fn withdraw_rejects_zero_and_excess_shares() {
    let chamber = test_chamber();
    let user = test_user();
    let r = withdraw_chamber(&chamber, &user, 0, 100, &addr(30), &addr(31));
    assert_eq!(r, Err(ChamberError::InsufficientFunds));
    let r = withdraw_chamber(&chamber, &user, 101, 100, &addr(30), &addr(31));
    assert_eq!(r, Err(ChamberError::InsufficientFunds));
    let mut busy = test_user();
    busy.begin_deposit(1, 1, 1);
    let r = withdraw_chamber(&chamber, &busy, 10, 100, &addr(30), &addr(31));
    assert_eq!(r, Err(ChamberError::InvalidUserAccountStatus));
}

#[test]
fn cancel_returns_locked_funds_and_rests_the_record() {
    let chamber = test_chamber();
    // nothing in flight: nothing to cancel
    let mut user = test_user();
    let r = cancel_deposit_chamber(&chamber, &mut user, &addr(30), &addr(31));
    assert_eq!(r, Err(ChamberError::InvalidUserAccountStatus));
    // parked after the first stage: repay the borrow, credit the tokens back
    begin_deposit_chamber(&chamber, &mut user, 600, 400, &dec(1), &dec(1), 0).unwrap();
    let actions = cancel_deposit_chamber(&chamber, &mut user, &addr(30), &addr(31)).unwrap();
    assert_eq!(
        actions,
        vec![
            Action::Farm(ExternalOp::SwapToRepay { obligation_index: 0 }),
            Action::Farm(ExternalOp::RepayObligation {
                first_reserve: addr(30),
                second_reserve: addr(31),
                obligation_index: 0,
            }),
            Action::CreditBase { amount: 600 },
            Action::CreditQuote { amount: 400 },
        ]
    );
    assert_eq!(user.status, UserAccountStatus::Ready);
    assert_eq!(user.locked_base_amount, 0);
    assert_eq!(user.locked_quote_amount, 0);
    assert_eq!(user.locked_shares_amount, 0);
    // parked after the middle stage: the liquidity comes out of the pool first
    begin_deposit_chamber(&chamber, &mut user, 600, 400, &dec(1), &dec(1), 0).unwrap();
    process_deposit_chamber(&chamber, &mut user).unwrap();
    let actions = cancel_deposit_chamber(&chamber, &mut user, &addr(30), &addr(31)).unwrap();
    assert_eq!(actions.len(), 5);
    assert_eq!(
        actions[0],
        Action::Farm(ExternalOp::RemoveLiquidity { obligation_index: 0, obligation_vault_nonce: 0 })
    );
    assert_eq!(user.status, UserAccountStatus::Ready);
}

#[test]
fn rebalance_unwinds_all_then_reopens_from_live_balances() {
    let chamber = test_chamber();
    let unwind = rebalance_unwind_chamber(&chamber, &addr(30), &addr(31));
    assert_eq!(unwind.len(), 4);
    assert_eq!(
        unwind[0],
        Action::Farm(ExternalOp::UnstakeVault {
            meta_nonce: 0,
            nonce: 0,
            obligation_index: 0,
            withdraw_percent: 100,
            close_method: 0,
        })
    );
    // the reopen half re-derives the split from the freshly observed balances
    let reopen = rebalance_reopen_chamber(&chamber, 1000, 0, &dec(1), &dec(1)).unwrap();
    assert_eq!(
        reopen,
        vec![
            Action::Farm(ExternalOp::DepositBorrowDual {
                coin_amount: 1000,
                pc_amount: 0,
                coin_borrow_amount: 1500,
                pc_borrow_amount: 500,
                obligation_index: 0,
            }),
            Action::Farm(ExternalOp::SwapTokens { obligation_index: 0 }),
            Action::Farm(ExternalOp::AddLiquidity { obligation_index: 0 }),
            Action::Farm(ExternalOp::StakeVault { nonce: 0, meta_nonce: 0, obligation_index: 0 }),
        ]
    );
    // other balances, other split: the numbers are not reused
    let reopen = rebalance_reopen_chamber(&chamber, 500, 100, &dec(1), &dec(1)).unwrap();
    match &reopen[0] {
        Action::Farm(ExternalOp::DepositBorrowDual {
            coin_amount,
            pc_amount,
            coin_borrow_amount,
            pc_borrow_amount,
            ..
        }) => {
            assert_eq!(*coin_amount, 500);
            assert_eq!(*pc_amount, 100);
            assert_eq!(*coin_borrow_amount, 900);
            assert_eq!(*pc_borrow_amount, 300);
        }
        other => panic!("unexpected first action: {:?}", other),
    }
}

#[test]
fn later_deposit_shares_follow_pool_value() {
    let mut chamber = test_chamber();
    let user = test_user();
    // first deposit of value 1000 mints 1000 shares
    deposit_chamber(&mut chamber, &user, 1000, 0, &dec(1), &dec(1), 0).unwrap();
    // the pool now holds value 1000 against supply 1000: a deposit of value
    // 500 is worth 500 more shares
    let plan = compute_deposit_plan(&chamber, 500, 0, &dec(1), &dec(1), 1000).unwrap();
    assert_eq!(plan.user_shares, 500);
    // if pooled value doubled (price 2) while supply stayed, the same
    // deposit value buys half the shares: 500 value * 1000 / 2000
    let plan = compute_deposit_plan(&chamber, 250, 0, &dec(2), &dec(2), 1000).unwrap();
    assert_eq!(plan.user_total_value, dec(500));
    assert_eq!(plan.user_shares, 250);
}
