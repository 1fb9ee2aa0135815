//! Request-level orchestration: each vault operation as a function from the
//! durable records and the request's inputs to the records' next state and
//! the ordered actions to perform.
//!
//! A request either fails with its first error and leaves every record
//! exactly as it was, or succeeds with the full ordered list of ledger
//! actions (token debits and credits, share mint and burn, external farm
//! calls) for the caller to carry out under the vault's signing authority.

use crate::address::Address;
use crate::allocator::{spec_split_borrow, split_borrow};
use crate::chamber::Chamber;
use crate::chamber_config::ChamberConfig;
use crate::chamber_market::ChamberMarket;
use crate::chamber_strategy::ChamberStrategy;
use crate::chamber_vault::ChamberVault;
use crate::cpi::ExternalOp;
use crate::decimal::{s_add, Decimal};
use crate::error::ChamberError;
use crate::shares::{compute_user_shares, pro_rata_share, spec_pro_rata, spec_user_shares};
use crate::user_account::UserAccount;
use crate::user_account_status::UserAccountStatus;
use crate::valuation::{spec_value_of, value_of};
use vstd::prelude::*;

verus! {

/// One ledger effect of a request, in the order the request performs them.
/// Debits move a user's tokens into the vault's holdings; credits move
/// vault holdings back to the user; farm actions are calls into the
/// external protocol, signed by the vault's derived authority.
#[derive(Clone, Debug, PartialEq, Eq)]
pub enum Action {
    DebitBase { amount: u64 },
    DebitQuote { amount: u64 },
    CreditBase { amount: u64 },
    CreditQuote { amount: u64 },
    MintShares { amount: u64 },
    BurnShares { amount: u64 },
    Farm(ExternalOp),
}

/// Everything the deposit math decides: the deposit's total value, the two
/// borrow amounts, and the shares the depositor is owed.
#[derive(Clone, Copy, Debug)]
pub struct DepositPlan {
    pub user_total_value: Decimal,
    pub base_borrow_amount: u64,
    pub quote_borrow_amount: u64,
    pub user_shares: u64,
}

/// The deposit math, end to end: the deposit's value at the oracle prices
/// (`spec_value_of` each side, then their sum), the borrow split at the
/// strategy's leverage, and the share count against the share supply and the
/// pooled value as it stands before this deposit takes effect. `None` where
/// any checked step fails.
pub open spec fn spec_deposit_plan(
    chamber: Chamber,
    base_amount: u64,
    quote_amount: u64,
    base_price: Decimal,
    quote_price: Decimal,
    shares_supply: u64,
) -> Option<(int, int, int, int)> {
    let volatile_price = if chamber.strategy.is_base_volatile {
        base_price
    } else {
        quote_price
    };
    let underlying_price = if chamber.strategy.is_base_volatile {
        quote_price
    } else {
        base_price
    };
    match spec_value_of(
        base_amount as int,
        base_price.scaled as int,
        chamber.vault.base_decimals as int,
    ) {
        Some(base_value) => match spec_value_of(
            quote_amount as int,
            quote_price.scaled as int,
            chamber.vault.quote_decimals as int,
        ) {
            Some(quote_value) => match s_add(base_value, quote_value) {
                Some(total) => match spec_split_borrow(
                    total,
                    chamber.strategy.leverage as int,
                    chamber.strategy.is_base_volatile,
                    volatile_price.scaled as int,
                    underlying_price.scaled as int,
                ) {
                    Some(borrows) => match chamber.vault.spec_total_value(
                        base_price,
                        quote_price,
                    ) {
                        Some(liquidity) => match spec_user_shares(
                            total,
                            shares_supply as int,
                            liquidity,
                        ) {
                            Some(shares) => Some((total, borrows.0, borrows.1, shares)),
                            None => None,
                        },
                        None => None,
                    },
                    None => None,
                },
                None => None,
            },
            None => None,
        },
        None => None,
    }
}

/// Work the deposit math out for a deposit of `base_amount` and
/// `quote_amount` at the given oracle prices: the deposit's total value, the
/// pseudo-delta-neutral borrow split, and the provisional share count
/// against the pre-deposit pooled value. Any checked-arithmetic failure is
/// `MathOverflow`.
pub fn compute_deposit_plan(
    chamber: &Chamber,
    base_amount: u64,
    quote_amount: u64,
    base_price: &Decimal,
    quote_price: &Decimal,
    shares_supply: u64,
) -> (r: Result<DepositPlan, ChamberError>)
    ensures
        match spec_deposit_plan(
            *chamber,
            base_amount,
            quote_amount,
            *base_price,
            *quote_price,
            shares_supply,
        ) {
            Some(p) => r matches Ok(plan) && plan.user_total_value.scaled == p.0
                && plan.base_borrow_amount == p.1 && plan.quote_borrow_amount == p.2
                && plan.user_shares == p.3,
            None => r == Err::<DepositPlan, ChamberError>(ChamberError::MathOverflow),
        },
{
    let base_value = value_of(base_amount, base_price, chamber.vault.base_decimals)?;
    let quote_value = value_of(quote_amount, quote_price, chamber.vault.quote_decimals)?;
    let user_total_value = base_value.try_add(quote_value)?;

    let (volatile_price, underlying_price) = if chamber.strategy.is_base_volatile {
        (base_price, quote_price)
    } else {
        (quote_price, base_price)
    };
    let (base_borrow_amount, quote_borrow_amount) = split_borrow(
        &user_total_value,
        chamber.strategy.leverage,
        chamber.strategy.is_base_volatile,
        volatile_price,
        underlying_price,
    )?;

    let chamber_total_liquidity = chamber.vault.get_total_value(base_price, quote_price)?;
    let user_shares = compute_user_shares(&user_total_value, shares_supply, chamber_total_liquidity)?;

    Ok(DepositPlan { user_total_value, base_borrow_amount, quote_borrow_amount, user_shares })
}

/// Actions of the first deposit stage: debit the deposited tokens into the
/// vault's holdings and deposit them as collateral, borrowing the split
/// amounts against them.
pub open spec fn spec_begin_deposit_actions(
    base_amount: u64,
    quote_amount: u64,
    base_borrow_amount: u64,
    quote_borrow_amount: u64,
) -> Seq<Action> {
    seq![
        Action::DebitBase { amount: base_amount },
        Action::DebitQuote { amount: quote_amount },
        Action::Farm(
            ExternalOp::DepositBorrowDual {
                coin_amount: base_amount,
                pc_amount: quote_amount,
                coin_borrow_amount: base_borrow_amount,
                pc_borrow_amount: quote_borrow_amount,
                obligation_index: 0u8,
            },
        ),
    ]
}

/// Actions of the middle deposit stage: swap the borrowed underlying into
/// the pair's trading asset and pair the assets into pool liquidity.
pub open spec fn spec_process_deposit_actions() -> Seq<Action> {
    seq![
        Action::Farm(ExternalOp::SwapTokens { obligation_index: 0u8 }),
        Action::Farm(ExternalOp::AddLiquidity { obligation_index: 0u8 }),
    ]
}

/// Actions of the final deposit stage: stake the pooled liquidity into the
/// farm and mint the depositor's shares.
pub open spec fn spec_end_deposit_actions(shares_amount: u64) -> Seq<Action> {
    seq![
        Action::Farm(
            ExternalOp::StakeVault { nonce: 0u8, meta_nonce: 0u8, obligation_index: 0u64 },
        ),
        Action::MintShares { amount: shares_amount },
    ]
}

/// Actions of the unwind half: unstake the farmed liquidity, remove it from
/// the pool, swap one side back, and repay the loan from the two reserves.
pub open spec fn spec_unwind_actions(
    withdraw_percent: u8,
    first_reserve: Address,
    second_reserve: Address,
) -> Seq<Action> {
    seq![
        Action::Farm(
            ExternalOp::UnstakeVault {
                meta_nonce: 0u8,
                nonce: 0u8,
                obligation_index: 0u8,
                withdraw_percent,
                close_method: 0u8,
            },
        ),
        Action::Farm(
            ExternalOp::RemoveLiquidity { obligation_index: 0u8, obligation_vault_nonce: 0u8 },
        ),
        Action::Farm(ExternalOp::SwapToRepay { obligation_index: 0u8 }),
        Action::Farm(
            ExternalOp::RepayObligation { first_reserve, second_reserve, obligation_index: 0u8 },
        ),
    ]
}

/// First stage of the three-stage deposit. From `Ready` only: debits the
/// user's tokens into the vault, deposits them as collateral and borrows the
/// split amounts, and parks the deposited amounts and the provisional share
/// count (computed against the pre-deposit pooled value) in the user record,
/// which advances to `BeginDeposit`. No shares are minted yet. A wrong
/// state, a worthless deposit, or an arithmetic failure leaves the record
/// untouched and performs nothing.
pub fn begin_deposit_chamber(
    chamber: &Chamber,
    user_account: &mut UserAccount,
    base_amount: u64,
    quote_amount: u64,
    base_price: &Decimal,
    quote_price: &Decimal,
    shares_supply: u64,
) -> (r: Result<Vec<Action>, ChamberError>)
    ensures
        old(user_account).status !is Ready ==> r == Err::<Vec<Action>, ChamberError>(
            ChamberError::InvalidUserAccountStatus,
        ) && *final(user_account) == *old(user_account),
        old(user_account).status is Ready && base_amount == 0 && quote_amount == 0 ==> r == Err::<
            Vec<Action>,
            ChamberError,
        >(ChamberError::InsufficientFunds) && *final(user_account) == *old(user_account),
        old(user_account).status is Ready && !(base_amount == 0 && quote_amount == 0) ==> match
            spec_deposit_plan(
            *chamber,
            base_amount,
            quote_amount,
            *base_price,
            *quote_price,
            shares_supply,
        ) {
            Some(p) => {
                &&& r matches Ok(actions) && actions@ == spec_begin_deposit_actions(
                    base_amount,
                    quote_amount,
                    p.1 as u64,
                    p.2 as u64,
                )
                &&& *final(user_account) == old(user_account).spec_begin_deposit(
                    base_amount,
                    quote_amount,
                    p.3 as u64,
                )
            },
            None => r == Err::<Vec<Action>, ChamberError>(ChamberError::MathOverflow)
                && *final(user_account) == *old(user_account),
        },
{
    user_account.assert_status(UserAccountStatus::Ready)?;
    if base_amount == 0 && quote_amount == 0 {
        return Err(ChamberError::InsufficientFunds);
    }
    let plan = compute_deposit_plan(
        chamber,
        base_amount,
        quote_amount,
        base_price,
        quote_price,
        shares_supply,
    )?;

    let mut actions: Vec<Action> = Vec::new();
    actions.push(Action::DebitBase { amount: base_amount });
    actions.push(Action::DebitQuote { amount: quote_amount });
    actions.push(
        Action::Farm(
            ExternalOp::DepositBorrowDual {
                coin_amount: base_amount,
                pc_amount: quote_amount,
                coin_borrow_amount: plan.base_borrow_amount,
                pc_borrow_amount: plan.quote_borrow_amount,
                obligation_index: 0,
            },
        ),
    );

    user_account.begin_deposit(base_amount, quote_amount, plan.user_shares);
    proof {
        assert(actions@ =~= spec_begin_deposit_actions(
            base_amount,
            quote_amount,
            plan.base_borrow_amount,
            plan.quote_borrow_amount,
        ));
    }
    Ok(actions)
}

/// Middle stage of the three-stage deposit. From `BeginDeposit` only: swaps
/// the borrowed underlying and pairs the assets into pool liquidity, and
/// advances the record to `ProcessDeposit`. Moves no locked amounts. From
/// any other state it fails and changes nothing.
pub fn process_deposit_chamber(chamber: &Chamber, user_account: &mut UserAccount) -> (r: Result<
    Vec<Action>,
    ChamberError,
>)
    ensures
        old(user_account).status !is BeginDeposit ==> r == Err::<Vec<Action>, ChamberError>(
            ChamberError::InvalidUserAccountStatus,
        ) && *final(user_account) == *old(user_account),
        old(user_account).status is BeginDeposit ==> (r matches Ok(actions) && actions@
            == spec_process_deposit_actions()
            && *final(user_account) == old(user_account).spec_process_deposit()),
{
    user_account.assert_status(UserAccountStatus::BeginDeposit)?;
    let mut actions: Vec<Action> = Vec::new();
    actions.push(Action::Farm(ExternalOp::SwapTokens { obligation_index: 0 }));
    actions.push(Action::Farm(ExternalOp::AddLiquidity { obligation_index: 0 }));
    user_account.process_deposit();
    proof {
        assert(actions@ =~= spec_process_deposit_actions());
    }
    Ok(actions)
}

/// Final stage of the three-stage deposit. From `ProcessDeposit` only:
/// stakes the pooled liquidity into the farm, mints the parked share count
/// to the user, adds the parked amounts to the vault's accumulators by
/// checked addition, clears the record and returns it to `Ready`. A wrong
/// state or an accumulator overflow leaves both records untouched.
pub fn end_deposit_chamber(chamber: &mut Chamber, user_account: &mut UserAccount) -> (r: Result<
    Vec<Action>,
    ChamberError,
>)
    ensures
        old(user_account).status !is ProcessDeposit ==> r == Err::<Vec<Action>, ChamberError>(
            ChamberError::InvalidUserAccountStatus,
        ) && *final(user_account) == *old(user_account) && *final(chamber) == *old(chamber),
        old(user_account).status is ProcessDeposit && !old(chamber).vault.spec_deposit_fits(
            old(user_account).locked_base_amount,
            old(user_account).locked_quote_amount,
        ) ==> r == Err::<Vec<Action>, ChamberError>(ChamberError::MathOverflow)
            && *final(user_account) == *old(user_account) && *final(chamber) == *old(chamber),
        old(user_account).status is ProcessDeposit && old(chamber).vault.spec_deposit_fits(
            old(user_account).locked_base_amount,
            old(user_account).locked_quote_amount,
        ) ==> {
            &&& r matches Ok(actions) && actions@ == spec_end_deposit_actions(
                old(user_account).locked_shares_amount,
            )
            &&& *final(user_account) == old(user_account).spec_end_deposit()
            &&& *final(chamber) == (Chamber {
                vault: old(chamber).vault.spec_accumulate(
                    old(user_account).locked_base_amount,
                    old(user_account).locked_quote_amount,
                ),
                ..*old(chamber)
            })
        },
{
    user_account.assert_status(UserAccountStatus::ProcessDeposit)?;

    let mut actions: Vec<Action> = Vec::new();
    actions.push(
        Action::Farm(ExternalOp::StakeVault { nonce: 0, meta_nonce: 0, obligation_index: 0 }),
    );
    actions.push(Action::MintShares { amount: user_account.locked_shares_amount });

    chamber.vault.deposit(user_account.locked_base_amount, user_account.locked_quote_amount)?;
    proof {
        assert(actions@ =~= spec_end_deposit_actions(old(user_account).locked_shares_amount));
    }
    user_account.end_deposit();
    Ok(actions)
}

/// The single-request deposit: the three stages' checks, math and actions in
/// one pass, used when every external account fits one atomic request. The
/// user record never leaves `Ready` and parks nothing; the shares are minted
/// and the accumulators grow in the same request. Its actions are exactly
/// the three stages' actions in order, and the ledger it leaves is the
/// ledger the staged protocol leaves.
pub fn deposit_chamber(
    chamber: &mut Chamber,
    user_account: &UserAccount,
    base_amount: u64,
    quote_amount: u64,
    base_price: &Decimal,
    quote_price: &Decimal,
    shares_supply: u64,
) -> (r: Result<Vec<Action>, ChamberError>)
    ensures
        user_account.status !is Ready ==> r == Err::<Vec<Action>, ChamberError>(
            ChamberError::InvalidUserAccountStatus,
        ) && *final(chamber) == *old(chamber),
        user_account.status is Ready && base_amount == 0 && quote_amount == 0 ==> r == Err::<
            Vec<Action>,
            ChamberError,
        >(ChamberError::InsufficientFunds) && *final(chamber) == *old(chamber),
        user_account.status is Ready && !(base_amount == 0 && quote_amount == 0) ==> match
            spec_deposit_plan(
            *old(chamber),
            base_amount,
            quote_amount,
            *base_price,
            *quote_price,
            shares_supply,
        ) {
            Some(p) => {
                &&& old(chamber).vault.spec_deposit_fits(base_amount, quote_amount) ==> {
                    &&& r matches Ok(actions) && actions@ == spec_begin_deposit_actions(
                        base_amount,
                        quote_amount,
                        p.1 as u64,
                        p.2 as u64,
                    ) + spec_process_deposit_actions() + spec_end_deposit_actions(p.3 as u64)
                    &&& *final(chamber) == (Chamber {
                        vault: old(chamber).vault.spec_accumulate(base_amount, quote_amount),
                        ..*old(chamber)
                    })
                }
                &&& !old(chamber).vault.spec_deposit_fits(base_amount, quote_amount) ==> r == Err::<
                    Vec<Action>,
                    ChamberError,
                >(ChamberError::MathOverflow) && *final(chamber) == *old(chamber)
            },
            None => r == Err::<Vec<Action>, ChamberError>(ChamberError::MathOverflow)
                && *final(chamber) == *old(chamber),
        },
{
    user_account.assert_status(UserAccountStatus::Ready)?;
    if base_amount == 0 && quote_amount == 0 {
        return Err(ChamberError::InsufficientFunds);
    }
    let plan = compute_deposit_plan(
        chamber,
        base_amount,
        quote_amount,
        base_price,
        quote_price,
        shares_supply,
    )?;
    chamber.vault.deposit(base_amount, quote_amount)?;

    let mut actions: Vec<Action> = Vec::new();
    actions.push(Action::DebitBase { amount: base_amount });
    actions.push(Action::DebitQuote { amount: quote_amount });
    actions.push(
        Action::Farm(
            ExternalOp::DepositBorrowDual {
                coin_amount: base_amount,
                pc_amount: quote_amount,
                coin_borrow_amount: plan.base_borrow_amount,
                pc_borrow_amount: plan.quote_borrow_amount,
                obligation_index: 0,
            },
        ),
    );
    actions.push(Action::Farm(ExternalOp::SwapTokens { obligation_index: 0 }));
    actions.push(Action::Farm(ExternalOp::AddLiquidity { obligation_index: 0 }));
    actions.push(
        Action::Farm(ExternalOp::StakeVault { nonce: 0, meta_nonce: 0, obligation_index: 0 }),
    );
    actions.push(Action::MintShares { amount: plan.user_shares });
    proof {
        assert(actions@ =~= spec_begin_deposit_actions(
            base_amount,
            quote_amount,
            plan.base_borrow_amount,
            plan.quote_borrow_amount,
        ) + spec_process_deposit_actions() + spec_end_deposit_actions(plan.user_shares));
    }
    Ok(actions)
}

/// A single-request deposit and the staged protocol leave the same user
/// record: the staged path's three transitions compose back to the untouched
/// record the single-request path keeps, for any record at rest. The rest of
/// the equivalence is stated where it belongs: `deposit_chamber` ensures its
/// actions are exactly the three stages' actions concatenated and its
/// accumulator effect is the same one `spec_accumulate` step the final stage
/// applies.
pub proof fn lemma_single_request_deposit_matches_staged(
    user_account: UserAccount,
    base_amount: u64,
    quote_amount: u64,
    shares_amount: u64,
)
    requires
        user_account.wf(),
        user_account.status is Ready,
    ensures
        user_account.spec_begin_deposit(
            base_amount,
            quote_amount,
            shares_amount,
        ).spec_process_deposit().spec_end_deposit() == user_account,
{
}

/// Actions that compensate a deposit parked after its first stage: the
/// borrow is swapped back and repaid from the two reserves, and the locked
/// tokens return to the user.
pub open spec fn spec_cancel_from_begin_actions(
    locked_base: u64,
    locked_quote: u64,
    first_reserve: Address,
    second_reserve: Address,
) -> Seq<Action> {
    seq![
        Action::Farm(ExternalOp::SwapToRepay { obligation_index: 0u8 }),
        Action::Farm(
            ExternalOp::RepayObligation { first_reserve, second_reserve, obligation_index: 0u8 },
        ),
        Action::CreditBase { amount: locked_base },
        Action::CreditQuote { amount: locked_quote },
    ]
}

/// Actions that compensate a deposit parked after its middle stage: the
/// paired liquidity comes out of the pool first, then the borrow is repaid
/// and the locked tokens return to the user.
pub open spec fn spec_cancel_from_process_actions(
    locked_base: u64,
    locked_quote: u64,
    first_reserve: Address,
    second_reserve: Address,
) -> Seq<Action> {
    seq![
        Action::Farm(
            ExternalOp::RemoveLiquidity { obligation_index: 0u8, obligation_vault_nonce: 0u8 },
        ),
    ] + spec_cancel_from_begin_actions(locked_base, locked_quote, first_reserve, second_reserve)
}

/// Compensate a deposit parked in `BeginDeposit` or `ProcessDeposit`: undo
/// whatever the completed stages committed into the external position,
/// return the locked tokens to the user, and put the record back at `Ready`
/// with nothing in flight. No shares were minted for a parked deposit and
/// none are burnt; the accumulators never saw it and do not move. A record
/// at `Ready` has nothing to cancel and is left untouched.
///
/// Whether a parked deposit must be driven forward by resubmission or may be
/// compensated is a protocol policy decision; this operation makes the
/// compensating path explicit, so no deposit is parked forever.
pub fn cancel_deposit_chamber(
    chamber: &Chamber,
    user_account: &mut UserAccount,
    first_reserve: &Address,
    second_reserve: &Address,
) -> (r: Result<Vec<Action>, ChamberError>)
    ensures
        old(user_account).status is Ready ==> r == Err::<Vec<Action>, ChamberError>(
            ChamberError::InvalidUserAccountStatus,
        ) && *final(user_account) == *old(user_account),
        old(user_account).status is BeginDeposit ==> (r matches Ok(actions) && actions@
            == spec_cancel_from_begin_actions(
            old(user_account).locked_base_amount,
            old(user_account).locked_quote_amount,
            *first_reserve,
            *second_reserve,
        ) && *final(user_account) == old(user_account).spec_end_deposit()),
        old(user_account).status is ProcessDeposit ==> (r matches Ok(actions) && actions@
            == spec_cancel_from_process_actions(
            old(user_account).locked_base_amount,
            old(user_account).locked_quote_amount,
            *first_reserve,
            *second_reserve,
        ) && *final(user_account) == old(user_account).spec_end_deposit()),
{
    let mut actions: Vec<Action> = Vec::new();
    match user_account.status {
        UserAccountStatus::Ready => {
            return Err(ChamberError::InvalidUserAccountStatus);
        },
        UserAccountStatus::BeginDeposit => {},
        UserAccountStatus::ProcessDeposit => {
            actions.push(
                Action::Farm(
                    ExternalOp::RemoveLiquidity { obligation_index: 0, obligation_vault_nonce: 0 },
                ),
            );
        },
    }
    actions.push(Action::Farm(ExternalOp::SwapToRepay { obligation_index: 0 }));
    actions.push(
        Action::Farm(
            ExternalOp::RepayObligation {
                first_reserve: *first_reserve,
                second_reserve: *second_reserve,
                obligation_index: 0,
            },
        ),
    );
    actions.push(Action::CreditBase { amount: user_account.locked_base_amount });
    actions.push(Action::CreditQuote { amount: user_account.locked_quote_amount });
    proof {
        if old(user_account).status is BeginDeposit {
            assert(actions@ =~= spec_cancel_from_begin_actions(
                old(user_account).locked_base_amount,
                old(user_account).locked_quote_amount,
                *first_reserve,
                *second_reserve,
            ));
        } else {
            assert(actions@ =~= spec_cancel_from_process_actions(
                old(user_account).locked_base_amount,
                old(user_account).locked_quote_amount,
                *first_reserve,
                *second_reserve,
            ));
        }
    }
    user_account.end_deposit();
    Ok(actions)
}

/// Withdrawal: the unwind half alone, driven by the user's share count.
/// From `Ready` only: unwinds the position, burns the withdrawn shares, and
/// credits the user their pro-rata slice of each pooled accumulator, floored.
/// Withdrawing nothing, or more shares than exist, is `InsufficientFunds`; a
/// slice beyond the representable range is `MathOverflow`; nothing is
/// mutated here, and the accumulators move only through deposit completion.
pub fn withdraw_chamber(
    chamber: &Chamber,
    user_account: &UserAccount,
    shares_amount: u64,
    shares_supply: u64,
    first_reserve: &Address,
    second_reserve: &Address,
) -> (r: Result<Vec<Action>, ChamberError>)
    ensures
        user_account.status !is Ready ==> r == Err::<Vec<Action>, ChamberError>(
            ChamberError::InvalidUserAccountStatus,
        ),
        user_account.status is Ready && (shares_amount == 0 || shares_amount > shares_supply)
            ==> r == Err::<Vec<Action>, ChamberError>(ChamberError::InsufficientFunds),
        user_account.status is Ready && 0 < shares_amount <= shares_supply ==> {
            let base_out = spec_pro_rata(
                chamber.vault.base_amount as int,
                shares_amount as int,
                shares_supply as int,
            );
            let quote_out = spec_pro_rata(
                chamber.vault.quote_amount as int,
                shares_amount as int,
                shares_supply as int,
            );
            &&& (base_out <= u64::MAX && quote_out <= u64::MAX) ==> (r matches Ok(actions)
                && actions@ == spec_unwind_actions(0u8, *first_reserve, *second_reserve) + seq![
                (Action::BurnShares { amount: shares_amount }),
                (Action::CreditBase { amount: base_out as u64 }),
                (Action::CreditQuote { amount: quote_out as u64 }),
            ])
            &&& !(base_out <= u64::MAX && quote_out <= u64::MAX) ==> r == Err::<
                Vec<Action>,
                ChamberError,
            >(ChamberError::MathOverflow)
        },
{
    user_account.assert_status(UserAccountStatus::Ready)?;
    if shares_amount == 0 || shares_amount > shares_supply {
        return Err(ChamberError::InsufficientFunds);
    }
    let base_out = pro_rata_share(chamber.vault.base_amount, shares_amount, shares_supply)?;
    let quote_out = pro_rata_share(chamber.vault.quote_amount, shares_amount, shares_supply)?;

    let mut actions: Vec<Action> = Vec::new();
    actions.push(
        Action::Farm(
            ExternalOp::UnstakeVault {
                meta_nonce: 0,
                nonce: 0,
                obligation_index: 0,
                withdraw_percent: 0,
                close_method: 0,
            },
        ),
    );
    actions.push(
        Action::Farm(ExternalOp::RemoveLiquidity { obligation_index: 0, obligation_vault_nonce: 0 }),
    );
    actions.push(Action::Farm(ExternalOp::SwapToRepay { obligation_index: 0 }));
    actions.push(
        Action::Farm(
            ExternalOp::RepayObligation {
                first_reserve: *first_reserve,
                second_reserve: *second_reserve,
                obligation_index: 0,
            },
        ),
    );
    actions.push(Action::BurnShares { amount: shares_amount });
    actions.push(Action::CreditBase { amount: base_out });
    actions.push(Action::CreditQuote { amount: quote_out });
    proof {
        assert(actions@ =~= spec_unwind_actions(0u8, *first_reserve, *second_reserve) + seq![
            (Action::BurnShares { amount: shares_amount }),
            (Action::CreditBase { amount: base_out }),
            (Action::CreditQuote { amount: quote_out }),
        ]);
    }
    Ok(actions)
}

/// First half of a rebalance: drain the whole position (all of it, hence a
/// withdraw percentage of one hundred) back into the vault's own holdings.
/// Touches no user record and no accumulator; callable from any state.
pub fn rebalance_unwind_chamber(
    chamber: &Chamber,
    first_reserve: &Address,
    second_reserve: &Address,
) -> (r: Vec<Action>)
    ensures
        r@ == spec_unwind_actions(100u8, *first_reserve, *second_reserve),
{
    let mut actions: Vec<Action> = Vec::new();
    actions.push(
        Action::Farm(
            ExternalOp::UnstakeVault {
                meta_nonce: 0,
                nonce: 0,
                obligation_index: 0,
                withdraw_percent: 100,
                close_method: 0,
            },
        ),
    );
    actions.push(
        Action::Farm(ExternalOp::RemoveLiquidity { obligation_index: 0, obligation_vault_nonce: 0 }),
    );
    actions.push(Action::Farm(ExternalOp::SwapToRepay { obligation_index: 0 }));
    actions.push(
        Action::Farm(
            ExternalOp::RepayObligation {
                first_reserve: *first_reserve,
                second_reserve: *second_reserve,
                obligation_index: 0,
            },
        ),
    );
    proof {
        assert(actions@ =~= spec_unwind_actions(100u8, *first_reserve, *second_reserve));
    }
    actions
}

/// Second half of a rebalance: redeploy everything the unwind left in the
/// vault's holdings, as one full deposit of the freshly observed balances.
/// The leverage split is re-derived from those live post-unwind balances,
/// never from stale pre-unwind numbers: price movement during the unwind
/// changes the correct split.
pub fn rebalance_reopen_chamber(
    chamber: &Chamber,
    base_amount: u64,
    quote_amount: u64,
    base_price: &Decimal,
    quote_price: &Decimal,
) -> (r: Result<Vec<Action>, ChamberError>)
    ensures
        match spec_rebalance_value_and_split(
            *chamber,
            base_amount,
            quote_amount,
            *base_price,
            *quote_price,
        ) {
            Some(borrows) => r matches Ok(actions) && actions@ == seq![
                (Action::Farm(
                    ExternalOp::DepositBorrowDual {
                        coin_amount: base_amount,
                        pc_amount: quote_amount,
                        coin_borrow_amount: borrows.0 as u64,
                        pc_borrow_amount: borrows.1 as u64,
                        obligation_index: 0u8,
                    },
                )),
                (Action::Farm(ExternalOp::SwapTokens { obligation_index: 0u8 })),
                (Action::Farm(ExternalOp::AddLiquidity { obligation_index: 0u8 })),
                (Action::Farm(
                    ExternalOp::StakeVault { nonce: 0u8, meta_nonce: 0u8, obligation_index: 0u64 },
                )),
            ],
            None => r == Err::<Vec<Action>, ChamberError>(ChamberError::MathOverflow),
        },
{
    let base_value = value_of(base_amount, base_price, chamber.vault.base_decimals)?;
    let quote_value = value_of(quote_amount, quote_price, chamber.vault.quote_decimals)?;
    let chamber_total_value = base_value.try_add(quote_value)?;

    let (volatile_price, underlying_price) = if chamber.strategy.is_base_volatile {
        (base_price, quote_price)
    } else {
        (quote_price, base_price)
    };
    let (base_borrow_amount, quote_borrow_amount) = split_borrow(
        &chamber_total_value,
        chamber.strategy.leverage,
        chamber.strategy.is_base_volatile,
        volatile_price,
        underlying_price,
    )?;

    let mut actions: Vec<Action> = Vec::new();
    actions.push(
        Action::Farm(
            ExternalOp::DepositBorrowDual {
                coin_amount: base_amount,
                pc_amount: quote_amount,
                coin_borrow_amount: base_borrow_amount,
                pc_borrow_amount: quote_borrow_amount,
                obligation_index: 0,
            },
        ),
    );
    actions.push(Action::Farm(ExternalOp::SwapTokens { obligation_index: 0 }));
    actions.push(Action::Farm(ExternalOp::AddLiquidity { obligation_index: 0 }));
    actions.push(
        Action::Farm(ExternalOp::StakeVault { nonce: 0, meta_nonce: 0, obligation_index: 0 }),
    );
    Ok(actions)
}

/// Stand a new chamber up: record the strategy (its leverage validated
/// here, at creation, as at least two), the token-side data with both
/// accumulators at zero, and the addressing config, and register the
/// strategy with the external protocol by creating its farm-side user
/// account and obligation. The holding accounts, the shares mint and the
/// funding of the authority are the caller's account plumbing.
pub fn initialize_chamber(
    chamber: &mut Chamber,
    market: ChamberMarket,
    farm: &Address,
    farm_program: &Address,
    leverage: u64,
    is_base_volatile: bool,
    base_token: &Address,
    quote_token: &Address,
    base_mint: &Address,
    quote_mint: &Address,
    base_oracle: &Address,
    quote_oracle: &Address,
    base_decimals: u64,
    quote_decimals: u64,
    authority: &Address,
    owner: &Address,
    fee_manager: &Address,
    shares_mint: &Address,
    authority_bump: u8,
    chamber_nonce: u8,
    solfarm_vault_program: &Address,
) -> (r: Vec<Action>)
    requires
        leverage >= 2,
    ensures
        *final(chamber) == (Chamber {
            strategy: (ChamberStrategy {
                market,
                farm: *farm,
                farm_program: *farm_program,
                leverage,
                is_base_volatile,
            }),
            vault: (ChamberVault {
                base: *base_token,
                quote: *quote_token,
                base_mint: *base_mint,
                quote_mint: *quote_mint,
                base_oracle: *base_oracle,
                quote_oracle: *quote_oracle,
                base_decimals,
                quote_decimals,
                base_amount: 0u128,
                quote_amount: 0u128,
            }),
            config: (ChamberConfig {
                authority: *authority,
                owner: *owner,
                fee_manager: *fee_manager,
                shares_mint: *shares_mint,
                authority_bump,
                nonce: chamber_nonce,
            }),
        }),
        final(chamber).wf(),
        r@ == seq![
            (Action::Farm(ExternalOp::CreateUserFarm { solfarm_vault_program: *solfarm_vault_program })),
            (Action::Farm(ExternalOp::CreateUserFarmObligation)),
        ],
{
    let strategy = ChamberStrategy::new(market, farm, farm_program, leverage, is_base_volatile);
    let vault = ChamberVault::new(
        base_token,
        quote_token,
        base_mint,
        quote_mint,
        base_oracle,
        quote_oracle,
        base_decimals,
        quote_decimals,
    );
    let config = ChamberConfig::new(
        authority,
        owner,
        fee_manager,
        shares_mint,
        authority_bump,
        chamber_nonce,
    );
    chamber.init(&strategy, &vault, &config);

    let mut actions: Vec<Action> = Vec::new();
    actions.push(
        Action::Farm(ExternalOp::CreateUserFarm { solfarm_vault_program: *solfarm_vault_program }),
    );
    actions.push(Action::Farm(ExternalOp::CreateUserFarmObligation));
    proof {
        assert(actions@ =~= seq![
            (Action::Farm(
                ExternalOp::CreateUserFarm { solfarm_vault_program: *solfarm_vault_program },
            )),
            (Action::Farm(ExternalOp::CreateUserFarmObligation)),
        ]);
    }
    actions
}

/// The rebalance math: the vault's live holdings valued at the oracle
/// prices, then the borrow split at the strategy's leverage. `None` where a
/// checked step fails.
pub open spec fn spec_rebalance_value_and_split(
    chamber: Chamber,
    base_amount: u64,
    quote_amount: u64,
    base_price: Decimal,
    quote_price: Decimal,
) -> Option<(int, int)> {
    let volatile_price = if chamber.strategy.is_base_volatile {
        base_price
    } else {
        quote_price
    };
    let underlying_price = if chamber.strategy.is_base_volatile {
        quote_price
    } else {
        base_price
    };
    match spec_value_of(
        base_amount as int,
        base_price.scaled as int,
        chamber.vault.base_decimals as int,
    ) {
        Some(base_value) => match spec_value_of(
            quote_amount as int,
            quote_price.scaled as int,
            chamber.vault.quote_decimals as int,
        ) {
            Some(quote_value) => match s_add(base_value, quote_value) {
                Some(total) => spec_split_borrow(
                    total,
                    chamber.strategy.leverage as int,
                    chamber.strategy.is_base_volatile,
                    volatile_price.scaled as int,
                    underlying_price.scaled as int,
                ),
                None => None,
            },
            None => None,
        },
        None => None,
    }
}

} // verus!
