//! Token-side data of a chamber: holding accounts, oracles, decimal scales,
//! and the two accumulators of cumulative net deposits.

use crate::address::Address;
use crate::decimal::{s_add, s_div_whole, s_floor, s_mul_whole, Decimal};
use crate::error::ChamberError;
use vstd::prelude::*;

verus! {

/// Pooled token balances and addressing data of one chamber.
///
/// `base_amount` and `quote_amount` only grow, by checked addition, when a
/// deposit completes; they are never decremented in scope.
#[derive(Clone, Copy, Debug)]
pub struct ChamberVault {
    /// Base holding account; fixed at creation.
    pub base: Address,
    /// Quote holding account; fixed at creation.
    pub quote: Address,
    pub base_mint: Address,
    pub quote_mint: Address,
    pub base_oracle: Address,
    pub quote_oracle: Address,
    pub base_decimals: u64,
    pub quote_decimals: u64,
    /// Cumulative base deposits completed so far.
    pub base_amount: u128,
    /// Cumulative quote deposits completed so far.
    pub quote_amount: u128,
}

impl ChamberVault {
    pub fn new(
        base: &Address,
        quote: &Address,
        base_mint: &Address,
        quote_mint: &Address,
        base_oracle: &Address,
        quote_oracle: &Address,
        base_decimals: u64,
        quote_decimals: u64,
    ) -> (r: ChamberVault)
        ensures
            r == (ChamberVault {
                base: *base,
                quote: *quote,
                base_mint: *base_mint,
                quote_mint: *quote_mint,
                base_oracle: *base_oracle,
                quote_oracle: *quote_oracle,
                base_decimals,
                quote_decimals,
                base_amount: 0u128,
                quote_amount: 0u128,
            }),
    {
        ChamberVault {
            base: *base,
            quote: *quote,
            base_mint: *base_mint,
            quote_mint: *quote_mint,
            base_oracle: *base_oracle,
            quote_oracle: *quote_oracle,
            base_decimals,
            quote_decimals,
            base_amount: 0,
            quote_amount: 0,
        }
    }

    /// Whether one more completed deposit still fits the accumulators.
    pub open spec fn spec_deposit_fits(self, b: u64, q: u64) -> bool {
        self.base_amount + b <= u128::MAX && self.quote_amount + q <= u128::MAX
    }

    /// The vault after one completed deposit is accumulated.
    pub open spec fn spec_accumulate(self, b: u64, q: u64) -> ChamberVault {
        ChamberVault {
            base_amount: (self.base_amount + b) as u128,
            quote_amount: (self.quote_amount + q) as u128,
            ..self
        }
    }

    /// Record a completed deposit in the accumulators, by checked addition.
    /// On overflow nothing is recorded and the whole request fails.
    pub fn deposit(&mut self, deposit_base_amount: u64, deposit_quote_amount: u64) -> (r: Result<
        (),
        ChamberError,
    >)
        ensures
            old(self).spec_deposit_fits(deposit_base_amount, deposit_quote_amount) ==> {
                &&& r == Ok::<(), ChamberError>(())
                &&& *final(self) == old(self).spec_accumulate(
                    deposit_base_amount,
                    deposit_quote_amount,
                )
            },
            !old(self).spec_deposit_fits(deposit_base_amount, deposit_quote_amount) ==> {
                &&& r == Err::<(), ChamberError>(ChamberError::MathOverflow)
                &&& *final(self) == *old(self)
            },
    {
        let new_base = match self.base_amount.checked_add(deposit_base_amount as u128) {
            Some(v) => v,
            None => {
                return Err(ChamberError::MathOverflow);
            },
        };
        let new_quote = match self.quote_amount.checked_add(deposit_quote_amount as u128) {
            Some(v) => v,
            None => {
                return Err(ChamberError::MathOverflow);
            },
        };
        self.base_amount = new_base;
        self.quote_amount = new_quote;
        Ok(())
    }

    /// The pooled value the accumulators stand for at the given prices,
    /// floored to a whole token unit: `base_price * base_amount /
    /// base_decimals + quote_price * quote_amount / quote_decimals`.
    pub open spec fn spec_total_value(self, base_price: Decimal, quote_price: Decimal) -> Option<
        int,
    > {
        match s_mul_whole(base_price.scaled as int, self.base_amount as int) {
            Some(bp) => match s_div_whole(bp, self.base_decimals as int) {
                Some(bv) => match s_mul_whole(quote_price.scaled as int, self.quote_amount as int) {
                    Some(qp) => match s_div_whole(qp, self.quote_decimals as int) {
                        Some(qv) => match s_add(bv, qv) {
                            Some(t) => s_floor(t),
                            None => None,
                        },
                        None => None,
                    },
                    None => None,
                },
                None => None,
            },
            None => None,
        }
    }

    /// Pooled value of the accumulators at the given oracle prices, floored
    /// to a whole unit. Every arithmetic step is checked.
    pub fn get_total_value(&self, base_price: &Decimal, quote_price: &Decimal) -> (r: Result<
        u64,
        ChamberError,
    >)
        ensures
            match self.spec_total_value(*base_price, *quote_price) {
                Some(v) => r == Ok::<u64, ChamberError>(v as u64),
                None => r == Err::<u64, ChamberError>(ChamberError::MathOverflow),
            },
    {
        let base_value = base_price.try_mul_u128(self.base_amount)?.try_div_u64(
            self.base_decimals,
        )?;
        let quote_value = quote_price.try_mul_u128(self.quote_amount)?.try_div_u64(
            self.quote_decimals,
        )?;
        base_value.try_add(quote_value)?.try_floor_u64()
    }
}

/// Whether a whole sequence of completed deposits fits the accumulators,
/// each against the state the ones before it left.
pub open spec fn spec_deposits_fit(v: ChamberVault, deposits: Seq<(u64, u64)>) -> bool
    decreases deposits.len(),
{
    deposits.len() == 0 || (v.spec_deposit_fits(deposits[0].0, deposits[0].1) && spec_deposits_fit(
        v.spec_accumulate(deposits[0].0, deposits[0].1),
        deposits.drop_first(),
    ))
}

/// The vault after a sequence of completed deposits is accumulated in order.
pub open spec fn spec_apply_deposits(v: ChamberVault, deposits: Seq<(u64, u64)>) -> ChamberVault
    decreases deposits.len(),
{
    if deposits.len() == 0 {
        v
    } else {
        spec_apply_deposits(v.spec_accumulate(deposits[0].0, deposits[0].1), deposits.drop_first())
    }
}

/// Sum of the base amounts of a sequence of deposits.
pub open spec fn spec_sum_base(deposits: Seq<(u64, u64)>) -> int
    decreases deposits.len(),
{
    if deposits.len() == 0 {
        0
    } else {
        deposits[0].0 + spec_sum_base(deposits.drop_first())
    }
}

/// Sum of the quote amounts of a sequence of deposits.
pub open spec fn spec_sum_quote(deposits: Seq<(u64, u64)>) -> int
    decreases deposits.len(),
{
    if deposits.len() == 0 {
        0
    } else {
        deposits[0].1 + spec_sum_quote(deposits.drop_first())
    }
}

/// Accumulators drift from nothing: after any sequence of successful
/// completed deposits, each accumulator holds exactly its old value plus the
/// sum of that side's deposits, and nothing else of the vault moves.
pub proof fn lemma_accumulators_sum_deposits(v: ChamberVault, deposits: Seq<(u64, u64)>)
    requires
        spec_deposits_fit(v, deposits),
    ensures
        spec_apply_deposits(v, deposits).base_amount == v.base_amount + spec_sum_base(deposits),
        spec_apply_deposits(v, deposits).quote_amount == v.quote_amount + spec_sum_quote(deposits),
        spec_apply_deposits(v, deposits) == (ChamberVault {
            base_amount: spec_apply_deposits(v, deposits).base_amount,
            quote_amount: spec_apply_deposits(v, deposits).quote_amount,
            ..v
        }),
    decreases deposits.len(),
{
    if deposits.len() > 0 {
        lemma_accumulators_sum_deposits(
            v.spec_accumulate(deposits[0].0, deposits[0].1),
            deposits.drop_first(),
        );
    }
}

} // verus!
