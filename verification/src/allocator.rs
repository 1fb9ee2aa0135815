//! Leverage allocator: splits a deposit's value into the two borrow amounts.
//!
//! The policy is fixed: of the leveraged exposure `total_value * (leverage -
//! 1)`, three quarters are borrowed on the pair's volatile side and one
//! quarter on its underlying side, each converted to raw token units at that
//! side's price and floored. Three parts of leveraged volatile exposure
//! against one part of underlying exposure form the pseudo-delta-neutral
//! paired position.

use crate::decimal::{s_div_to_whole, s_div_whole, s_mul_whole, Decimal};
use crate::error::ChamberError;
use vstd::arithmetic::div_mod::{lemma_fundamental_div_mod, lemma_mod_bound};
use vstd::prelude::*;

verus! {

/// Borrow amount of one side: `total * num / 4 * lev_m1 / price`, floored to
/// raw token units; `None` where a checked step fails.
pub open spec fn spec_borrow_side(total: int, lev_m1: int, num: int, price: int) -> Option<int> {
    match s_mul_whole(total, num) {
        Some(a) => match s_div_whole(a, 4) {
            Some(b) => match s_mul_whole(b, lev_m1) {
                Some(c) => s_div_to_whole(c, price),
                None => None,
            },
            None => None,
        },
        None => None,
    }
}

/// The (base, quote) borrow amounts of a deposit worth `total` (scaled), or
/// `None` where leverage is below one (an unsigned underflow on `leverage -
/// 1`) or a checked step fails. `is_base_volatile` selects which of base and
/// quote takes the volatile (three-quarter) side.
pub open spec fn spec_split_borrow(
    total: int,
    leverage: int,
    is_base_volatile: bool,
    volatile_price: int,
    underlying_price: int,
) -> Option<(int, int)> {
    if leverage < 1 {
        None
    } else {
        match (
            spec_borrow_side(total, leverage - 1, 3, volatile_price),
            spec_borrow_side(total, leverage - 1, 1, underlying_price),
        ) {
            (Some(v), Some(u)) => Some(
                if is_base_volatile {
                    (v, u)
                } else {
                    (u, v)
                },
            ),
            _ => None,
        }
    }
}

/// Compute the (base, quote) borrow amounts for a deposit worth
/// `total_value`. The volatile-side target is `total_value * 3/4 * (leverage
/// - 1) / volatile_price`, the underlying-side target `total_value * 1/4 *
/// (leverage - 1) / underlying_price`, each floored to an integer;
/// `is_base_volatile` maps the two onto (base, quote). Leverage below one
/// and any checked-arithmetic failure are reported as `MathOverflow`; this
/// allocator does not re-validate the vault-creation bound `leverage >= 2`.
pub fn split_borrow(
    total_value: &Decimal,
    leverage: u64,
    is_base_volatile: bool,
    volatile_price: &Decimal,
    underlying_price: &Decimal,
) -> (r: Result<(u64, u64), ChamberError>)
    ensures
        match spec_split_borrow(
            total_value.scaled as int,
            leverage as int,
            is_base_volatile,
            volatile_price.scaled as int,
            underlying_price.scaled as int,
        ) {
            Some(p) => r == Ok::<(u64, u64), ChamberError>((p.0 as u64, p.1 as u64)),
            None => r == Err::<(u64, u64), ChamberError>(ChamberError::MathOverflow),
        },
{
    let lev_m1 = match leverage.checked_sub(1) {
        Some(v) => v,
        None => {
            return Err(ChamberError::MathOverflow);
        },
    };

    let volatile_borrow_amount = total_value
        .try_mul_u64(3)?
        .try_div_u64(4)?
        .try_mul_u64(lev_m1)?
        .div_to_u64(*volatile_price)?;

    let underlying_borrow_amount = total_value
        .try_mul_u64(1)?
        .try_div_u64(4)?
        .try_mul_u64(lev_m1)?
        .div_to_u64(*underlying_price)?;

    if is_base_volatile {
        Ok((volatile_borrow_amount, underlying_borrow_amount))
    } else {
        Ok((underlying_borrow_amount, volatile_borrow_amount))
    }
}

/// A borrow amount never rounds up: weighted back by its side's price, it
/// covers at most the side's leveraged target value `total * num / 4 *
/// (leverage - 1)`, and falls short of it by less than one token's price.
pub proof fn lemma_borrow_side_floors(total: int, lev_m1: int, num: int, price: int)
    requires
        0 < price,
        0 <= total,
        0 <= num,
        0 <= lev_m1,
        spec_borrow_side(total, lev_m1, num, price) is Some,
    ensures
        ({
            let b = spec_borrow_side(total, lev_m1, num, price)->Some_0;
            let target = ((total * num) / 4) * lev_m1;
            b * price <= target < (b + 1) * price
        }),
{
    let target = ((total * num) / 4) * lev_m1;
    let b = target / price;
    lemma_fundamental_div_mod(target, price);
    lemma_mod_bound(target, price);
    assert(b * price <= target && target < (b + 1) * price) by (nonlinear_arith)
        requires
            target == price * b + target % price,
            0 <= target % price < price,
    ;
}

/// Swapping `is_base_volatile` with the same inputs swaps which side
/// receives the volatile and which the underlying borrow: the split is
/// symmetric in the pair.
pub proof fn lemma_split_symmetry(
    total: int,
    leverage: int,
    volatile_price: int,
    underlying_price: int,
)
    ensures
        match (
            spec_split_borrow(total, leverage, true, volatile_price, underlying_price),
            spec_split_borrow(total, leverage, false, volatile_price, underlying_price),
        ) {
            (Some(a), Some(b)) => a.0 == b.1 && a.1 == b.0,
            (None, None) => true,
            _ => false,
        },
{
}

} // verus!
