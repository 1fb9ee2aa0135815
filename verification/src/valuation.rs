//! Fixed-point valuation of raw token amounts.

use crate::decimal::{s_div_whole, s_mul_whole, Decimal};
use crate::error::ChamberError;
use vstd::prelude::*;

verus! {

/// Scaled value of `amount` tokens at `price` (a scaled decimal), on the
/// token's decimal scale: `price * amount / decimals`, or `None` where a
/// checked step fails.
pub open spec fn spec_value_of(amount: int, price: int, decimals: int) -> Option<int> {
    match s_mul_whole(price, amount) {
        Some(p) => s_div_whole(p, decimals),
        None => None,
    }
}

/// Monetary value of `amount` raw token units at `price`:
/// `price * amount / decimals`, every step checked, reported as
/// `MathOverflow` where one fails (a zero decimal scale included).
pub fn value_of(amount: u64, price: &Decimal, decimals: u64) -> (r: Result<Decimal, ChamberError>)
    ensures
        match spec_value_of(amount as int, price.scaled as int, decimals as int) {
            Some(v) => r == Ok::<Decimal, ChamberError>(Decimal { scaled: v as u128 }),
            None => r == Err::<Decimal, ChamberError>(ChamberError::MathOverflow),
        },
{
    let scaled = price.try_mul_u64(amount)?;
    scaled.try_div_u64(decimals)
}

} // verus!
