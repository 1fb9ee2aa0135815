//! Share accounting: issuing shares for deposited value against the pool,
//! and redeeming shares for a pro-rata slice of the pooled holdings.

use crate::decimal::{mul_div_u64, s_floor, Decimal, WAD};
use crate::error::ChamberError;
use vstd::arithmetic::div_mod::{
    lemma_div_denominator, lemma_fundamental_div_mod, lemma_fundamental_div_mod_converse,
    lemma_mod_bound,
};
use vstd::prelude::*;

verus! {

/// Shares owed for a deposit worth `value` (scaled) against the existing
/// `supply` of shares and the pool's `liquidity` (whole units):
/// `floor(value * supply / liquidity)`, the exact rational floored once.
///
/// On the very first deposit, before any share exists and any value is
/// pooled, shares are issued one for one with deposited value. A pool that
/// holds no value while shares are outstanding admits no rate. A
/// value-times-supply product whose quotient by one scale unit exceeds the
/// representable range fails as an overflow.
pub open spec fn spec_user_shares(value: int, supply: int, liquidity: int) -> Option<int> {
    if liquidity == 0 {
        if supply == 0 {
            s_floor(value)
        } else {
            None
        }
    } else if (value * supply) / (WAD as int) > u128::MAX {
        None
    } else if (value * supply) / ((WAD as int) * liquidity) > u64::MAX {
        None
    } else {
        Some((value * supply) / ((WAD as int) * liquidity))
    }
}

/// Shares to issue for a deposit worth `value`, given the share supply and
/// the pooled liquidity before the deposit takes effect: the depositor's
/// exact proportion of the supply, floored once. Every arithmetic step is
/// checked. The first deposit (no supply, no liquidity) is issued shares one
/// for one with its value.
pub fn compute_user_shares(value: &Decimal, shares_supply: u64, total_liquidity: u64) -> (r: Result<
    u64,
    ChamberError,
>)
    ensures
        match spec_user_shares(value.scaled as int, shares_supply as int, total_liquidity as int) {
            Some(s) => r == Ok::<u64, ChamberError>(s as u64),
            None => r == Err::<u64, ChamberError>(ChamberError::MathOverflow),
        },
{
    if total_liquidity == 0 {
        if shares_supply == 0 {
            return value.try_floor_u64();
        }
        return Err(ChamberError::MathOverflow);
    }
    let per_unit = match mul_div_u64(value.scaled, shares_supply, WAD as u64) {
        Some(v) => v,
        None => {
            return Err(ChamberError::MathOverflow);
        },
    };
    let q = per_unit / (total_liquidity as u128);
    proof {
        lemma_div_denominator(
            (value.scaled * shares_supply) as int,
            WAD as int,
            total_liquidity as int,
        );
    }
    if q > u64::MAX as u128 {
        return Err(ChamberError::MathOverflow);
    }
    Ok(q as u64)
}

/// Share issuance never rounds up: the issued count, weighted back by the
/// pool, claims at most the depositor's exact proportion `value * supply /
/// liquidity` of it, and falls short by less than one share.
pub proof fn lemma_user_shares_floor(value: int, supply: int, liquidity: int)
    requires
        0 < liquidity,
        0 <= value,
        0 <= supply,
        spec_user_shares(value, supply, liquidity) is Some,
    ensures
        ({
            let s = spec_user_shares(value, supply, liquidity)->Some_0;
            s * ((WAD as int) * liquidity) <= value * supply < (s + 1) * ((WAD as int) * liquidity)
        }),
{
    let d = (WAD as int) * liquidity;
    let x = value * supply;
    let s = x / d;
    vstd::arithmetic::mul::lemma_mul_strictly_positive(WAD as int, liquidity);
    lemma_fundamental_div_mod(x, d);
    lemma_mod_bound(x, d);
    assert(s * d <= x && x < (s + 1) * d) by (nonlinear_arith)
        requires
            x == d * s + x % d,
            0 <= x % d < d,
    ;
}

/// The pro-rata slice of a pooled amount that `shares_amount` of
/// `shares_supply` shares stands for: `floor(pool * shares / supply)`.
pub open spec fn spec_pro_rata(pool: int, shares_amount: int, shares_supply: int) -> int {
    (pool * shares_amount) / shares_supply
}

/// The slice of the pooled amount `pool` owed to `shares_amount` out of
/// `shares_supply` shares, floored. A zero supply and a slice beyond `u64`
/// are each reported as `MathOverflow`.
pub fn pro_rata_share(pool: u128, shares_amount: u64, shares_supply: u64) -> (r: Result<
    u64,
    ChamberError,
>)
    ensures
        shares_supply != 0 && spec_pro_rata(
            pool as int,
            shares_amount as int,
            shares_supply as int,
        ) <= u64::MAX ==> r == Ok::<u64, ChamberError>(
            spec_pro_rata(pool as int, shares_amount as int, shares_supply as int) as u64,
        ),
        shares_supply == 0 || spec_pro_rata(
            pool as int,
            shares_amount as int,
            shares_supply as int,
        ) > u64::MAX ==> r == Err::<u64, ChamberError>(ChamberError::MathOverflow),
{
    if shares_supply == 0 {
        return Err(ChamberError::MathOverflow);
    }
    let q = match mul_div_u64(pool, shares_amount, shares_supply) {
        Some(v) => v,
        None => {
            // a quotient beyond `u128` is beyond `u64` as well
            return Err(ChamberError::MathOverflow);
        },
    };
    if q > u64::MAX as u128 {
        return Err(ChamberError::MathOverflow);
    }
    Ok(q as u64)
}

/// Redemption is exact pro-rata up to floor loss, never more: the slice paid
/// for `shares_amount` shares, multiplied back by the supply, never exceeds
/// `pool * shares_amount`, and falls short of it by less than one share's
/// worth. A user redeeming their entire balance, when theirs are all the
/// shares there are, receives the whole pool.
pub proof fn lemma_pro_rata_bounds(pool: int, shares_amount: int, shares_supply: int)
    requires
        0 < shares_supply,
        0 <= shares_amount,
        0 <= pool,
    ensures
        spec_pro_rata(pool, shares_amount, shares_supply) * shares_supply <= pool * shares_amount,
        pool * shares_amount < (spec_pro_rata(pool, shares_amount, shares_supply) + 1)
            * shares_supply,
        shares_amount == shares_supply ==> spec_pro_rata(pool, shares_amount, shares_supply)
            == pool,
{
    let x = pool * shares_amount;
    let q = x / shares_supply;
    lemma_fundamental_div_mod(x, shares_supply);
    assert(x == shares_supply * q + x % shares_supply);
    assert(q * shares_supply <= x) by (nonlinear_arith)
        requires
            x == shares_supply * q + x % shares_supply,
            0 <= x % shares_supply,
    ;
    assert(x < (q + 1) * shares_supply) by (nonlinear_arith)
        requires
            x == shares_supply * q + x % shares_supply,
            x % shares_supply < shares_supply,
    ;
    if shares_amount == shares_supply {
        lemma_fundamental_div_mod_converse(pool * shares_supply, shares_supply, pool, 0);
    }
}

} // verus!
