//! Fixed-point decimal arithmetic for token valuation.
//!
//! A [`Decimal`] holds a value scaled by [`WAD`] (ten to the eighteenth) in a
//! `u128`, precise to eighteen decimal places. Every operation is checked: a
//! result that would not fit the representation is reported as
//! [`ChamberError::MathOverflow`], never wrapped or silently truncated, and
//! conversion back to integer token units floors.

use crate::error::ChamberError;
use vstd::arithmetic::div_mod::{
    lemma_div_is_ordered, lemma_div_multiples_vanish, lemma_fundamental_div_mod,
    lemma_fundamental_div_mod_converse, lemma_mod_bound, lemma_multiply_divide_lt,
};
use vstd::prelude::*;

verus! {

/// Number of scaled units in one whole unit.
pub const WAD: u128 = 1_000_000_000_000_000_000;

/// Outcome of a checked addition of two scaled values.
pub open spec fn s_add(a: int, b: int) -> Option<int> {
    if a + b <= u128::MAX {
        Some(a + b)
    } else {
        None
    }
}

/// Outcome of a checked multiplication of a scaled value by a whole number.
pub open spec fn s_mul_whole(a: int, m: int) -> Option<int> {
    if a * m <= u128::MAX {
        Some(a * m)
    } else {
        None
    }
}

/// Outcome of a checked division of a scaled value by a whole number; floors.
pub open spec fn s_div_whole(a: int, d: int) -> Option<int> {
    if d == 0 {
        None
    } else {
        Some(a / d)
    }
}

/// Outcome of dividing one scaled value by another down to a whole `u64`;
/// floors. The quotient of the scaled representations is the quotient of the
/// values themselves.
pub open spec fn s_div_to_whole(a: int, b: int) -> Option<int> {
    if b != 0 && a / b <= u64::MAX {
        Some(a / b)
    } else {
        None
    }
}

/// Outcome of flooring a scaled value to a whole `u64`.
pub open spec fn s_floor(a: int) -> Option<int> {
    if a / (WAD as int) <= u64::MAX {
        Some(a / (WAD as int))
    } else {
        None
    }
}

/// A non-negative fixed-point number: `scaled / WAD`.
#[derive(Clone, Copy, Debug, PartialEq, Eq, Structural)]
pub struct Decimal {
    pub scaled: u128,
}

impl Decimal {
    /// The whole number `v`.
    pub fn from_u64(v: u64) -> (r: Decimal)
        ensures
            r.scaled == v * WAD,
    {
        proof {
            assert((v as u128) * (WAD as u128) <= u128::MAX) by (nonlinear_arith)
                requires
                    v <= u64::MAX,
            ;
        }
        Decimal { scaled: (v as u128) * WAD }
    }

    /// Checked addition.
    pub fn try_add(self, rhs: Decimal) -> (r: Result<Decimal, ChamberError>)
        ensures
            match s_add(self.scaled as int, rhs.scaled as int) {
                Some(v) => r == Ok::<Decimal, ChamberError>(Decimal { scaled: v as u128 }),
                None => r == Err::<Decimal, ChamberError>(ChamberError::MathOverflow),
            },
    {
        match self.scaled.checked_add(rhs.scaled) {
            Some(s) => Ok(Decimal { scaled: s }),
            None => Err(ChamberError::MathOverflow),
        }
    }

    /// Checked multiplication by a whole number.
    pub fn try_mul_u64(self, rhs: u64) -> (r: Result<Decimal, ChamberError>)
        ensures
            match s_mul_whole(self.scaled as int, rhs as int) {
                Some(v) => r == Ok::<Decimal, ChamberError>(Decimal { scaled: v as u128 }),
                None => r == Err::<Decimal, ChamberError>(ChamberError::MathOverflow),
            },
    {
        match self.scaled.checked_mul(rhs as u128) {
            Some(s) => Ok(Decimal { scaled: s }),
            None => Err(ChamberError::MathOverflow),
        }
    }

    /// Checked multiplication by a whole number too wide for a `u64`.
    pub fn try_mul_u128(self, rhs: u128) -> (r: Result<Decimal, ChamberError>)
        ensures
            match s_mul_whole(self.scaled as int, rhs as int) {
                Some(v) => r == Ok::<Decimal, ChamberError>(Decimal { scaled: v as u128 }),
                None => r == Err::<Decimal, ChamberError>(ChamberError::MathOverflow),
            },
    {
        match self.scaled.checked_mul(rhs) {
            Some(s) => Ok(Decimal { scaled: s }),
            None => Err(ChamberError::MathOverflow),
        }
    }

    /// Checked division by a whole number; the quotient floors. Division by
    /// zero is reported as overflow, as every checked step is.
    pub fn try_div_u64(self, rhs: u64) -> (r: Result<Decimal, ChamberError>)
        ensures
            match s_div_whole(self.scaled as int, rhs as int) {
                Some(v) => r == Ok::<Decimal, ChamberError>(Decimal { scaled: v as u128 }),
                None => r == Err::<Decimal, ChamberError>(ChamberError::MathOverflow),
            },
    {
        match self.scaled.checked_div(rhs as u128) {
            Some(s) => Ok(Decimal { scaled: s }),
            None => Err(ChamberError::MathOverflow),
        }
    }

    /// Divide by another decimal and floor to a whole `u64` in one step:
    /// the scaled representations' quotient is the values' quotient. A zero
    /// divisor and a quotient beyond `u64` are reported as overflow.
    pub fn div_to_u64(self, rhs: Decimal) -> (r: Result<u64, ChamberError>)
        ensures
            match s_div_to_whole(self.scaled as int, rhs.scaled as int) {
                Some(v) => r == Ok::<u64, ChamberError>(v as u64),
                None => r == Err::<u64, ChamberError>(ChamberError::MathOverflow),
            },
    {
        if rhs.scaled == 0 {
            return Err(ChamberError::MathOverflow);
        }
        let q = self.scaled / rhs.scaled;
        if q > u64::MAX as u128 {
            return Err(ChamberError::MathOverflow);
        }
        Ok(q as u64)
    }

    /// The largest whole `u64` not above this value.
    pub fn try_floor_u64(self) -> (r: Result<u64, ChamberError>)
        ensures
            match s_floor(self.scaled as int) {
                Some(v) => r == Ok::<u64, ChamberError>(v as u64),
                None => r == Err::<u64, ChamberError>(ChamberError::MathOverflow),
            },
    {
        let q = self.scaled / WAD;
        if q > u64::MAX as u128 {
            Err(ChamberError::MathOverflow)
        } else {
            Ok(q as u64)
        }
    }
}

/// `floor(a * m / d)`, or `None` where the divisor is zero or the quotient
/// exceeds a `u128`. The product is formed in full width across two 64-bit
/// limbs, so the multiplication itself cannot overflow.
pub fn mul_div_u64(a: u128, m: u64, d: u64) -> (r: Option<u128>)
    ensures
        d != 0 && (a * m) / (d as int) <= u128::MAX ==> r == Some((((a * m) / (d as int))) as u128),
        d == 0 || (a * m) / (d as int) > u128::MAX ==> r is None,
{
    if d == 0 {
        return None;
    }
    let a_hi = #[verifier::truncate] ((a >> 64) as u64);
    let a_lo = #[verifier::truncate] (a as u64);
    proof {
        assert(a == a_hi * 0x1_0000_0000_0000_0000 + a_lo) by (bit_vector)
            requires
                a_hi == (a >> 64u128) as u64 && a_lo == a as u64,
        ;
        assert((a_lo as u128) * (m as u128) <= u128::MAX && (a_hi as u128) * (m as u128)
            <= (u64::MAX as u128) * (u64::MAX as u128)) by (nonlinear_arith)
            requires
                a_lo <= u64::MAX,
                a_hi <= u64::MAX,
                m <= u64::MAX,
        ;
    }
    let p_lo: u128 = (a_lo as u128) * (m as u128);
    let p_hi: u128 = (a_hi as u128) * (m as u128);
    proof {
        assert(p_lo >> 64u128 <= u64::MAX) by (bit_vector);
    }
    // a * m == hi * 2^64 + lo, with lo < 2^64
    let hi: u128 = p_hi + (p_lo >> 64);
    let lo: u64 = #[verifier::truncate] (p_lo as u64);
    proof {
        assert(p_lo == (p_lo >> 64u128) * 0x1_0000_0000_0000_0000 + (p_lo as u64)) by (bit_vector);
        assert(a * m == hi * 0x1_0000_0000_0000_0000 + lo) by (nonlinear_arith)
            requires
                a == a_hi * 0x1_0000_0000_0000_0000 + a_lo,
                p_lo == a_lo * m,
                p_hi == a_hi * m,
                p_lo == (p_lo >> 64u128) * 0x1_0000_0000_0000_0000 + (p_lo as u64),
                hi == p_hi + (p_lo >> 64u128),
                lo == p_lo as u64,
        ;
    }
    let q_hi = hi / (d as u128);
    let r_hi = hi % (d as u128);
    if q_hi > u64::MAX as u128 {
        // the quotient needs more than 128 bits
        proof {
            lemma_fundamental_div_mod(hi as int, d as int);
            lemma_mod_bound(hi as int, d as int);
            assert(a * m >= (q_hi * 0x1_0000_0000_0000_0000) * (d as int)) by (nonlinear_arith)
                requires
                    a * m == hi * 0x1_0000_0000_0000_0000 + lo,
                    hi == (d as int) * q_hi + r_hi,
                    r_hi == (hi as int) % (d as int),
                    0 <= r_hi,
                    0 <= lo,
                    0 < (d as int),
            ;
            lemma_div_is_ordered(
                (q_hi * 0x1_0000_0000_0000_0000) * (d as int),
                (a * m) as int,
                d as int,
            );
            assert(((d as int) * (q_hi * 0x1_0000_0000_0000_0000)) / (d as int) == q_hi
                * 0x1_0000_0000_0000_0000) by {
                lemma_div_multiples_vanish(q_hi * 0x1_0000_0000_0000_0000, d as int);
            }
            assert(q_hi * 0x1_0000_0000_0000_0000 > u128::MAX) by (nonlinear_arith)
                requires
                    q_hi > u64::MAX,
            ;
        }
        return None;
    }
    proof {
        lemma_mod_bound(hi as int, d as int);
    }
    let cur: u128 = r_hi * 0x1_0000_0000_0000_0000u128 + (lo as u128);
    let q_lo = cur / (d as u128);
    proof {
        // cur < d * 2^64, so its quotient fits 64 bits
        assert(cur < (d as int) * 0x1_0000_0000_0000_0000) by (nonlinear_arith)
            requires
                cur == r_hi * 0x1_0000_0000_0000_0000 + lo,
                r_hi < (d as int),
                lo < 0x1_0000_0000_0000_0000,
                0 <= r_hi,
        ;
        lemma_multiply_divide_lt(cur as int, d as int, 0x1_0000_0000_0000_0000);
    }
    let q = q_hi * 0x1_0000_0000_0000_0000u128 + q_lo;
    proof {
        lemma_fundamental_div_mod(hi as int, d as int);
        lemma_fundamental_div_mod(cur as int, d as int);
        lemma_mod_bound(cur as int, d as int);
        assert(a * m == (d as int) * (q_hi * 0x1_0000_0000_0000_0000 + q_lo) + (cur as int) % (d as int))
            by (nonlinear_arith)
            requires
                a * m == hi * 0x1_0000_0000_0000_0000 + lo,
                hi == (d as int) * q_hi + (hi as int) % (d as int),
                r_hi == (hi as int) % (d as int),
                cur == r_hi * 0x1_0000_0000_0000_0000 + lo,
                cur == (d as int) * q_lo + (cur as int) % (d as int),
        ;
        lemma_fundamental_div_mod_converse(
            (a * m) as int,
            d as int,
            (q_hi * 0x1_0000_0000_0000_0000 + q_lo) as int,
            ((cur as int) % (d as int)),
        );
    }
    Some(q)
}

} // verus!
