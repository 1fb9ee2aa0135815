//! Price-feed payload parsing.
//!
//! A price account carries a fixed little-endian layout: the price type at
//! byte 16, the exponent at byte 20, and the aggregate price at byte 208,
//! inside an account of 3312 bytes. The published price is `|price| /
//! 10^|exponent|`. Staleness and confidence checks are owned by the oracle
//! collaborator; this parser only turns a well-formed payload into a
//! decimal, and fails distinctly where it cannot.

use crate::decimal::{Decimal, WAD};
use vstd::bytes::{spec_u32_from_le_bytes, spec_u64_from_le_bytes, u32_from_le_bytes, u64_from_le_bytes};
use vstd::prelude::*;
use vstd::slice::slice_subrange;

verus! {

/// Size of a price account's fixed layout.
pub const PRICE_ACCOUNT_SIZE: usize = 3312;

/// Byte offset of the price-type discriminant.
pub const PRICE_TYPE_OFFSET: usize = 16;

/// Byte offset of the price exponent.
pub const EXPONENT_OFFSET: usize = 20;

/// Byte offset of the aggregate price.
pub const AGGREGATE_PRICE_OFFSET: usize = 208;

/// Discriminant of a plain price feed among the price types.
pub const PRICE_TYPE_PRICE: u32 = 1;

/// Why a price payload yielded no price.
#[derive(Clone, Copy, Debug, PartialEq, Eq, Structural)]
pub enum OracleError {
    /// The payload is shorter than a price account.
    MalformedPayload,
    /// The account does not carry a plain price.
    UnsupportedPriceType,
    /// The price or exponent admits no absolute value, or the exponent's
    /// power of ten exceeds the representable range.
    MathOverflow,
}

/// The signed value that a two's-complement 64-bit word stands for.
pub open spec fn spec_i64_val(u: u64) -> int {
    if u <= i64::MAX {
        u as int
    } else {
        u - 0x1_0000_0000_0000_0000
    }
}

/// The signed value that a two's-complement 32-bit word stands for.
pub open spec fn spec_i32_val(u: u32) -> int {
    if u <= i32::MAX {
        u as int
    } else {
        u - 0x1_0000_0000
    }
}

/// Ten to the `e`.
pub open spec fn pow10(e: nat) -> nat
    decreases e,
{
    if e == 0 {
        1
    } else {
        10 * pow10((e - 1) as nat)
    }
}

/// The price-type discriminant of a payload.
pub open spec fn spec_price_type(data: Seq<u8>) -> u32 {
    spec_u32_from_le_bytes(data.subrange(PRICE_TYPE_OFFSET as int, PRICE_TYPE_OFFSET + 4))
}

/// The signed exponent of a payload.
pub open spec fn spec_exponent(data: Seq<u8>) -> int {
    spec_i32_val(spec_u32_from_le_bytes(data.subrange(EXPONENT_OFFSET as int, EXPONENT_OFFSET + 4)))
}

/// The signed aggregate price of a payload.
pub open spec fn spec_aggregate_price(data: Seq<u8>) -> int {
    spec_i64_val(
        spec_u64_from_le_bytes(
            data.subrange(AGGREGATE_PRICE_OFFSET as int, AGGREGATE_PRICE_OFFSET + 8),
        ),
    )
}

/// What parsing a payload yields: the decimal `|price| / 10^|exponent|`, or
/// the first failure met. A short payload is malformed; a price type other
/// than a plain price is unsupported; an extreme price or exponent whose
/// absolute value or power of ten is unrepresentable is an overflow.
pub open spec fn spec_load_price(data: Seq<u8>) -> Result<Decimal, OracleError> {
    if data.len() < PRICE_ACCOUNT_SIZE {
        Err(OracleError::MalformedPayload)
    } else if spec_price_type(data) != PRICE_TYPE_PRICE {
        Err(OracleError::UnsupportedPriceType)
    } else {
        let p = spec_aggregate_price(data);
        let e = spec_exponent(data);
        if p == i64::MIN || e == i32::MIN {
            Err(OracleError::MathOverflow)
        } else {
            let ap = if p < 0 {
                -p
            } else {
                p
            };
            let ae = if e < 0 {
                -e
            } else {
                e
            };
            if pow10(ae as nat) > u64::MAX {
                Err(OracleError::MathOverflow)
            } else {
                Ok(Decimal { scaled: ((ap * WAD) / (pow10(ae as nat) as int)) as u128 })
            }
        }
    }
}

/// Ten to the `e`, or `None` where it exceeds a `u64`.
fn pow10_u64(e: u32) -> (r: Option<u64>)
    ensures
        pow10(e as nat) <= u64::MAX ==> r == Some(pow10(e as nat) as u64),
        pow10(e as nat) > u64::MAX ==> r == None::<u64>,
{
    let mut acc: u64 = 1;
    let mut i: u32 = 0;
    while i < e
        invariant
            i <= e,
            acc == pow10(i as nat),
        decreases e - i,
    {
        proof {
            lemma_pow10_monotone((i + 1) as nat, e as nat);
            assert(pow10((i + 1) as nat) == 10 * pow10(i as nat));
        }
        acc = match acc.checked_mul(10) {
            Some(v) => v,
            None => {
                return None;
            },
        };
        i = i + 1;
    }
    Some(acc)
}

/// A longer exponent never shrinks the power: if `10^b` fails to fit, so
/// does `10^e` for `e >= b`; contrapositively `10^b <= 10^e`.
proof fn lemma_pow10_monotone(b: nat, e: nat)
    requires
        b <= e,
    ensures
        pow10(b) <= pow10(e),
    decreases e - b,
{
    if b < e {
        lemma_pow10_monotone(b, (e - 1) as nat);
        assert(pow10(e) == 10 * pow10((e - 1) as nat));
    }
}

/// The absolute value of the signed number a 64-bit word stands for, or
/// `None` for the one value without an absolute value.
fn abs_i64_word(u: u64) -> (r: Option<u64>)
    ensures
        spec_i64_val(u) == i64::MIN ==> r == None::<u64>,
        spec_i64_val(u) != i64::MIN && spec_i64_val(u) >= 0 ==> r == Some(spec_i64_val(u) as u64),
        spec_i64_val(u) != i64::MIN && spec_i64_val(u) < 0 ==> r == Some((-spec_i64_val(u)) as u64),
{
    proof {
        assert((1u64 << 63) == 0x8000_0000_0000_0000) by (bit_vector);
    }
    if u <= i64::MAX as u64 {
        Some(u)
    } else if u == 1u64 << 63 {
        None
    } else {
        Some((u64::MAX - u) + 1)
    }
}

/// The absolute value of the signed number a 32-bit word stands for, or
/// `None` for the one value without an absolute value.
fn abs_i32_word(u: u32) -> (r: Option<u32>)
    ensures
        spec_i32_val(u) == i32::MIN ==> r == None::<u32>,
        spec_i32_val(u) != i32::MIN && spec_i32_val(u) >= 0 ==> r == Some(spec_i32_val(u) as u32),
        spec_i32_val(u) != i32::MIN && spec_i32_val(u) < 0 ==> r == Some((-spec_i32_val(u)) as u32),
{
    proof {
        assert((1u32 << 31) == 0x8000_0000) by (bit_vector);
    }
    if u <= i32::MAX as u32 {
        Some(u)
    } else if u == 1u32 << 31 {
        None
    } else {
        Some((u32::MAX - u) + 1)
    }
}

/// Parse a price-feed payload into the published price `|price| /
/// 10^|exponent|`, or fail distinctly: a short payload is malformed, a
/// non-price account is unsupported, and an unrepresentable price, exponent
/// or power of ten is an overflow.
pub fn load_price(data: &[u8]) -> (r: Result<Decimal, OracleError>)
    ensures
        r == spec_load_price(data@),
{
    if data.len() < PRICE_ACCOUNT_SIZE {
        return Err(OracleError::MalformedPayload);
    }
    let ptype = u32_from_le_bytes(slice_subrange(data, PRICE_TYPE_OFFSET, PRICE_TYPE_OFFSET + 4));
    if ptype != PRICE_TYPE_PRICE {
        return Err(OracleError::UnsupportedPriceType);
    }
    let price_word = u64_from_le_bytes(
        slice_subrange(data, AGGREGATE_PRICE_OFFSET, AGGREGATE_PRICE_OFFSET + 8),
    );
    let abs_price = match abs_i64_word(price_word) {
        Some(v) => v,
        None => {
            return Err(OracleError::MathOverflow);
        },
    };
    let expo_word = u32_from_le_bytes(slice_subrange(data, EXPONENT_OFFSET, EXPONENT_OFFSET + 4));
    let abs_expo = match abs_i32_word(expo_word) {
        Some(v) => v,
        None => {
            return Err(OracleError::MathOverflow);
        },
    };
    let decimals = match pow10_u64(abs_expo) {
        Some(v) => v,
        None => {
            return Err(OracleError::MathOverflow);
        },
    };
    let price = Decimal::from_u64(abs_price);
    proof {
        lemma_pow10_positive(abs_expo as nat);
    }
    match price.try_div_u64(decimals) {
        Ok(d) => Ok(d),
        Err(_) => Err(OracleError::MathOverflow),
    }
}

/// Every power of ten is positive.
proof fn lemma_pow10_positive(e: nat)
    ensures
        pow10(e) >= 1,
    decreases e,
{
    if e > 0 {
        lemma_pow10_positive((e - 1) as nat);
    }
}

} // verus!
