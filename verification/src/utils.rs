//! Basis-point arithmetic and the fee split built on it.

use vstd::prelude::*;
use crate::constants::BPS_DENOMINATOR;
use crate::errors::PredictionMarketError;

verus! {

/// The mathematical value of `value * bps / divisor`, rounded down.
pub open spec fn bps_product(bps: u64, value: u64, divisor: u64) -> int
    recommends
        divisor != 0,
{
    (value as int * bps as int) / (divisor as int)
}

/// Multiplies `value` by `bps` and divides by `divisor` in 128-bit arithmetic.
///
/// The product of two 64-bit numbers always fits in 128 bits, so the only way
/// to get `None` is a zero divisor.
pub fn bps_mul_raw(bps: u64, value: u64, divisor: u64) -> (out: Option<u128>)
    ensures
        divisor == 0 <==> out.is_none(),
        divisor != 0 ==> out == Some(bps_product(bps, value, divisor) as u128),
        divisor != 0 ==> 0 <= bps_product(bps, value, divisor) <= u128::MAX,
{
    let wide_value: u128 = value as u128;
    let wide_bps: u128 = bps as u128;
    let wide_divisor: u128 = divisor as u128;
    proof {
        assert(0 <= wide_value * wide_bps <= u128::MAX) by (nonlinear_arith)
            requires
                0 <= wide_value <= u64::MAX,
                0 <= wide_bps <= u64::MAX,
        ;
    }
    let product: u128 = wide_value * wide_bps;
    if wide_divisor == 0 {
        None
    } else {
        proof {
            assert(0 <= (product as int) / (wide_divisor as int) <= product as int)
                by (nonlinear_arith)
                requires
                    0 <= product,
                    0 < wide_divisor,
            ;
        }
        Some(product / wide_divisor)
    }
}

/// `value * bps / divisor`, rounded down, when that fits in 64 bits.
///
/// A zero divisor gives `None`, and so does a quotient beyond 64 bits.
pub fn bps_mul(bps: u64, value: u64, divisor: u64) -> (out: Option<u64>)
    ensures
        divisor == 0 ==> out is None,
        divisor != 0 ==> out == (if bps_product(bps, value, divisor) <= u64::MAX {
            Some(bps_product(bps, value, divisor) as u64)
        } else {
            None
        }),
{
    match bps_mul_raw(bps, value, divisor) {
        Some(wide) => {
            if wide <= u64::MAX as u128 {
                Some(wide as u64)
            } else {
                None
            }
        },
        None => None,
    }
}

/// The fee that `bps` basis points take of `amount`, rounded down.
pub open spec fn fee_of(amount: u64, bps: u64) -> int {
    bps_product(bps, amount, BPS_DENOMINATOR)
}

/// What `split_fee` returns: the platform's fee, the liquidity providers'
/// fee and what is left of the amount, or an arithmetic error when the two
/// fees together exceed the amount.
pub open spec fn split_fee_spec(amount: u64, platform_bps: u64, lp_bps: u64) -> Result<
    (u64, u64, u64),
    PredictionMarketError,
> {
    let platform_fee = fee_of(amount, platform_bps);
    let lp_fee = fee_of(amount, lp_bps);
    if platform_fee + lp_fee > amount {
        Err(PredictionMarketError::ArithmeticError)
    } else {
        Ok((platform_fee as u64, lp_fee as u64, (amount - platform_fee - lp_fee) as u64))
    }
}

/// Splits `amount` into the platform's fee, the liquidity providers' fee and
/// the net amount, each fee being its rate in basis points of the whole
/// amount, rounded down.
///
/// The three parts always add up to `amount`. Rates that together take more
/// than the amount are refused.
pub fn split_fee(amount: u64, platform_bps: u64, lp_bps: u64) -> (out: Result<
    (u64, u64, u64),
    PredictionMarketError,
>)
    ensures
        out == split_fee_spec(amount, platform_bps, lp_bps),
        out matches Ok(parts) ==> parts.0 + parts.1 + parts.2 == amount,
{
    let platform_fee: u64 = match bps_mul(platform_bps, amount, BPS_DENOMINATOR) {
        Some(fee) => fee,
        None => {
            return Err(PredictionMarketError::ArithmeticError);
        },
    };
    let lp_fee: u64 = match bps_mul(lp_bps, amount, BPS_DENOMINATOR) {
        Some(fee) => fee,
        None => {
            proof {
                lemma_fee_nonnegative(amount, platform_bps);
            }
            return Err(PredictionMarketError::ArithmeticError);
        },
    };
    if platform_fee > amount {
        proof {
            lemma_fee_nonnegative(amount, lp_bps);
        }
        return Err(PredictionMarketError::ArithmeticError);
    }
    let after_platform: u64 = amount - platform_fee;
    if lp_fee > after_platform {
        return Err(PredictionMarketError::ArithmeticError);
    }
    Ok((platform_fee, lp_fee, after_platform - lp_fee))
}

/// A fee is never negative.
pub proof fn lemma_fee_nonnegative(amount: u64, bps: u64)
    ensures
        0 <= fee_of(amount, bps),
{
    assert(0 <= (amount as int * bps as int) / 10_000) by (nonlinear_arith)
        requires
            0 <= amount,
            0 <= bps,
    ;
}

/// Ten to the power of `n`.
pub open spec fn ten_to(n: nat) -> nat
    decreases n,
{
    if n == 0 {
        1
    } else {
        10 * ten_to((n - 1) as nat)
    }
}

/// Powers of ten grow with the exponent.
pub proof fn lemma_ten_to_grows(lower: nat, upper: nat)
    requires
        lower <= upper,
    ensures
        1 <= ten_to(lower) <= ten_to(upper),
    decreases upper,
{
    if upper == 0 {
    } else if lower == upper {
        lemma_ten_to_grows(0, (upper - 1) as nat);
    } else {
        lemma_ten_to_grows(lower, (upper - 1) as nat);
    }
}

/// The number of smallest units in one token of `decimals` decimals: ten
/// to that power, where it fits in 64 bits.
pub fn decimal_unit(decimals: u8) -> (out: Option<u64>)
    ensures
        out == (if ten_to(decimals as nat) <= u64::MAX {
            Some(ten_to(decimals as nat) as u64)
        } else {
            None
        }),
{
    let mut unit: u64 = 1;
    let mut done: u8 = 0;
    while done < decimals
        invariant
            done <= decimals,
            unit == ten_to(done as nat),
        decreases decimals - done,
    {
        match unit.checked_mul(10) {
            Some(next) => {
                unit = next;
            },
            None => {
                proof {
                    lemma_ten_to_grows((done + 1) as nat, decimals as nat);
                }
                return None;
            },
        }
        done += 1;
    }
    Some(unit)
}

} // verus!
