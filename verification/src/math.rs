//! Fixed-point arithmetic core.
//!
//! Every money calculation widens to 128 bits before multiplying and
//! floor-divides by the fixed scale, so that no multiply of two 64-bit
//! operands can wrap. A result that must be narrowed back to 64 bits is
//! checked against that width by its caller: nothing wraps silently.

use vstd::prelude::*;

use crate::errors::AmmError;
use crate::{BPS_DENOM, PRICE_SCALE};

verus! {

/// Quote value of `amount` base at `price`: `amount * price / PRICE_SCALE`,
/// floor-divided.
pub open spec fn spec_quote_value(amount_base_fp: u64, price_fp: u64) -> int {
    (amount_base_fp * price_fp) / (PRICE_SCALE as int)
}

/// How much base a quote deposit can pay for at `price`:
/// `deposit * PRICE_SCALE / price`, floor-divided (a zero price divides by 1).
pub open spec fn spec_base_affordable(quote_deposit_fp: u64, price_fp: u64) -> int {
    (quote_deposit_fp * PRICE_SCALE) as int / (if price_fp == 0 { 1int } else { price_fp as int })
}

/// `value * bps / BPS_DENOM`, floor-divided, without a width limit.
pub open spec fn spec_bps_of(value: int, bps: u16) -> int {
    (value * bps) / (BPS_DENOM as int)
}

/// Quote value of a base amount at a price, on the wide intermediate.
/// The product of two 64-bit operands always fits 128 bits.
pub fn quote_value(amount_base_fp: u64, price_fp: u64) -> (r: u128)
    ensures
        r == spec_quote_value(amount_base_fp, price_fp),
{
    proof {
        assert(amount_base_fp * price_fp <= u64::MAX * u64::MAX) by (nonlinear_arith)
            requires
                amount_base_fp <= u64::MAX,
                price_fp <= u64::MAX,
        ;
    }
    (amount_base_fp as u128) * (price_fp as u128) / (PRICE_SCALE as u128)
}

/// Base amount a quote deposit affords at a price, on the wide intermediate.
pub fn base_affordable(quote_deposit_fp: u64, price_fp: u64) -> (r: u128)
    ensures
        r == spec_base_affordable(quote_deposit_fp, price_fp),
{
    proof {
        assert(quote_deposit_fp * PRICE_SCALE <= u64::MAX * u64::MAX) by (nonlinear_arith)
            requires
                quote_deposit_fp <= u64::MAX,
                PRICE_SCALE <= u64::MAX,
        ;
    }
    let divisor: u128 = if price_fp == 0 { 1 } else { price_fp as u128 };
    (quote_deposit_fp as u128) * (PRICE_SCALE as u128) / divisor
}

/// A basis-point share of a 128-bit value; fails rather than wrap when the
/// widened product leaves 128 bits.
pub fn bps_of(value: u128, bps: u16) -> (r: Result<u128, AmmError>)
    ensures
        match r {
            Ok(v) => v == spec_bps_of(value as int, bps) && value * bps <= u128::MAX,
            Err(e) => e == AmmError::MathOverflow && value * bps > u128::MAX,
        },
{
    match value.checked_mul(bps as u128) {
        Some(p) => Ok(p / (BPS_DENOM as u128)),
        None => Err(AmmError::MathOverflow),
    }
}

} // verus!
