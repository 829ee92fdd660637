//! A periodic uniform-price call-auction engine for one base/quote asset pair.
//!
//! Participants submit one-sided limit orders (bids or asks) into the current
//! batch; at each rollover a single clearing price is chosen that maximizes
//! matched volume, and every order is then settled (paid out or refunded)
//! exactly once against the batch's remaining-volume budget.
//!
//! All monetary values are scaled integers (fixed point, scale 1e6 for
//! prices); every operation is checked: no silent overflow, no partial
//! commit on failure.

use vstd::prelude::*;

pub mod admission;
pub mod cancellation;
pub mod clearing;
pub mod errors;
pub mod market;
pub mod matching;
pub mod math;
pub mod settlement;
pub mod types;

verus! {

/// Fixed-point scale for prices: one unit of price is `PRICE_SCALE`.
pub const PRICE_SCALE: u64 = 1_000_000;

/// Denominator for basis-point fee and ratio fields.
pub const BPS_DENOM: u64 = 10_000;

} // verus!
