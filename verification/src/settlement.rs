//! Settlement state machine: converts one order's clearing outcome into
//! filled and refunded amounts, exactly once, against the batch's shared
//! remaining-volume budget.
//!
//! A crossed order settles all-or-nothing at its full original base amount;
//! an uncrossed order is purely refunded, and so is every order of a batch
//! that rolled with clearing price 0. The receipt's `claimed` flag makes a
//! second settlement fail. Validation is front-loaded: a failed settlement
//! changes nothing.

use vstd::prelude::*;

use crate::errors::AmmError;
use crate::math::{quote_value, spec_bps_of, spec_quote_value, bps_of};
use crate::types::{batch_flag_ok, BatchState, Market, Order, OrderFill, OrderSide};

verus! {

/// Everything a successful settlement commits: the market with its fee
/// accumulator, the batch with its decremented budget, the terminal order,
/// and the one-shot receipt.
pub struct Settled {
    pub market: Market,
    pub batch: BatchState,
    pub order: Order,
    pub fill: OrderFill,
}

/// Whether an order is on the favorable side of the clearing price:
/// a bid crosses when its limit is at or above it, an ask when its limit
/// is at or below it.
pub open spec fn spec_crossed(o: Order, clearing_price_fp: u64) -> bool {
    match o.side {
        OrderSide::Bid => o.limit_price_fp >= clearing_price_fp,
        OrderSide::Ask => o.limit_price_fp <= clearing_price_fp,
    }
}

/// The settlement state machine as a function of the old state: either the
/// committed new state or the first violated check. `settle_order` behaves
/// exactly like this.
pub open spec fn spec_settle(
    m: Market,
    b: BatchState,
    o: Order,
    f: OrderFill,
) -> Result<Settled, AmmError> {
    if m.paused {
        Err(AmmError::MarketPaused)
    } else if b.market != m.id {
        Err(AmmError::BatchMarketMismatch)
    } else if b.batch_id != o.batch_id {
        Err(AmmError::BatchIdMismatch)
    } else if o.cancelled {
        Err(AmmError::OrderCancelled)
    } else if f.claimed {
        Err(AmmError::OrderAlreadySettled)
    } else if b.clearing_price_fp > 0 && spec_crossed(o, b.clearing_price_fp) {
        if o.amount_base_fp > b.remaining_base_to_settle_fp {
            Err(AmmError::BatchFullySettled)
        } else {
            let gross = spec_quote_value(o.amount_base_fp, b.clearing_price_fp);
            if o.side is Bid && gross > o.quote_deposit_fp {
                Err(AmmError::MathOverflow)
            } else if gross > u64::MAX {
                // The receipt records the gross quote in 64 bits; a wider
                // value fails rather than wrap.
                Err(AmmError::MathOverflow)
            } else if gross > b.remaining_quote_to_settle_fp {
                Err(AmmError::MathOverflow)
            } else {
                let fee = if m.protocol_fee_bps > 0 {
                    spec_bps_of(gross, m.protocol_fee_bps)
                } else {
                    0
                };
                if m.protocol_fee_bps > 0 && gross * m.protocol_fee_bps > u128::MAX {
                    Err(AmmError::MathOverflow)
                } else if m.protocol_fees_accrued_fp + fee > u128::MAX {
                    Err(AmmError::MathOverflow)
                } else {
                    let new_remaining_base = b.remaining_base_to_settle_fp - o.amount_base_fp;
                    Ok(Settled {
                        market: Market {
                            protocol_fees_accrued_fp: (m.protocol_fees_accrued_fp + fee) as u128,
                            ..m
                        },
                        batch: BatchState {
                            remaining_base_to_settle_fp: new_remaining_base as u128,
                            remaining_quote_to_settle_fp: (b.remaining_quote_to_settle_fp
                                - gross) as u128,
                            settled: b.settled || new_remaining_base == 0,
                            ..b
                        },
                        order: Order { filled: true, ..o },
                        fill: OrderFill {
                            order: o.id,
                            batch_id: b.batch_id,
                            filled_base_fp: o.amount_base_fp,
                            filled_quote_fp: gross as u64,
                            refund_quote_fp: if o.side is Bid {
                                (o.quote_deposit_fp - gross) as u64
                            } else {
                                0
                            },
                            refund_base_fp: 0,
                            claimed: true,
                        },
                    })
                }
            }
        }
    } else {
        // Not crossed — or nothing crossed in the whole batch (clearing
        // price 0): pure refund of the whole deposit, no fill, no fee.
        Ok(Settled {
            market: m,
            batch: b,
            order: Order { filled: true, ..o },
            fill: OrderFill {
                order: o.id,
                batch_id: b.batch_id,
                filled_base_fp: 0,
                filled_quote_fp: 0,
                refund_quote_fp: if o.side is Bid { o.quote_deposit_fp } else { 0 },
                refund_base_fp: if o.side is Ask { o.amount_base_fp } else { 0 },
                claimed: true,
            },
        })
    }
}

/// Settle one order against its batch snapshot, or fail with the first
/// violated check and change nothing.
///
/// On success the caller owes the transfers the receipt directs: the filled
/// base and refunded quote to a bid's owner, the filled quote and refunded
/// base to an ask's owner.
pub fn settle_order(
    market: &mut Market,
    batch_state: &mut BatchState,
    order: &mut Order,
    order_fill: &mut OrderFill,
) -> (r: Result<(), AmmError>)
    ensures
        ({
            let res = spec_settle(*old(market), *old(batch_state), *old(order), *old(order_fill));
            match res {
                Ok(s) => r is Ok && *final(market) == s.market && *final(batch_state) == s.batch
                    && *final(order) == s.order && *final(order_fill) == s.fill,
                Err(e) => r == Err::<(), AmmError>(e) && *final(market) == *old(market)
                    && *final(batch_state) == *old(batch_state) && *final(order) == *old(order)
                    && *final(order_fill) == *old(order_fill),
            }
        }),
{
    if market.paused {
        return Err(AmmError::MarketPaused);
    }
    if batch_state.market != market.id {
        return Err(AmmError::BatchMarketMismatch);
    }
    if batch_state.batch_id != order.batch_id {
        return Err(AmmError::BatchIdMismatch);
    }
    if order.cancelled {
        return Err(AmmError::OrderCancelled);
    }
    if order_fill.claimed {
        return Err(AmmError::OrderAlreadySettled);
    }

    // With clearing price 0 nothing crossed: every order of such a batch
    // takes the pure-refund branch.
    let crossed = batch_state.clearing_price_fp > 0 && match order.side {
        OrderSide::Bid => order.limit_price_fp >= batch_state.clearing_price_fp,
        OrderSide::Ask => order.limit_price_fp <= batch_state.clearing_price_fp,
    };

    if crossed {
        // All-or-nothing settlement, constrained by the remaining budget.
        if order.amount_base_fp as u128 > batch_state.remaining_base_to_settle_fp {
            return Err(AmmError::BatchFullySettled);
        }
        let gross: u128 = quote_value(order.amount_base_fp, batch_state.clearing_price_fp);
        let is_bid = match order.side {
            OrderSide::Bid => true,
            OrderSide::Ask => false,
        };
        if is_bid && gross > order.quote_deposit_fp as u128 {
            return Err(AmmError::MathOverflow);
        }
        if gross > u64::MAX as u128 {
            return Err(AmmError::MathOverflow);
        }
        if gross > batch_state.remaining_quote_to_settle_fp {
            return Err(AmmError::MathOverflow);
        }
        let fee: u128 = if market.protocol_fee_bps > 0 {
            match bps_of(gross, market.protocol_fee_bps) {
                Ok(v) => v,
                Err(e) => {
                    return Err(e);
                }
            }
        } else {
            0
        };
        let new_accrued: u128 = match market.protocol_fees_accrued_fp.checked_add(fee) {
            Some(v) => v,
            None => {
                return Err(AmmError::MathOverflow);
            }
        };

        // Every check passed: commit all mutations at once.
        let new_remaining_base: u128 =
            batch_state.remaining_base_to_settle_fp - order.amount_base_fp as u128;
        batch_state.remaining_base_to_settle_fp = new_remaining_base;
        batch_state.remaining_quote_to_settle_fp =
            batch_state.remaining_quote_to_settle_fp - gross;
        if new_remaining_base == 0 {
            batch_state.settled = true;
        }
        market.protocol_fees_accrued_fp = new_accrued;

        order_fill.order = order.id;
        order_fill.batch_id = batch_state.batch_id;
        order_fill.filled_base_fp = order.amount_base_fp;
        order_fill.filled_quote_fp = gross as u64;
        order_fill.refund_quote_fp = if is_bid {
            (order.quote_deposit_fp as u128 - gross) as u64
        } else {
            0
        };
        order_fill.refund_base_fp = 0;
        order_fill.claimed = true;
        order.filled = true;
        Ok(())
    } else {
        order_fill.order = order.id;
        order_fill.batch_id = batch_state.batch_id;
        order_fill.filled_base_fp = 0;
        order_fill.filled_quote_fp = 0;
        match order.side {
            OrderSide::Bid => {
                order_fill.refund_quote_fp = order.quote_deposit_fp;
                order_fill.refund_base_fp = 0;
            }
            OrderSide::Ask => {
                order_fill.refund_quote_fp = 0;
                order_fill.refund_base_fp = order.amount_base_fp;
            }
        }
        order_fill.claimed = true;
        order.filled = true;
        Ok(())
    }
}

/// Conservation: a settlement never pays out more than was deposited.
/// For an ask, filled base plus refunded base equals the original base
/// amount exactly. For a bid, filled quote plus refunded quote equals the
/// quote deposit exactly — the crossed path returns the excess over the
/// gross quote, the uncrossed path returns the whole deposit.
pub proof fn lemma_settlement_conservation(m: Market, b: BatchState, o: Order, f: OrderFill)
    ensures
        ({
            let res = spec_settle(m, b, o, f);
            res is Ok ==> {
                let fl = res->Ok_0.fill;
                &&& o.side is Ask ==> fl.filled_base_fp + fl.refund_base_fp == o.amount_base_fp
                &&& o.side is Bid ==> fl.filled_quote_fp + fl.refund_quote_fp
                    == o.quote_deposit_fp
                &&& o.side is Bid ==> fl.filled_base_fp <= o.amount_base_fp
            }
        }),
{
    let res = spec_settle(m, b, o, f);
    if res is Ok && b.clearing_price_fp > 0 && spec_crossed(o, b.clearing_price_fp)
        && o.side is Bid {
        let gross = spec_quote_value(o.amount_base_fp, b.clearing_price_fp);
        assert(o.amount_base_fp * b.clearing_price_fp >= 0) by (nonlinear_arith);
        assert(0 <= gross <= u64::MAX);
    }
}

/// At-most-once settlement: the state a successful settlement leaves
/// behind makes a second settlement of the same order fail with
/// `OrderAlreadySettled` — and `settle_order` commits nothing on failure.
pub proof fn lemma_settle_at_most_once(m: Market, b: BatchState, o: Order, f: OrderFill)
    ensures
        ({
            let res = spec_settle(m, b, o, f);
            res is Ok ==> spec_settle(res->Ok_0.market, res->Ok_0.batch, res->Ok_0.order,
                res->Ok_0.fill) == Err::<Settled, AmmError>(AmmError::OrderAlreadySettled)
        }),
{
}

/// Budget monotonicity: a settlement decrements the batch's remaining base
/// budget by exactly the base it fills and never increases the quote
/// budget (both are unsigned, so neither can go negative), and the settled
/// flag is set exactly when the remaining base budget reaches zero.
pub proof fn lemma_settlement_budget_monotonic(m: Market, b: BatchState, o: Order, f: OrderFill)
    requires
        batch_flag_ok(b),
    ensures
        ({
            let res = spec_settle(m, b, o, f);
            res is Ok ==> {
                let b2 = res->Ok_0.batch;
                let fl = res->Ok_0.fill;
                &&& b2.remaining_base_to_settle_fp == b.remaining_base_to_settle_fp
                    - fl.filled_base_fp
                &&& b2.remaining_quote_to_settle_fp <= b.remaining_quote_to_settle_fp
                &&& batch_flag_ok(b2)
            }
        }),
{
}

} // verus!
