//! Risk and admission gate: validates a candidate order against dust,
//! per-user and market-wide caps, then admits it into the current batch.
//!
//! Validation is front-loaded: a rejected admission changes nothing, and
//! the reported error is the first violated check in the fixed order below
//! (pause, price, amount, dust floor, accumulator binding, user notional,
//! user count, batch notional, global count, id allocation, bid deposit
//! width and positivity).

use vstd::prelude::*;

use crate::errors::AmmError;
use crate::math::{quote_value, spec_quote_value};
use crate::types::{market_caps_ok, user_caps_ok, Market, Order, OrderSide, UserBatchStats};

verus! {

/// Everything a successful admission commits: the updated market counters,
/// the user's updated per-batch accumulator, and the new resting order.
pub struct Placed {
    pub market: Market,
    pub stats: UserBatchStats,
    pub order: Order,
}

/// The admission gate as a function of the old state: either the committed
/// new state or the first violated check. `place_order` behaves exactly
/// like this.
pub open spec fn spec_place(
    m: Market,
    s: UserBatchStats,
    user: u64,
    side: OrderSide,
    limit_price_fp: u64,
    amount_base_fp: u64,
) -> Result<Placed, AmmError> {
    if m.paused {
        Err(AmmError::MarketPaused)
    } else if limit_price_fp == 0 {
        Err(AmmError::InvalidPrice)
    } else if amount_base_fp == 0 {
        Err(AmmError::InvalidAmount)
    } else {
        let notional = spec_quote_value(amount_base_fp, limit_price_fp);
        if (side is Bid && notional < m.min_quote_order_fp)
            || (side is Ask && amount_base_fp < m.min_base_order_fp) {
            Err(AmmError::DustOrderTooSmall)
        } else if s.order_count != 0
            && !(s.user == user && s.market == m.id && s.batch_id == m.current_batch_id) {
            Err(AmmError::InvalidUserBatch)
        } else {
            // A first order in the batch binds a fresh, zeroed accumulator.
            let base = if s.order_count == 0 {
                UserBatchStats {
                    user,
                    market: m.id,
                    batch_id: m.current_batch_id,
                    order_count: 0,
                    notional_quote_fp: 0,
                }
            } else {
                s
            };
            let new_user_notional = base.notional_quote_fp + notional;
            let new_batch_notional = m.batch_notional_quote_fp + notional;
            if new_user_notional > u128::MAX {
                Err(AmmError::MathOverflow)
            } else if new_user_notional > m.max_notional_per_user_per_batch_quote_fp {
                Err(AmmError::MaxNotionalPerUserExceeded)
            } else if base.order_count >= m.max_orders_per_user_per_batch {
                Err(AmmError::TooManyOrdersForUser)
            } else if new_batch_notional > u128::MAX {
                Err(AmmError::MathOverflow)
            } else if new_batch_notional > m.max_notional_per_batch_quote_fp {
                Err(AmmError::MaxNotionalPerBatchExceeded)
            } else if m.global_orders_in_batch >= m.max_orders_global_per_batch {
                Err(AmmError::MaxOrdersGlobalExceeded)
            } else if m.next_order_id == u64::MAX {
                Err(AmmError::MathOverflow)
            } else if side is Bid && notional > u64::MAX {
                // A bid's deposit is stored in 64 bits; a wider notional
                // fails rather than wrap.
                Err(AmmError::MathOverflow)
            } else if side is Bid && notional == 0 {
                // A bid must deposit a positive quote amount.
                Err(AmmError::InvalidAmount)
            } else {
                Ok(Placed {
                    market: Market {
                        batch_notional_quote_fp: new_batch_notional as u128,
                        global_orders_in_batch: (m.global_orders_in_batch + 1) as u32,
                        next_order_id: (m.next_order_id + 1) as u64,
                        ..m
                    },
                    stats: UserBatchStats {
                        order_count: (base.order_count + 1) as u32,
                        notional_quote_fp: new_user_notional as u128,
                        ..base
                    },
                    order: Order {
                        user,
                        market: m.id,
                        side,
                        limit_price_fp,
                        amount_base_fp,
                        batch_id: m.current_batch_id,
                        filled: false,
                        cancelled: false,
                        quote_deposit_fp: if side is Bid { notional as u64 } else { 0 },
                        id: m.next_order_id,
                    },
                })
            }
        }
    }
}

/// Admit one order into the current batch, or reject it with the first
/// violated check and change nothing.
///
/// On success the caller owes the deposit transfer: the returned order's
/// `quote_deposit_fp` for a bid, its `amount_base_fp` for an ask.
pub fn place_order(
    market: &mut Market,
    stats: &mut UserBatchStats,
    user: u64,
    side: OrderSide,
    limit_price_fp: u64,
    amount_base_fp: u64,
) -> (r: Result<Order, AmmError>)
    ensures
        ({
            let res = spec_place(*old(market), *old(stats), user, side, limit_price_fp,
                amount_base_fp);
            match res {
                Ok(p) => r == Ok::<Order, AmmError>(p.order) && *final(market) == p.market
                    && *final(stats) == p.stats,
                Err(e) => r == Err::<Order, AmmError>(e) && *final(market) == *old(market)
                    && *final(stats) == *old(stats),
            }
        }),
{
    if market.paused {
        return Err(AmmError::MarketPaused);
    }
    if limit_price_fp == 0 {
        return Err(AmmError::InvalidPrice);
    }
    if amount_base_fp == 0 {
        return Err(AmmError::InvalidAmount);
    }

    let notional: u128 = quote_value(amount_base_fp, limit_price_fp);
    match side {
        OrderSide::Bid => {
            if notional < market.min_quote_order_fp as u128 {
                return Err(AmmError::DustOrderTooSmall);
            }
        }
        OrderSide::Ask => {
            if amount_base_fp < market.min_base_order_fp {
                return Err(AmmError::DustOrderTooSmall);
            }
        }
    }

    let fresh = stats.order_count == 0;
    if !fresh {
        if !(stats.user == user && stats.market == market.id
            && stats.batch_id == market.current_batch_id) {
            return Err(AmmError::InvalidUserBatch);
        }
    }
    let base_count: u32 = if fresh { 0 } else { stats.order_count };
    let base_notional: u128 = if fresh { 0 } else { stats.notional_quote_fp };

    let new_user_notional: u128 = match base_notional.checked_add(notional) {
        Some(v) => v,
        None => {
            return Err(AmmError::MathOverflow);
        }
    };
    if new_user_notional > market.max_notional_per_user_per_batch_quote_fp {
        return Err(AmmError::MaxNotionalPerUserExceeded);
    }
    if base_count >= market.max_orders_per_user_per_batch {
        return Err(AmmError::TooManyOrdersForUser);
    }

    let new_batch_notional: u128 = match market.batch_notional_quote_fp.checked_add(notional) {
        Some(v) => v,
        None => {
            return Err(AmmError::MathOverflow);
        }
    };
    if new_batch_notional > market.max_notional_per_batch_quote_fp {
        return Err(AmmError::MaxNotionalPerBatchExceeded);
    }
    if market.global_orders_in_batch >= market.max_orders_global_per_batch {
        return Err(AmmError::MaxOrdersGlobalExceeded);
    }

    let order_id: u64 = market.next_order_id;
    if order_id == u64::MAX {
        return Err(AmmError::MathOverflow);
    }

    let quote_deposit_fp: u64 = match side {
        OrderSide::Bid => {
            if notional > u64::MAX as u128 {
                return Err(AmmError::MathOverflow);
            }
            let needed: u64 = notional as u64;
            if needed == 0 {
                return Err(AmmError::InvalidAmount);
            }
            needed
        }
        OrderSide::Ask => 0,
    };

    // Every check passed: commit all mutations at once.
    stats.user = user;
    stats.market = market.id;
    stats.batch_id = market.current_batch_id;
    stats.order_count = base_count + 1;
    stats.notional_quote_fp = new_user_notional;

    market.batch_notional_quote_fp = new_batch_notional;
    market.global_orders_in_batch = market.global_orders_in_batch + 1;
    market.next_order_id = order_id + 1;

    Ok(Order {
        user,
        market: market.id,
        side,
        limit_price_fp,
        amount_base_fp,
        batch_id: market.current_batch_id,
        filled: false,
        cancelled: false,
        quote_deposit_fp,
        id: order_id,
    })
}

/// Cap enforcement: a successful admission leaves every accumulator within
/// its cap — the market's per-batch notional and order count, and the user's
/// per-batch notional and order count. This is the induction step of the
/// sequence-level property: together with `place_order`'s guarantee that a
/// rejected admission changes nothing (its `ensures`, `Err` case, which
/// also reports the first violated check), and with clearing's reset of
/// both market accumulators to zero (`lemma_clear_resets_caps`), no
/// sequence of admissions and clears can ever push an accumulator past
/// its cap.
pub proof fn lemma_admission_enforces_caps(
    m: Market,
    s: UserBatchStats,
    user: u64,
    side: OrderSide,
    limit_price_fp: u64,
    amount_base_fp: u64,
)
    ensures
        ({
            let res = spec_place(m, s, user, side, limit_price_fp, amount_base_fp);
            res is Ok ==> market_caps_ok(res->Ok_0.market)
                && user_caps_ok(res->Ok_0.stats, res->Ok_0.market)
        }),
{
}

} // verus!
