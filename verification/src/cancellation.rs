//! Cancellation: a full refund of an open order, allowed only while the
//! batch it belongs to is still the current one and that batch's window is
//! still open. After the window closes the same economic outcome (for an
//! uncrossed order) is reached through settlement instead.

use vstd::prelude::*;

use crate::errors::AmmError;
use crate::types::{Market, Order, OrderSide};

verus! {

/// The transfer a cancellation (or a refund-only settlement) directs:
/// base back to an ask's owner, quote back to a bid's owner.
#[derive(Clone, Copy, Debug, PartialEq, Eq, Structural)]
pub struct Refund {
    pub base_fp: u64,
    pub quote_fp: u64,
}

/// Everything a successful cancellation commits: the terminal order and
/// the refund owed to its owner.
pub struct CancelOutcome {
    pub order: Order,
    pub refund: Refund,
}

/// Cancellation as a function of the old state: either the cancelled order
/// with its full refund, or the first violated check. `cancel_order`
/// behaves exactly like this.
pub open spec fn spec_cancel(m: Market, o: Order, now_slot: u64) -> Result<
    CancelOutcome,
    AmmError,
> {
    if m.paused {
        Err(AmmError::MarketPaused)
    } else if o.cancelled {
        Err(AmmError::OrderCancelled)
    } else if o.filled {
        Err(AmmError::OrderAlreadySettled)
    } else if o.batch_id != m.current_batch_id || now_slot >= m.last_batch_slot
        + m.batch_duration_slots {
        // An order of an earlier batch can no longer be cancelled, however
        // open the current window is: its own window has closed.
        Err(AmmError::BatchAlreadyClosed)
    } else {
        Ok(CancelOutcome {
            order: Order { cancelled: true, ..o },
            refund: Refund {
                base_fp: if o.side is Ask { o.amount_base_fp } else { 0 },
                quote_fp: if o.side is Bid { o.quote_deposit_fp } else { 0 },
            },
        })
    }
}

/// Cancel an open order before its batch window closes, or fail with the
/// first violated check and change nothing. On success the caller owes the
/// returned refund transfer: the entire original deposit.
pub fn cancel_order(market: &Market, order: &mut Order, now_slot: u64) -> (r: Result<
    Refund,
    AmmError,
>)
    requires
        market.last_batch_slot + market.batch_duration_slots <= u64::MAX,
    ensures
        ({
            let res = spec_cancel(*market, *old(order), now_slot);
            match res {
                Ok(c) => r == Ok::<Refund, AmmError>(c.refund) && *final(order) == c.order,
                Err(e) => r == Err::<Refund, AmmError>(e) && *final(order) == *old(order),
            }
        }),
{
    if market.paused {
        return Err(AmmError::MarketPaused);
    }
    if order.cancelled {
        return Err(AmmError::OrderCancelled);
    }
    if order.filled {
        return Err(AmmError::OrderAlreadySettled);
    }
    if order.batch_id != market.current_batch_id
        || now_slot >= market.last_batch_slot + market.batch_duration_slots {
        return Err(AmmError::BatchAlreadyClosed);
    }
    let refund = match order.side {
        OrderSide::Bid => Refund { base_fp: 0, quote_fp: order.quote_deposit_fp },
        OrderSide::Ask => Refund { base_fp: order.amount_base_fp, quote_fp: 0 },
    };
    order.cancelled = true;
    Ok(refund)
}

} // verus!
