//! The typed errors of the engine.
//!
//! Every operation fails with exactly one variant: the first violated check
//! in that operation's fixed check order. A failed operation commits nothing.

use vstd::prelude::*;

verus! {

/// Why an engine operation was rejected. No operation aggregates several
/// violations: the first failed check decides the variant.
#[derive(Clone, Copy, Debug, PartialEq, Eq, Structural)]
pub enum AmmError {
    /// A widened multiply or an addition overflowed, or a computed value
    /// left the 64-bit width of the field that stores it. Nothing wraps
    /// silently.
    MathOverflow,
    /// A fee in basis points exceeds its allowed ceiling.
    InvalidFeeBps,
    /// The market is paused.
    MarketPaused,
    /// A limit price of zero.
    InvalidPrice,
    /// A base amount of zero, or a bid whose quote deposit would be zero.
    InvalidAmount,
    /// The clearing timing gate has not opened yet.
    BatchNotReady,
    /// The caller-supplied order list is malformed.
    InvalidRemainingAccountsLayout,
    /// The caller is not the market authority.
    Unauthorized,
    /// The user already holds the maximum number of orders in this batch.
    TooManyOrdersForUser,
    /// The per-user batch accumulator is bound to another user, market or batch.
    InvalidUserBatch,
    /// The order would push the user's per-batch notional over its cap.
    MaxNotionalPerUserExceeded,
    /// The order would push the market's per-batch notional over its cap.
    MaxNotionalPerBatchExceeded,
    /// The batch already holds the maximum number of orders market-wide.
    MaxOrdersGlobalExceeded,
    /// The order is below the dust floor for its side.
    DustOrderTooSmall,
    /// The new clearing price moves further from the last one than the band allows.
    PriceMoveTooLarge,
    /// The caller is not the configured sole keeper.
    KeeperNotAllowed,
    /// The order was already cancelled.
    OrderCancelled,
    /// The order was already settled (or, for cancellation, already filled).
    OrderAlreadySettled,
    /// The order's batch window has closed; cancellation must go through
    /// settlement.
    BatchAlreadyClosed,
    /// The batch's remaining settlement budget cannot cover this order.
    BatchFullySettled,
    /// The batch snapshot belongs to another market.
    BatchMarketMismatch,
    /// The batch snapshot does not match the order's batch id.
    BatchIdMismatch,
}

} // verus!
