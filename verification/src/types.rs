//! The data model of the engine.
//!
//! External account storage, custody and authentication are out of scope:
//! every identity (authority, user, keeper, market, order) is an opaque
//! integer key assigned by the surrounding system, and the engine only
//! compares such keys for equality.

use vstd::prelude::*;

verus! {

/// The side of a limit order.
#[derive(Clone, Copy, Debug, PartialEq, Eq, Structural)]
pub enum OrderSide {
    /// Buy base, pay quote; deposits quote collateral.
    Bid,
    /// Sell base, receive quote; deposits the base amount itself.
    Ask,
}

/// Mutable configuration and rolling state for one base/quote pair.
#[derive(Clone, Copy, Debug, PartialEq, Eq, Structural)]
pub struct Market {
    /// Opaque key under which the surrounding system stores this market.
    pub id: u64,
    /// The principal allowed to pause the market and update its parameters.
    pub authority: u64,

    /// Length of one batch window, in time units (slots).
    pub batch_duration_slots: u64,
    /// Time at which the last batch was cleared (0 before the first clear).
    pub last_batch_slot: u64,
    /// Identifier of the batch currently accepting orders.
    pub current_batch_id: u64,
    /// Next order id to assign; monotonic, never reused.
    pub next_order_id: u64,

    /// Total fee, in basis points.
    pub fee_bps: u16,
    /// Per-user per-batch order-count ceiling.
    pub max_orders_per_user_per_batch: u32,
    /// When set, every state-changing operation is rejected.
    pub paused: bool,

    /// Market-wide per-batch notional ceiling (quote, fixed point).
    pub max_notional_per_batch_quote_fp: u128,
    /// Per-user per-batch notional ceiling (quote, fixed point).
    pub max_notional_per_user_per_batch_quote_fp: u128,
    /// Notional admitted into the current batch so far (quote, fixed point).
    pub batch_notional_quote_fp: u128,

    /// Market-wide per-batch order-count ceiling.
    pub max_orders_global_per_batch: u32,
    /// Orders admitted into the current batch so far, market-wide.
    pub global_orders_in_batch: u32,

    /// Max allowed move of the clearing price from the last one, in basis
    /// points; 0 disables the band.
    pub max_price_move_bps: u16,
    /// Clearing price of the last batch that crossed (0 before any cross).
    pub last_clearing_price_fp: u64,

    /// Keeper reward, in basis points of the batch's traded quote volume.
    pub keeper_fee_bps: u16,
    /// Account credited with keeper rewards (accounting only).
    pub keeper_treasury: u64,
    /// Minimum spacing between two clears, in time units.
    pub min_slots_between_clears: u64,
    /// When set, only `only_keeper` may clear batches.
    pub keeper_restricted: bool,
    /// The sole keeper, when `keeper_restricted` is set.
    pub only_keeper: u64,

    /// Account credited with protocol fees (accounting only).
    pub protocol_treasury: u64,
    /// Referral share of the total fee, in basis points.
    pub referral_fee_bps: u16,
    /// Protocol share of the total fee, in basis points.
    pub protocol_fee_bps: u16,
    /// Protocol fees accrued so far (quote, fixed point; accounting only).
    pub protocol_fees_accrued_fp: u128,

    /// Dust floor for asks: minimum base amount (fixed point).
    pub min_base_order_fp: u64,
    /// Dust floor for bids: minimum quote notional (fixed point).
    pub min_quote_order_fp: u64,

    /// Reason code recorded by the last pause toggle.
    pub pause_reason: u8,
}

/// One resting limit order. Immutable once cancelled or filled.
#[derive(Clone, Copy, Debug, PartialEq, Eq, Structural)]
pub struct Order {
    /// Owner of the order.
    pub user: u64,
    /// Key of the market the order belongs to.
    pub market: u64,
    /// Bid or ask.
    pub side: OrderSide,
    /// Limit price (fixed point, scale `PRICE_SCALE`).
    pub limit_price_fp: u64,
    /// Base quantity requested (fixed point).
    pub amount_base_fp: u64,
    /// The batch the order belongs to, for its whole life.
    pub batch_id: u64,
    /// Set exactly once, by settlement.
    pub filled: bool,
    /// Set exactly once, by cancellation before the window closes.
    pub cancelled: bool,
    /// Quote collateral deposited (bids only; 0 for asks, whose deposit is
    /// the base amount itself).
    pub quote_deposit_fp: u64,
    /// Monotonically assigned sequence id.
    pub id: u64,
}

/// Per (user, market, batch) accumulator used solely for admission-time
/// cap enforcement. A fresh record is all zeroes; the first admission in a
/// batch binds it.
#[derive(Clone, Copy, Debug, PartialEq, Eq, Structural)]
pub struct UserBatchStats {
    /// The user this record is bound to.
    pub user: u64,
    /// The market this record is bound to.
    pub market: u64,
    /// The batch this record is bound to.
    pub batch_id: u64,
    /// Orders this user has placed in this batch.
    pub order_count: u32,
    /// Quote notional this user has committed in this batch (fixed point).
    pub notional_quote_fp: u128,
}

/// Snapshot of one batch's clearing outcome. Created once per batch at
/// clearing time; only the remaining-to-settle budget and the settled flag
/// change afterwards, by settlement of member orders.
#[derive(Clone, Copy, Debug, PartialEq, Eq, Structural)]
pub struct BatchState {
    /// Key of the market the batch belongs to.
    pub market: u64,
    /// The batch this snapshot describes.
    pub batch_id: u64,
    /// Uniform clearing price; 0 when nothing crossed.
    pub clearing_price_fp: u64,
    /// Total matched base volume. Clearing fails rather than store a
    /// total this field cannot hold.
    pub total_base_traded_fp: u64,
    /// Total matched quote volume. Clearing fails rather than store a
    /// total this field cannot hold.
    pub total_quote_traded_fp: u64,
    /// Time at which the batch window opened.
    pub created_slot: u64,
    /// Time at which the batch was cleared.
    pub cleared_slot: u64,
    /// Set once the remaining base budget reaches zero.
    pub settled: bool,
    /// The caller that cleared the batch.
    pub keeper: u64,
    /// Keeper reward in quote terms (accounting only).
    pub keeper_reward_quote_fp: u128,
    /// Matched base volume not yet disbursed via settlement.
    pub remaining_base_to_settle_fp: u128,
    /// Matched quote volume not yet disbursed via settlement.
    pub remaining_quote_to_settle_fp: u128,
}

/// Terminal settlement receipt for one order; written exactly once.
#[derive(Clone, Copy, Debug, PartialEq, Eq, Structural)]
pub struct OrderFill {
    /// Sequence id of the settled order.
    pub order: u64,
    /// The batch the order settled against.
    pub batch_id: u64,
    /// Base paid out to the order's owner.
    pub filled_base_fp: u64,
    /// Quote paid (bid) or received (ask). Settlement fails rather than
    /// store a gross quote this field cannot hold.
    pub filled_quote_fp: u64,
    /// Unused quote collateral returned.
    pub refund_quote_fp: u64,
    /// Unused base collateral returned.
    pub refund_base_fp: u64,
    /// One-shot guard: a second settlement of the same order fails.
    pub claimed: bool,
}

/// Read-only snapshot of a market's configuration and accumulators.
#[derive(Clone, Copy, Debug, PartialEq, Eq, Structural)]
pub struct MarketView {
    pub market: u64,
    pub authority: u64,
    pub batch_duration_slots: u64,
    pub last_batch_slot: u64,
    pub current_batch_id: u64,
    pub next_order_id: u64,
    pub fee_bps: u16,
    pub max_orders_per_user_per_batch: u32,
    pub paused: bool,
    pub max_notional_per_batch_quote_fp: u128,
    pub max_notional_per_user_per_batch_quote_fp: u128,
    pub batch_notional_quote_fp: u128,
    pub max_orders_global_per_batch: u32,
    pub global_orders_in_batch: u32,
    pub max_price_move_bps: u16,
    pub last_clearing_price_fp: u64,
    pub keeper_fee_bps: u16,
    pub min_base_order_fp: u64,
    pub min_quote_order_fp: u64,
    pub protocol_fee_bps: u16,
    pub referral_fee_bps: u16,
    pub protocol_fees_accrued_fp: u128,
    pub pause_reason: u8,
}

/// The running caps invariant of a market: the in-batch accumulators never
/// exceed their configured ceilings. Admission preserves it and clearing
/// re-establishes it by resetting both accumulators to zero.
pub open spec fn market_caps_ok(m: Market) -> bool {
    &&& m.batch_notional_quote_fp <= m.max_notional_per_batch_quote_fp
    &&& m.global_orders_in_batch <= m.max_orders_global_per_batch
}

/// Validity of a batch snapshot's settled flag: a batch is marked settled
/// exactly when its remaining base budget is zero. Clearing establishes
/// this and settlement preserves it.
pub open spec fn batch_flag_ok(b: BatchState) -> bool {
    b.settled <==> b.remaining_base_to_settle_fp == 0
}

/// The caps invariant of one user's per-batch accumulator.
pub open spec fn user_caps_ok(s: UserBatchStats, m: Market) -> bool {
    &&& s.notional_quote_fp <= m.max_notional_per_user_per_batch_quote_fp
    &&& s.order_count <= m.max_orders_per_user_per_batch
}

} // verus!
