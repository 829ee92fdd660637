//! End-to-end auction scenarios: admission, clearing, matching, settlement.

use micro_batch_amm::admission::place_order;
use micro_batch_amm::clearing::clear_batch;
use micro_batch_amm::errors::AmmError;
use micro_batch_amm::market::{initialize_market, set_params};
use micro_batch_amm::settlement::settle_order;
use micro_batch_amm::types::{Market, Order, OrderFill, OrderSide, UserBatchStats};

const AUTHORITY: u64 = 99;

fn fresh_market() -> Market {
    initialize_market(7, AUTHORITY, 10, 0, 10).unwrap()
}

fn fresh_stats() -> UserBatchStats {
    UserBatchStats { user: 0, market: 0, batch_id: 0, order_count: 0, notional_quote_fp: 0 }
}

fn fresh_fill() -> OrderFill {
    OrderFill {
        order: 0,
        batch_id: 0,
        filled_base_fp: 0,
        filled_quote_fp: 0,
        refund_quote_fp: 0,
        refund_base_fp: 0,
        claimed: false,
    }
}

#[test]
fn single_cross_clears_at_first_encountered_tie() {
    let mut market = fresh_market();
    let mut stats1 = fresh_stats();
    let mut stats2 = fresh_stats();

    // Bid: price 100e6, amount 10e6 -> deposits 1000e6 quote.
    let bid = place_order(&mut market, &mut stats1, 1, OrderSide::Bid, 100_000_000, 10_000_000)
        .unwrap();
    assert_eq!(bid.quote_deposit_fp, 1_000_000_000);
    // Ask: price 90e6, amount 10e6 -> deposits 10e6 base.
    let ask = place_order(&mut market, &mut stats2, 2, OrderSide::Ask, 90_000_000, 10_000_000)
        .unwrap();
    assert_eq!(ask.quote_deposit_fp, 0);

    // Both candidate prices trade 10e6; the tie keeps the first-encountered
    // candidate, the bid's 100e6.
    let orders = vec![bid, ask];
    let batch = clear_batch(&mut market, &orders, AUTHORITY, 10).unwrap();
    assert_eq!(batch.clearing_price_fp, 100_000_000);
    assert_eq!(batch.total_base_traded_fp, 10_000_000);
    assert_eq!(batch.total_quote_traded_fp, 1_000_000_000);
    assert!(!batch.settled);
    assert_eq!(batch.remaining_base_to_settle_fp, 10_000_000);
    assert_eq!(batch.remaining_quote_to_settle_fp, 1_000_000_000);
    assert_eq!(batch.batch_id, 0);
    assert_eq!(market.current_batch_id, 1);
    assert_eq!(market.last_clearing_price_fp, 100_000_000);
    assert_eq!(market.batch_notional_quote_fp, 0);
    assert_eq!(market.global_orders_in_batch, 0);

    // The bid settles at its own limit price: full fill, nothing left over.
    let mut batch = batch;
    let mut bid = bid;
    let mut fill = fresh_fill();
    settle_order(&mut market, &mut batch, &mut bid, &mut fill).unwrap();
    assert!(bid.filled);
    assert!(fill.claimed);
    assert_eq!(fill.filled_base_fp, 10_000_000);
    assert_eq!(fill.filled_quote_fp, 1_000_000_000);
    assert_eq!(fill.refund_quote_fp, 0);
    assert_eq!(fill.refund_base_fp, 0);
    assert_eq!(batch.remaining_base_to_settle_fp, 0);
    assert_eq!(batch.remaining_quote_to_settle_fp, 0);
    assert!(batch.settled);

    // The shared budget is exhausted: the crossed ask can no longer settle.
    let mut ask = ask;
    let mut ask_fill = fresh_fill();
    let r = settle_order(&mut market, &mut batch, &mut ask, &mut ask_fill);
    assert_eq!(r, Err(AmmError::BatchFullySettled));
    assert!(!ask.filled);
}

#[test]
fn single_cross_ask_settles_first() {
    let mut market = fresh_market();
    let mut stats1 = fresh_stats();
    let mut stats2 = fresh_stats();
    let bid = place_order(&mut market, &mut stats1, 1, OrderSide::Bid, 100_000_000, 10_000_000)
        .unwrap();
    let ask = place_order(&mut market, &mut stats2, 2, OrderSide::Ask, 90_000_000, 10_000_000)
        .unwrap();
    let mut batch = clear_batch(&mut market, &vec![bid, ask], AUTHORITY, 10).unwrap();

    // Whoever settles first consumes the budget: here the ask receives the
    // gross quote at the clearing price, with no refund.
    let mut ask = ask;
    let mut ask_fill = fresh_fill();
    settle_order(&mut market, &mut batch, &mut ask, &mut ask_fill).unwrap();
    assert_eq!(ask_fill.filled_base_fp, 10_000_000);
    assert_eq!(ask_fill.filled_quote_fp, 1_000_000_000);
    assert_eq!(ask_fill.refund_base_fp, 0);
    assert_eq!(ask_fill.refund_quote_fp, 0);
    assert!(batch.settled);

    let mut bid = bid;
    let mut bid_fill = fresh_fill();
    assert_eq!(
        settle_order(&mut market, &mut batch, &mut bid, &mut bid_fill),
        Err(AmmError::BatchFullySettled)
    );
}

#[test]
fn bid_refund_when_clearing_below_its_limit() {
    let mut market = fresh_market();
    let mut stats1 = fresh_stats();
    let mut stats2 = fresh_stats();

    // The ask is placed first, so its price is the first-encountered
    // candidate and wins the traded-volume tie: clearing at 90e6.
    let ask = place_order(&mut market, &mut stats1, 1, OrderSide::Ask, 90_000_000, 10_000_000)
        .unwrap();
    let bid = place_order(&mut market, &mut stats2, 2, OrderSide::Bid, 100_000_000, 10_000_000)
        .unwrap();
    let mut batch = clear_batch(&mut market, &vec![ask, bid], AUTHORITY, 10).unwrap();
    assert_eq!(batch.clearing_price_fp, 90_000_000);
    assert_eq!(batch.total_quote_traded_fp, 900_000_000);

    // The bid deposited at 100e6 but pays at 90e6: the excess comes back.
    let mut bid = bid;
    let mut fill = fresh_fill();
    settle_order(&mut market, &mut batch, &mut bid, &mut fill).unwrap();
    assert_eq!(fill.filled_quote_fp, 900_000_000);
    assert_eq!(fill.refund_quote_fp, 100_000_000);
    // Conservation: filled + refunded quote equals the deposit exactly.
    assert_eq!(fill.filled_quote_fp + fill.refund_quote_fp, bid.quote_deposit_fp);
}

#[test]
fn no_cross_rolls_with_zero_price_and_settles_as_pure_refunds() {
    let mut market = fresh_market();
    let mut stats1 = fresh_stats();
    let mut stats2 = fresh_stats();
    let bid = place_order(&mut market, &mut stats1, 1, OrderSide::Bid, 50_000_000, 5_000_000)
        .unwrap();
    let ask = place_order(&mut market, &mut stats2, 2, OrderSide::Ask, 60_000_000, 5_000_000)
        .unwrap();

    // No candidate price has positive traded volume: the batch rolls.
    let mut batch = clear_batch(&mut market, &vec![bid, ask], AUTHORITY, 10).unwrap();
    assert_eq!(batch.clearing_price_fp, 0);
    assert_eq!(batch.total_base_traded_fp, 0);
    assert_eq!(batch.total_quote_traded_fp, 0);
    assert!(batch.settled);
    assert_eq!(market.current_batch_id, 1);
    assert_eq!(market.last_clearing_price_fp, 0);

    // Nothing crossed, so settling either order is a pure full refund
    // with zero fill, through the same entry point.
    let mut bid = bid;
    let mut bid_fill = fresh_fill();
    settle_order(&mut market, &mut batch, &mut bid, &mut bid_fill).unwrap();
    assert_eq!(bid_fill.filled_base_fp, 0);
    assert_eq!(bid_fill.filled_quote_fp, 0);
    assert_eq!(bid_fill.refund_quote_fp, 250_000_000);
    assert_eq!(bid_fill.refund_base_fp, 0);
    assert!(bid.filled);
    assert!(bid_fill.claimed);

    let mut ask = ask;
    let mut ask_fill = fresh_fill();
    settle_order(&mut market, &mut batch, &mut ask, &mut ask_fill).unwrap();
    assert_eq!(ask_fill.filled_base_fp, 0);
    assert_eq!(ask_fill.filled_quote_fp, 0);
    assert_eq!(ask_fill.refund_base_fp, 5_000_000);
    assert_eq!(ask_fill.refund_quote_fp, 0);

    // Pure refunds never touch the (empty) budget.
    assert_eq!(batch.remaining_base_to_settle_fp, 0);
    assert!(batch.settled);
}

#[test]
fn dust_bid_rejected_without_any_mutation() {
    let mut market = fresh_market();
    set_params(
        &mut market,
        AUTHORITY,
        0,
        u128::MAX,
        u128::MAX,
        u32::MAX,
        0,
        0,
        1,
        100,
        0,
        0,
    )
    .unwrap();
    let before = market;
    let mut stats = fresh_stats();

    // Computed notional 50 is below the quote dust floor of 100.
    let r = place_order(&mut market, &mut stats, 1, OrderSide::Bid, 1_000_000, 50);
    assert_eq!(r, Err(AmmError::DustOrderTooSmall));
    assert_eq!(market, before);
    assert_eq!(stats, fresh_stats());
}

#[test]
fn empty_batch_rollover_is_a_no_op() {
    let mut market = fresh_market();
    let before = market;
    let batch = clear_batch(&mut market, &vec![], AUTHORITY, 10).unwrap();
    assert_eq!(batch.clearing_price_fp, 0);
    assert_eq!(batch.total_base_traded_fp, 0);
    assert_eq!(batch.total_quote_traded_fp, 0);
    assert_eq!(batch.remaining_base_to_settle_fp, 0);
    assert_eq!(batch.remaining_quote_to_settle_fp, 0);
    assert!(batch.settled);
    assert_eq!(batch.keeper, AUTHORITY);
    assert_eq!(batch.created_slot, 0);
    assert_eq!(batch.cleared_slot, 10);
    // Only the batch id, the window clock and the in-batch accumulators move.
    assert_eq!(market.current_batch_id, before.current_batch_id + 1);
    assert_eq!(market.last_batch_slot, 10);
    assert_eq!(market.next_order_id, before.next_order_id);
    assert_eq!(market.protocol_fees_accrued_fp, before.protocol_fees_accrued_fp);
    assert_eq!(market.last_clearing_price_fp, before.last_clearing_price_fp);
}

#[test]
fn ineligible_orders_are_silently_skipped() {
    let mut market = fresh_market();
    let mut stats = fresh_stats();
    let mut order = place_order(&mut market, &mut stats, 1, OrderSide::Bid, 100_000_000,
        10_000_000)
        .unwrap();
    order.cancelled = true;
    let stale = Order { batch_id: 5, ..order };
    let foreign = Order { market: 1234, cancelled: false, ..order };

    // A cancelled order, a stale one and a foreign one leave nothing
    // eligible: the batch rolls as if empty.
    let batch = clear_batch(&mut market, &vec![order, stale, foreign], AUTHORITY, 10).unwrap();
    assert_eq!(batch.clearing_price_fp, 0);
    assert!(batch.settled);
}

#[test]
fn affordability_cap_and_sub_dust_stop() {
    let mut market = fresh_market();
    let mut stats1 = fresh_stats();
    let mut stats2 = fresh_stats();

    // At price 1 the bid's deposit floors to 1 quote unit, which affords
    // only 1e6 base: the first trade is capped there, and the next trade's
    // gross quote floors to zero, stopping the pass.
    let bid = place_order(&mut market, &mut stats1, 1, OrderSide::Bid, 1, 1_500_000).unwrap();
    assert_eq!(bid.quote_deposit_fp, 1);
    let ask = place_order(&mut market, &mut stats2, 2, OrderSide::Ask, 1, 1_500_000).unwrap();

    let batch = clear_batch(&mut market, &vec![bid, ask], AUTHORITY, 10).unwrap();
    assert_eq!(batch.clearing_price_fp, 1);
    assert_eq!(batch.total_base_traded_fp, 1_000_000);
    assert_eq!(batch.total_quote_traded_fp, 1);
}

#[test]
fn clearing_totals_wider_than_64_bits_fail_without_rolling() {
    let mut market = fresh_market();
    let mut stats1 = fresh_stats();
    let mut stats2 = fresh_stats();

    // Three crossing pairs of 2^63 base each: the matched total, 3 * 2^63,
    // does not fit the snapshot's 64-bit traded-volume fields. The clear
    // fails rather than wrap, and the batch does not roll.
    let mut orders = Vec::new();
    for _ in 0..3 {
        orders.push(
            place_order(&mut market, &mut stats1, 1, OrderSide::Bid, 1_000_000, 1u64 << 63)
                .unwrap(),
        );
        orders.push(
            place_order(&mut market, &mut stats2, 2, OrderSide::Ask, 1_000_000, 1u64 << 63)
                .unwrap(),
        );
    }
    let before = market;
    let r = clear_batch(&mut market, &orders, AUTHORITY, 10);
    assert_eq!(r, Err(AmmError::MathOverflow));
    assert_eq!(market, before);
    assert_eq!(market.current_batch_id, 0);
}

#[test]
fn budget_exhaustion_leaves_later_crossed_orders_unfilled() {
    let mut market = fresh_market();
    let mut stats1 = fresh_stats();
    let mut stats2 = fresh_stats();

    let bid1 = place_order(&mut market, &mut stats1, 1, OrderSide::Bid, 100_000_000, 6_000_000)
        .unwrap();
    let bid2 = place_order(&mut market, &mut stats1, 1, OrderSide::Bid, 100_000_000, 6_000_000)
        .unwrap();
    let ask = place_order(&mut market, &mut stats2, 2, OrderSide::Ask, 90_000_000, 10_000_000)
        .unwrap();
    let mut batch = clear_batch(&mut market, &vec![bid1, bid2, ask], AUTHORITY, 10).unwrap();
    assert_eq!(batch.remaining_base_to_settle_fp, 10_000_000);

    // The first bid settles in full and consumes most of the budget.
    let mut bid1 = bid1;
    let mut fill1 = fresh_fill();
    settle_order(&mut market, &mut batch, &mut bid1, &mut fill1).unwrap();
    assert_eq!(batch.remaining_base_to_settle_fp, 4_000_000);

    // Neither remaining crossed order fits the leftover budget: the
    // remaining volume is stuck above zero. First-come, first-served.
    let mut bid2 = bid2;
    let mut fill2 = fresh_fill();
    assert_eq!(
        settle_order(&mut market, &mut batch, &mut bid2, &mut fill2),
        Err(AmmError::BatchFullySettled)
    );
    let mut ask = ask;
    let mut ask_fill = fresh_fill();
    assert_eq!(
        settle_order(&mut market, &mut batch, &mut ask, &mut ask_fill),
        Err(AmmError::BatchFullySettled)
    );
    assert_eq!(batch.remaining_base_to_settle_fp, 4_000_000);
    assert!(!batch.settled);
}

#[test]
fn price_band_rejects_large_move_without_rolling() {
    let mut market = fresh_market();
    set_params(&mut market, AUTHORITY, 0, u128::MAX, u128::MAX, u32::MAX, 100, 0, 1, 1, 0, 0)
        .unwrap();
    market.last_clearing_price_fp = 100_000_000;
    let mut stats1 = fresh_stats();
    let mut stats2 = fresh_stats();

    // 102e6 against a prior 100e6 is a 200 bps move; the band allows 100.
    let bid = place_order(&mut market, &mut stats1, 1, OrderSide::Bid, 102_000_000, 1_000_000)
        .unwrap();
    let ask = place_order(&mut market, &mut stats2, 2, OrderSide::Ask, 102_000_000, 1_000_000)
        .unwrap();
    let before = market;
    let r = clear_batch(&mut market, &vec![bid, ask], AUTHORITY, 10);
    assert_eq!(r, Err(AmmError::PriceMoveTooLarge));
    // The batch does not roll: state is unchanged, the caller may retry.
    assert_eq!(market, before);
    assert_eq!(market.current_batch_id, 0);
}

#[test]
fn price_band_rejects_a_move_wider_than_64_bits_of_bps() {
    let mut market = fresh_market();
    set_params(&mut market, AUTHORITY, 0, u128::MAX, u128::MAX, u32::MAX, 1, 0, 1, 1, 0, 0)
        .unwrap();
    market.last_clearing_price_fp = 1;
    let mut stats1 = fresh_stats();
    let mut stats2 = fresh_stats();

    // Against a prior price of 1, a move to 2^60 + 1 is a move of
    // 2^60 * 10^4 bps — far beyond what 64 bits hold, and astronomically
    // outside a 1 bps band. The whole move is compared: the clear fails
    // and nothing rolls.
    let p: u64 = (1u64 << 60) + 1;
    let bid = place_order(&mut market, &mut stats1, 1, OrderSide::Bid, p, 1_000_000).unwrap();
    let ask = place_order(&mut market, &mut stats2, 2, OrderSide::Ask, p, 1_000_000).unwrap();
    let before = market;
    let r = clear_batch(&mut market, &vec![bid, ask], AUTHORITY, 10);
    assert_eq!(r, Err(AmmError::PriceMoveTooLarge));
    assert_eq!(market, before);
}
