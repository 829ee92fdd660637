//! Direct checks of the matching pass: stable ordering and the two-cursor
//! walk.

use micro_batch_amm::matching::{match_walk, sort_orders, MatchOrder};

fn mo(limit: u64, remaining: u64, deposit: u64) -> MatchOrder {
    MatchOrder {
        limit_price_fp: limit,
        remaining_base_fp: remaining,
        quote_deposit_fp: deposit,
    }
}

#[test]
fn sort_is_stable_for_equal_prices() {
    // The deposits mark each order; equal prices must keep arrival order.
    let input = vec![mo(5, 1, 1), mo(7, 1, 2), mo(5, 1, 3), mo(7, 1, 4)];
    let desc = sort_orders(&input, true);
    assert_eq!(
        desc,
        vec![mo(7, 1, 2), mo(7, 1, 4), mo(5, 1, 1), mo(5, 1, 3)]
    );
    let asc = sort_orders(&input, false);
    assert_eq!(
        asc,
        vec![mo(5, 1, 1), mo(5, 1, 3), mo(7, 1, 2), mo(7, 1, 4)]
    );
}

#[test]
fn walk_stops_at_the_first_uncrossed_pair() {
    // Bids descending, asks ascending, clearing price 10e6. The second
    // bid's limit is below the price: only the first pair trades.
    let bids = vec![mo(12_000_000, 5_000_000, 60_000_000), mo(9_000_000, 5_000_000, 45_000_000)];
    let asks = vec![mo(8_000_000, 5_000_000, 0), mo(11_000_000, 5_000_000, 0)];
    let (base, quote) = match_walk(&bids, &asks, 10_000_000).unwrap();
    assert_eq!(base, 5_000_000);
    // 5e6 * 10e6 / 1e6.
    assert_eq!(quote, 50_000_000);
}

#[test]
fn walk_splits_one_ask_across_two_bids() {
    let bids = vec![mo(10_000_000, 3_000_000, 30_000_000), mo(10_000_000, 4_000_000, 40_000_000)];
    let asks = vec![mo(10_000_000, 5_000_000, 0)];
    let (base, quote) = match_walk(&bids, &asks, 10_000_000).unwrap();
    // First bid takes 3e6, the second the ask's remaining 2e6.
    assert_eq!(base, 5_000_000);
    assert_eq!(quote, 50_000_000);
}

#[test]
fn walk_skips_a_bid_that_affords_nothing() {
    // The first bid's deposit affords zero base at this price; the walk
    // advances past it and fills from the second bid.
    let bids = vec![mo(10_000_000, 2_000_000, 0), mo(10_000_000, 2_000_000, 20_000_000)];
    let asks = vec![mo(10_000_000, 2_000_000, 0)];
    let (base, quote) = match_walk(&bids, &asks, 10_000_000).unwrap();
    assert_eq!(base, 2_000_000);
    assert_eq!(quote, 20_000_000);
}

#[test]
fn walk_advances_both_cursors_on_a_simultaneous_fill() {
    // Each pair exhausts together; every order fills completely.
    let bids = vec![mo(10_000_000, 1_000_000, 10_000_000), mo(10_000_000, 2_000_000, 20_000_000)];
    let asks = vec![mo(10_000_000, 1_000_000, 0), mo(10_000_000, 2_000_000, 0)];
    let r = match_walk(&bids, &asks, 10_000_000);
    assert_eq!(r, Ok((3_000_000, 30_000_000)));
}
