//! Batch membership, clearing-price discovery and the batch rollover.
//!
//! The caller supplies the orders it asserts belong to the closing batch;
//! the engine validates each one's eligibility, finds the candidate price
//! that maximizes matched volume (earliest candidate wins ties), checks the
//! price band, runs the matching pass, and rolls the batch.

use vstd::prelude::*;

use crate::errors::AmmError;
use crate::math::{spec_bps_of, bps_of};
use crate::matching::{
    lemma_walk_bounds, match_walk, rem_at, side_orders, sort_orders, spec_side_orders,
    spec_sort_orders, spec_walk_totals, BatchOrder,
};
use crate::types::{batch_flag_ok, market_caps_ok, BatchState, Market, Order, OrderSide};
use crate::BPS_DENOM;

verus! {

/// Whether one supplied order may take part in this clearing: it belongs
/// to this market and batch, asks for a positive amount, and is not
/// cancelled. Ineligible orders are silently skipped.
pub open spec fn order_eligible(o: Order, market_id: u64, batch_id: u64) -> bool {
    &&& o.market == market_id
    &&& o.batch_id == batch_id
    &&& o.amount_base_fp > 0
    &&& !o.cancelled
}

/// What clearing reads of an eligible order.
pub open spec fn to_batch_order(o: Order) -> BatchOrder {
    BatchOrder {
        side: o.side,
        limit_price_fp: o.limit_price_fp,
        amount_base_fp: o.amount_base_fp,
        quote_deposit_fp: o.quote_deposit_fp,
    }
}

/// The eligible orders among the supplied ones, in supplied order.
pub open spec fn spec_eligible(orders: Seq<Order>, market_id: u64, batch_id: u64) -> Seq<
    BatchOrder,
>
    decreases orders.len(),
{
    if orders.len() == 0 {
        Seq::empty()
    } else {
        let rest = spec_eligible(orders.drop_last(), market_id, batch_id);
        if order_eligible(orders.last(), market_id, batch_id) {
            rest.push(to_batch_order(orders.last()))
        } else {
            rest
        }
    }
}

/// The distinct limit prices among the eligible orders, in first-encounter
/// order: the candidate clearing prices.
pub open spec fn spec_candidates(elig: Seq<BatchOrder>) -> Seq<u64>
    decreases elig.len(),
{
    if elig.len() == 0 {
        Seq::empty()
    } else {
        let rest = spec_candidates(elig.drop_last());
        if rest.contains(elig.last().limit_price_fp) {
            rest
        } else {
            rest.push(elig.last().limit_price_fp)
        }
    }
}

/// Total original base amount of bids willing to buy at `p` or better.
pub open spec fn spec_bid_volume(elig: Seq<BatchOrder>, p: u64) -> int
    decreases elig.len(),
{
    if elig.len() == 0 {
        0
    } else {
        spec_bid_volume(elig.drop_last(), p) + if elig.last().side is Bid
            && elig.last().limit_price_fp >= p {
            elig.last().amount_base_fp as int
        } else {
            0
        }
    }
}

/// Total original base amount of asks willing to sell at `p` or better.
pub open spec fn spec_ask_volume(elig: Seq<BatchOrder>, p: u64) -> int
    decreases elig.len(),
{
    if elig.len() == 0 {
        0
    } else {
        spec_ask_volume(elig.drop_last(), p) + if elig.last().side is Ask
            && elig.last().limit_price_fp <= p {
            elig.last().amount_base_fp as int
        } else {
            0
        }
    }
}

/// The volume that would match at candidate price `p`: the lesser of the
/// willing bid and ask volume.
pub open spec fn spec_traded(elig: Seq<BatchOrder>, p: u64) -> int {
    if spec_bid_volume(elig, p) <= spec_ask_volume(elig, p) {
        spec_bid_volume(elig, p)
    } else {
        spec_ask_volume(elig, p)
    }
}

/// Scan the candidates from index `i` on, starting from the best found so
/// far: only a strictly greater traded volume displaces it, so the
/// earliest candidate wins ties.
pub open spec fn spec_best_scan(
    elig: Seq<BatchOrder>,
    cands: Seq<u64>,
    i: int,
    best_price: u64,
    best_traded: int,
) -> (u64, int)
    decreases cands.len() - i,
    when 0 <= i
{
    if i >= cands.len() {
        (best_price, best_traded)
    } else {
        let tr = spec_traded(elig, cands[i]);
        if tr > best_traded {
            spec_best_scan(elig, cands, i + 1, cands[i], tr)
        } else {
            spec_best_scan(elig, cands, i + 1, best_price, best_traded)
        }
    }
}

/// The chosen clearing price and its traded volume: the earliest candidate
/// with the strictly greatest traded volume, or `(0, 0)` when nothing
/// crosses at any candidate.
pub open spec fn spec_best(elig: Seq<BatchOrder>) -> (u64, int) {
    spec_best_scan(elig, spec_candidates(elig), 0, 0, 0)
}

/// The price-band circuit breaker: with a prior clearing price and a
/// configured band, the whole absolute move in basis points must not
/// exceed the band.
pub open spec fn spec_band_ok(new_price: u64, last_price: u64, max_move_bps: u16) -> bool {
    if last_price > 0 && max_move_bps > 0 {
        let hi = if new_price >= last_price { new_price as int } else { last_price as int };
        let lo = if new_price >= last_price { last_price as int } else { new_price as int };
        (hi - lo) * (BPS_DENOM as int) / (last_price as int) <= max_move_bps
    } else {
        true
    }
}

/// Everything a successful clearing commits: the rolled market and the new
/// batch snapshot.
pub struct ClearOutcome {
    pub market: Market,
    pub batch: BatchState,
}

/// The batch snapshot and market update of a rollover in which nothing
/// crossed: clearing price 0, zero volumes, trivially settled.
pub open spec fn spec_roll_empty(m: Market, caller: u64, now_slot: u64) -> ClearOutcome {
    ClearOutcome {
        market: Market {
            last_batch_slot: now_slot,
            current_batch_id: (m.current_batch_id + 1) as u64,
            batch_notional_quote_fp: 0,
            global_orders_in_batch: 0,
            ..m
        },
        batch: BatchState {
            market: m.id,
            batch_id: m.current_batch_id,
            clearing_price_fp: 0,
            total_base_traded_fp: 0,
            total_quote_traded_fp: 0,
            created_slot: m.last_batch_slot,
            cleared_slot: now_slot,
            settled: true,
            keeper: caller,
            keeper_reward_quote_fp: 0,
            remaining_base_to_settle_fp: 0,
            remaining_quote_to_settle_fp: 0,
        },
    }
}

/// Clearing as a function of the old state: either the rolled market with
/// the batch snapshot, or the first violated check with nothing changed.
/// `clear_batch` behaves exactly like this.
pub open spec fn spec_clear(m: Market, orders: Seq<Order>, caller: u64, now_slot: u64) -> Result<
    ClearOutcome,
    AmmError,
> {
    if m.paused {
        Err(AmmError::MarketPaused)
    } else if m.keeper_restricted && m.only_keeper != caller {
        Err(AmmError::KeeperNotAllowed)
    } else if now_slot < m.last_batch_slot + m.batch_duration_slots || now_slot
        < m.last_batch_slot + m.min_slots_between_clears {
        Err(AmmError::BatchNotReady)
    } else {
        let elig = spec_eligible(orders, m.id, m.current_batch_id);
        let best = spec_best(elig);
        if elig.len() == 0 || best.1 == 0 || best.0 == 0 {
            if m.current_batch_id == u64::MAX {
                Err(AmmError::MathOverflow)
            } else {
                Ok(spec_roll_empty(m, caller, now_slot))
            }
        } else if !spec_band_ok(best.0, m.last_clearing_price_fp, m.max_price_move_bps) {
            Err(AmmError::PriceMoveTooLarge)
        } else {
            let bids = spec_sort_orders(spec_side_orders(elig, OrderSide::Bid), true);
            let asks = spec_sort_orders(spec_side_orders(elig, OrderSide::Ask), false);
            let w = spec_walk_totals(bids, asks, best.0);
            if w.1 > u128::MAX {
                Err(AmmError::MathOverflow)
            } else if m.keeper_fee_bps > 0 && w.1 * m.keeper_fee_bps > u128::MAX {
                Err(AmmError::MathOverflow)
            } else if m.current_batch_id == u64::MAX {
                Err(AmmError::MathOverflow)
            } else if w.0 > u64::MAX || w.1 > u64::MAX {
                // The snapshot records the traded totals in 64 bits; wider
                // totals fail rather than wrap.
                Err(AmmError::MathOverflow)
            } else {
                Ok(ClearOutcome {
                    market: Market {
                        last_batch_slot: now_slot,
                        current_batch_id: (m.current_batch_id + 1) as u64,
                        batch_notional_quote_fp: 0,
                        global_orders_in_batch: 0,
                        last_clearing_price_fp: best.0,
                        ..m
                    },
                    batch: BatchState {
                        market: m.id,
                        batch_id: m.current_batch_id,
                        clearing_price_fp: best.0,
                        total_base_traded_fp: w.0 as u64,
                        total_quote_traded_fp: w.1 as u64,
                        created_slot: m.last_batch_slot,
                        cleared_slot: now_slot,
                        settled: w.0 == 0,
                        keeper: caller,
                        keeper_reward_quote_fp: if m.keeper_fee_bps > 0 {
                            spec_bps_of(w.1, m.keeper_fee_bps) as u128
                        } else {
                            0
                        },
                        remaining_base_to_settle_fp: w.0 as u128,
                        remaining_quote_to_settle_fp: w.1 as u128,
                    },
                })
            }
        }
    }
}

/// Keep the eligible orders, in order.
fn eligible_orders(orders: &Vec<Order>, market_id: u64, batch_id: u64) -> (r: Vec<BatchOrder>)
    ensures
        r@ == spec_eligible(orders@, market_id, batch_id),
{
    let mut r: Vec<BatchOrder> = Vec::new();
    let mut i: usize = 0;
    while i < orders.len()
        invariant
            i <= orders.len(),
            r@ == spec_eligible(orders@.take(i as int), market_id, batch_id),
        decreases orders.len() - i,
    {
        let o = &orders[i];
        if o.market == market_id && o.batch_id == batch_id && o.amount_base_fp > 0
            && !o.cancelled {
            r.push(BatchOrder {
                side: o.side,
                limit_price_fp: o.limit_price_fp,
                amount_base_fp: o.amount_base_fp,
                quote_deposit_fp: o.quote_deposit_fp,
            });
        }
        i = i + 1;
        proof {
            assert(orders@.take(i as int).drop_last() =~= orders@.take(i as int - 1));
            assert(orders@.take(i as int).last() == orders@[i as int - 1]);
        }
    }
    proof {
        assert(orders@.take(orders@.len() as int) =~= orders@);
    }
    r
}

/// Whether the vector already holds this price.
fn contains_price(v: &Vec<u64>, p: u64) -> (r: bool)
    ensures
        r == v@.contains(p),
{
    let mut i: usize = 0;
    while i < v.len()
        invariant
            i <= v.len(),
            forall|j: int| 0 <= j < i ==> v@[j] != p,
        decreases v.len() - i,
    {
        if v[i] == p {
            return true;
        }
        i = i + 1;
    }
    false
}

/// Collect the distinct limit prices, in first-encounter order.
fn candidate_prices(elig: &Vec<BatchOrder>) -> (r: Vec<u64>)
    ensures
        r@ == spec_candidates(elig@),
{
    let mut r: Vec<u64> = Vec::new();
    let mut i: usize = 0;
    while i < elig.len()
        invariant
            i <= elig.len(),
            r@ == spec_candidates(elig@.take(i as int)),
        decreases elig.len() - i,
    {
        let p = elig[i].limit_price_fp;
        if !contains_price(&r, p) {
            r.push(p);
        }
        i = i + 1;
        proof {
            assert(elig@.take(i as int).drop_last() =~= elig@.take(i as int - 1));
            assert(elig@.take(i as int).last() == elig@[i as int - 1]);
        }
    }
    proof {
        assert(elig@.take(elig@.len() as int) =~= elig@);
    }
    r
}

/// Sum the willing volume of one side at a candidate price. The sum of at
/// most `usize::MAX` 64-bit amounts always fits 128 bits.
fn side_volume(elig: &Vec<BatchOrder>, p: u64, bids: bool) -> (r: u128)
    ensures
        bids ==> r == spec_bid_volume(elig@, p),
        !bids ==> r == spec_ask_volume(elig@, p),
{
    let mut sum: u128 = 0;
    let mut i: usize = 0;
    while i < elig.len()
        invariant
            i <= elig.len(),
            bids ==> sum == spec_bid_volume(elig@.take(i as int), p),
            !bids ==> sum == spec_ask_volume(elig@.take(i as int), p),
            sum <= i * 0xffff_ffff_ffff_ffff,
        decreases elig.len() - i,
    {
        let o = elig[i];
        proof {
            assert((i + 1) * 0xffff_ffff_ffff_ffff == i * 0xffff_ffff_ffff_ffff
                + 0xffff_ffff_ffff_ffff) by (nonlinear_arith);
            assert((i + 1) * 0xffff_ffff_ffff_ffff <= 0xffff_ffff_ffff_ffff
                * 0xffff_ffff_ffff_ffff) by (nonlinear_arith)
                requires
                    i + 1 <= 0xffff_ffff_ffff_ffff,
            ;
        }
        let counted = if bids {
            match o.side {
                OrderSide::Bid => o.limit_price_fp >= p,
                OrderSide::Ask => false,
            }
        } else {
            match o.side {
                OrderSide::Bid => false,
                OrderSide::Ask => o.limit_price_fp <= p,
            }
        };
        if counted {
            sum = sum + o.amount_base_fp as u128;
        }
        i = i + 1;
        proof {
            assert(elig@.take(i as int).drop_last() =~= elig@.take(i as int - 1));
            assert(elig@.take(i as int).last() == elig@[i as int - 1]);
        }
    }
    proof {
        assert(elig@.take(elig@.len() as int) =~= elig@);
    }
    sum
}

/// Find the candidate price with the strictly greatest traded volume,
/// keeping the earliest on ties.
fn best_candidate(elig: &Vec<BatchOrder>, cands: &Vec<u64>) -> (r: (u64, u128))
    ensures
        (r.0, r.1 as int) == spec_best_scan(elig@, cands@, 0, 0, 0),
{
    let mut best_price: u64 = 0;
    let mut best_traded: u128 = 0;
    let mut i: usize = 0;
    while i < cands.len()
        invariant
            i <= cands.len(),
            spec_best_scan(elig@, cands@, i as int, best_price, best_traded as int)
                == spec_best_scan(elig@, cands@, 0, 0, 0),
        decreases cands.len() - i,
    {
        let p = cands[i];
        let bid_vol = side_volume(elig, p, true);
        let ask_vol = side_volume(elig, p, false);
        let traded = if bid_vol <= ask_vol { bid_vol } else { ask_vol };
        if traded > best_traded {
            best_traded = traded;
            best_price = p;
        }
        i = i + 1;
    }
    (best_price, best_traded)
}

/// Check the price band against the last clearing price.
fn band_ok(new_price: u64, last_price: u64, max_move_bps: u16) -> (r: bool)
    ensures
        r == spec_band_ok(new_price, last_price, max_move_bps),
{
    if last_price > 0 && max_move_bps > 0 {
        let (hi, lo) = if new_price >= last_price {
            (new_price, last_price)
        } else {
            (last_price, new_price)
        };
        let delta: u128 = (hi - lo) as u128;
        proof {
            assert(delta * BPS_DENOM <= u64::MAX * BPS_DENOM) by (nonlinear_arith)
                requires
                    delta <= u64::MAX,
            ;
        }
        let delta_bps: u128 = delta * (BPS_DENOM as u128) / (last_price as u128);
        delta_bps <= max_move_bps as u128
    } else {
        true
    }
}

/// Clear the current batch: validate the caller and the timing gate,
/// discover the clearing price among the supplied orders, run the matching
/// pass, and roll the batch — or fail with the first violated check and
/// change nothing.
///
/// The returned snapshot is the settlement budget for the cleared batch;
/// the caller is responsible for supplying every live order of the batch,
/// and for persisting the snapshot.
pub fn clear_batch(market: &mut Market, orders: &Vec<Order>, caller: u64, now_slot: u64) -> (r:
    Result<BatchState, AmmError>)
    requires
        old(market).last_batch_slot + old(market).batch_duration_slots <= u64::MAX,
        old(market).last_batch_slot + old(market).min_slots_between_clears <= u64::MAX,
    ensures
        ({
            let res = spec_clear(*old(market), orders@, caller, now_slot);
            match res {
                Ok(c) => r == Ok::<BatchState, AmmError>(c.batch) && *final(market) == c.market,
                Err(e) => r == Err::<BatchState, AmmError>(e) && *final(market) == *old(market),
            }
        }),
{
    if market.paused {
        return Err(AmmError::MarketPaused);
    }
    if market.keeper_restricted && market.only_keeper != caller {
        return Err(AmmError::KeeperNotAllowed);
    }
    if now_slot < market.last_batch_slot + market.batch_duration_slots {
        return Err(AmmError::BatchNotReady);
    }
    if now_slot < market.last_batch_slot + market.min_slots_between_clears {
        return Err(AmmError::BatchNotReady);
    }

    let elig = eligible_orders(orders, market.id, market.current_batch_id);
    let cands = candidate_prices(&elig);
    let (best_price, best_traded) = best_candidate(&elig, &cands);

    if elig.len() == 0 || best_traded == 0 || best_price == 0 {
        // Nothing crosses: roll the batch with a trivial snapshot.
        if market.current_batch_id == u64::MAX {
            return Err(AmmError::MathOverflow);
        }
        let batch = BatchState {
            market: market.id,
            batch_id: market.current_batch_id,
            clearing_price_fp: 0,
            total_base_traded_fp: 0,
            total_quote_traded_fp: 0,
            created_slot: market.last_batch_slot,
            cleared_slot: now_slot,
            settled: true,
            keeper: caller,
            keeper_reward_quote_fp: 0,
            remaining_base_to_settle_fp: 0,
            remaining_quote_to_settle_fp: 0,
        };
        market.last_batch_slot = now_slot;
        market.current_batch_id = market.current_batch_id + 1;
        market.batch_notional_quote_fp = 0;
        market.global_orders_in_batch = 0;
        return Ok(batch);
    }

    if !band_ok(best_price, market.last_clearing_price_fp, market.max_price_move_bps) {
        return Err(AmmError::PriceMoveTooLarge);
    }

    let bid_side = side_orders(&elig, OrderSide::Bid);
    let ask_side = side_orders(&elig, OrderSide::Ask);
    let bids = sort_orders(&bid_side, true);
    let asks = sort_orders(&ask_side, false);

    let (total_base, total_quote) = match match_walk(&bids, &asks, best_price) {
        Ok(t) => t,
        Err(e) => {
            return Err(e);
        }
    };

    let keeper_reward: u128 = if market.keeper_fee_bps > 0 {
        match bps_of(total_quote, market.keeper_fee_bps) {
            Ok(v) => v,
            Err(e) => {
                return Err(e);
            }
        }
    } else {
        0
    };

    if market.current_batch_id == u64::MAX {
        return Err(AmmError::MathOverflow);
    }
    if total_base > u64::MAX as u128 || total_quote > u64::MAX as u128 {
        return Err(AmmError::MathOverflow);
    }

    let batch = BatchState {
        market: market.id,
        batch_id: market.current_batch_id,
        clearing_price_fp: best_price,
        total_base_traded_fp: total_base as u64,
        total_quote_traded_fp: total_quote as u64,
        created_slot: market.last_batch_slot,
        cleared_slot: now_slot,
        settled: total_base == 0,
        keeper: caller,
        keeper_reward_quote_fp: keeper_reward,
        remaining_base_to_settle_fp: total_base,
        remaining_quote_to_settle_fp: total_quote,
    };
    market.last_batch_slot = now_slot;
    market.current_batch_id = market.current_batch_id + 1;
    market.batch_notional_quote_fp = 0;
    market.global_orders_in_batch = 0;
    market.last_clearing_price_fp = best_price;
    Ok(batch)
}

/// The scan never loses a candidate: its result beats the running best
/// and every candidate it visits. When it improves on the running best,
/// the price it returns is the earliest visited candidate attaining the
/// returned volume; otherwise the running best stands.
proof fn lemma_best_scan_properties(
    elig: Seq<BatchOrder>,
    cands: Seq<u64>,
    i: int,
    bp: u64,
    bt: int,
)
    requires
        0 <= i <= cands.len(),
    ensures
        ({
            let r = spec_best_scan(elig, cands, i, bp, bt);
            &&& r.1 >= bt
            &&& forall|j: int| i <= j < cands.len() ==> spec_traded(elig, cands[j]) <= r.1
            &&& r.1 == bt ==> r.0 == bp
            &&& r.1 > bt ==> (exists|j: int|
                i <= j < cands.len() && cands[j] == r.0 && spec_traded(elig, cands[j]) == r.1
                    && (forall|k: int| i <= k < j ==> spec_traded(elig, cands[k]) < r.1))
        }),
    decreases cands.len() - i,
{
    if i < cands.len() {
        let tr = spec_traded(elig, cands[i]);
        let r = spec_best_scan(elig, cands, i, bp, bt);
        if tr > bt {
            lemma_best_scan_properties(elig, cands, i + 1, cands[i], tr);
            if r.1 == tr {
                assert(i <= i < cands.len() && cands[i] == r.0 && spec_traded(elig, cands[i])
                    == r.1 && (forall|k: int| i <= k < i ==> spec_traded(elig, cands[k])
                    < r.1));
            } else {
                let j = choose|j: int|
                    i + 1 <= j < cands.len() && cands[j] == r.0 && spec_traded(elig, cands[j])
                        == r.1 && (forall|k: int|
                        i + 1 <= k < j ==> spec_traded(elig, cands[k]) < r.1);
                assert(spec_traded(elig, cands[i]) < r.1);
                assert(cands[j] == r.0 && spec_traded(elig, cands[j]) == r.1 && (forall|k: int|
                    i <= k < j ==> spec_traded(elig, cands[k]) < r.1));
            }
        } else {
            lemma_best_scan_properties(elig, cands, i + 1, bp, bt);
            if r.1 > bt {
                let j = choose|j: int|
                    i + 1 <= j < cands.len() && cands[j] == r.0 && spec_traded(elig, cands[j])
                        == r.1 && (forall|k: int|
                        i + 1 <= k < j ==> spec_traded(elig, cands[k]) < r.1);
                assert(spec_traded(elig, cands[i]) < r.1);
                assert(cands[j] == r.0 && spec_traded(elig, cands[j]) == r.1 && (forall|k: int|
                    i <= k < j ==> spec_traded(elig, cands[k]) < r.1));
            }
        }
    }
}

/// Clearing-price optimality: when clearing chooses a non-zero price, that
/// price is a candidate price at which something crosses, no candidate
/// price yields a strictly greater traded volume, and among the candidates
/// attaining that volume the first-encountered one was kept.
pub proof fn lemma_clearing_price_optimal(
    m: Market,
    orders: Seq<Order>,
    caller: u64,
    now_slot: u64,
)
    ensures
        ({
            let res = spec_clear(m, orders, caller, now_slot);
            let elig = spec_eligible(orders, m.id, m.current_batch_id);
            let cands = spec_candidates(elig);
            res is Ok && res->Ok_0.batch.clearing_price_fp > 0 ==> {
                let p = res->Ok_0.batch.clearing_price_fp;
                &&& spec_traded(elig, p) > 0
                &&& forall|q: u64| #[trigger] spec_traded(elig, q) > spec_traded(elig, p)
                    ==> !cands.contains(q)
                &&& exists|j: int|
                    0 <= j < cands.len() && cands[j] == p && spec_traded(elig, cands[j])
                        == spec_traded(elig, p) && (forall|k: int|
                        0 <= k < j ==> spec_traded(elig, cands[k]) < spec_traded(elig, p))
            }
        }),
{
    let res = spec_clear(m, orders, caller, now_slot);
    let elig = spec_eligible(orders, m.id, m.current_batch_id);
    let cands = spec_candidates(elig);
    lemma_best_scan_properties(elig, cands, 0, 0, 0);
    if res is Ok && res->Ok_0.batch.clearing_price_fp > 0 {
        let best = spec_best(elig);
        let p = res->Ok_0.batch.clearing_price_fp;
        assert(p == best.0 && best.1 > 0);
        let j = choose|j: int|
            0 <= j < cands.len() && cands[j] == best.0 && spec_traded(elig, cands[j]) == best.1
                && (forall|k: int| 0 <= k < j ==> spec_traded(elig, cands[k]) < best.1);
        assert(spec_traded(elig, p) == best.1);
        assert(cands[j] == p && spec_traded(elig, cands[j]) == spec_traded(elig, p) && (
        forall|k: int| 0 <= k < j ==> spec_traded(elig, cands[k]) < spec_traded(elig, p)));
        assert forall|q: u64|
            #[trigger] spec_traded(elig, q) > spec_traded(elig, p) implies !cands.contains(
            q,
        ) by {
            if cands.contains(q) {
                let k = choose|k: int| 0 <= k < cands.len() && cands[k] == q;
                assert(spec_traded(elig, cands[k]) <= best.1);
            }
        }
    }
}

/// Idempotent rollover: clearing a batch with no eligible orders is a pure
/// no-op on economic state. The batch id advances by exactly one, the
/// in-batch accumulators reset, and the snapshot directs no transfers:
/// price 0, zero volumes, zero budget, trivially settled. Everything else
/// — order ids, accrued fees, the last clearing price, every parameter —
/// is untouched.
pub proof fn lemma_empty_rollover(m: Market, orders: Seq<Order>, caller: u64, now_slot: u64)
    requires
        spec_eligible(orders, m.id, m.current_batch_id).len() == 0,
    ensures
        ({
            let res = spec_clear(m, orders, caller, now_slot);
            res is Ok ==> {
                let c = res->Ok_0;
                &&& c.market == (Market {
                    last_batch_slot: now_slot,
                    current_batch_id: (m.current_batch_id + 1) as u64,
                    batch_notional_quote_fp: 0,
                    global_orders_in_batch: 0,
                    ..m
                })
                &&& c.market.current_batch_id == m.current_batch_id + 1
                &&& c.batch.clearing_price_fp == 0
                &&& c.batch.total_base_traded_fp == 0
                &&& c.batch.total_quote_traded_fp == 0
                &&& c.batch.remaining_base_to_settle_fp == 0
                &&& c.batch.remaining_quote_to_settle_fp == 0
                &&& c.batch.settled
            }
        }),
{
}

/// A successful clearing re-establishes the market's caps invariant (both
/// in-batch accumulators reset to zero) and hands out a batch snapshot
/// whose settled flag agrees with its remaining budget.
pub proof fn lemma_clear_resets_caps(m: Market, orders: Seq<Order>, caller: u64, now_slot: u64)
    ensures
        ({
            let res = spec_clear(m, orders, caller, now_slot);
            res is Ok ==> market_caps_ok(res->Ok_0.market) && batch_flag_ok(res->Ok_0.batch)
        }),
{
    let res = spec_clear(m, orders, caller, now_slot);
    if res is Ok {
        let elig = spec_eligible(orders, m.id, m.current_batch_id);
        let best = spec_best(elig);
        if !(elig.len() == 0 || best.1 == 0 || best.0 == 0) {
            let bids = spec_sort_orders(spec_side_orders(elig, OrderSide::Bid), true);
            let asks = spec_sort_orders(spec_side_orders(elig, OrderSide::Ask), false);
            lemma_walk_bounds(bids, asks, 0, 0, rem_at(bids, 0), rem_at(asks, 0), best.0);
        }
    }
}

} // verus!
