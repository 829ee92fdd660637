//! Matching pass: given the clearing price, walk the bids (sorted by limit
//! price descending) and the asks (ascending) with two cursors, computing
//! the batch's total traded base and quote volume.
//!
//! The sort is stable: orders with equal limit prices keep the order in
//! which the eligibility filter encountered them.

use vstd::prelude::*;

use crate::errors::AmmError;
use crate::math::{base_affordable, quote_value, spec_base_affordable};
use crate::types::OrderSide;
use crate::PRICE_SCALE;

verus! {

/// One eligible order, reduced to what clearing and matching read of it.
#[derive(Clone, Copy, Debug, PartialEq, Eq, Structural)]
pub struct BatchOrder {
    pub side: OrderSide,
    pub limit_price_fp: u64,
    pub amount_base_fp: u64,
    pub quote_deposit_fp: u64,
}

/// One order on the side being matched, with its remaining (unfilled)
/// base amount.
#[derive(Clone, Copy, Debug, PartialEq, Eq, Structural)]
pub struct MatchOrder {
    pub limit_price_fp: u64,
    pub remaining_base_fp: u64,
    pub quote_deposit_fp: u64,
}

/// An eligible order as the matching pass first sees it: nothing filled yet.
pub open spec fn to_match(o: BatchOrder) -> MatchOrder {
    MatchOrder {
        limit_price_fp: o.limit_price_fp,
        remaining_base_fp: o.amount_base_fp,
        quote_deposit_fp: o.quote_deposit_fp,
    }
}

/// The orders of one side, in eligibility order.
pub open spec fn spec_side_orders(s: Seq<BatchOrder>, side: OrderSide) -> Seq<MatchOrder>
    decreases s.len(),
{
    if s.len() == 0 {
        Seq::empty()
    } else {
        let rest = spec_side_orders(s.drop_last(), side);
        if s.last().side == side {
            rest.push(to_match(s.last()))
        } else {
            rest
        }
    }
}

/// Keep the orders of one side, in order.
pub fn side_orders(elig: &Vec<BatchOrder>, side: OrderSide) -> (r: Vec<MatchOrder>)
    ensures
        r@ == spec_side_orders(elig@, side),
{
    let mut r: Vec<MatchOrder> = Vec::new();
    let mut i: usize = 0;
    while i < elig.len()
        invariant
            i <= elig.len(),
            r@ == spec_side_orders(elig@.take(i as int), side),
        decreases elig.len() - i,
    {
        let o = elig[i];
        if o.side == side {
            r.push(MatchOrder {
                limit_price_fp: o.limit_price_fp,
                remaining_base_fp: o.amount_base_fp,
                quote_deposit_fp: o.quote_deposit_fp,
            });
        }
        i = i + 1;
        proof {
            assert(elig@.take(i as int).drop_last() =~= elig@.take(i as int - 1));
            assert(elig@.take(i as int).last() == elig@[i as int - 1]);
        }
    }
    proof {
        assert(elig@.take(elig@.len() as int) =~= elig@);
    }
    r
}

/// Whether `a` may stand before `b` in the required order: descending for
/// bids, ascending for asks. Equal prices always may, which is what makes
/// the sort below stable.
pub open spec fn price_before(a: u64, b: u64, descending: bool) -> bool {
    if descending {
        a >= b
    } else {
        a <= b
    }
}

/// Insert `o` behind every element it may stand behind: the position a
/// stable sort gives an element arriving last.
pub open spec fn spec_insert_sorted(s: Seq<MatchOrder>, o: MatchOrder, descending: bool) -> Seq<
    MatchOrder,
>
    decreases s.len(),
{
    if s.len() == 0 {
        seq![o]
    } else if price_before(s.first().limit_price_fp, o.limit_price_fp, descending) {
        seq![s.first()] + spec_insert_sorted(s.drop_first(), o, descending)
    } else {
        seq![o] + s
    }
}

/// Stable insertion sort by limit price.
pub open spec fn spec_sort_orders(s: Seq<MatchOrder>, descending: bool) -> Seq<MatchOrder>
    decreases s.len(),
{
    if s.len() == 0 {
        Seq::empty()
    } else {
        spec_insert_sorted(spec_sort_orders(s.drop_last(), descending), s.last(), descending)
    }
}

/// Inserting at the first index whose element may not stand before `o`
/// is exactly `spec_insert_sorted`.
proof fn lemma_insert_at(s: Seq<MatchOrder>, o: MatchOrder, descending: bool, idx: int)
    requires
        0 <= idx <= s.len(),
        forall|j: int| 0 <= j < idx ==> price_before(s[j].limit_price_fp, o.limit_price_fp,
            descending),
        idx < s.len() ==> !price_before(s[idx].limit_price_fp, o.limit_price_fp, descending),
    ensures
        spec_insert_sorted(s, o, descending) == s.take(idx) + seq![o] + s.skip(idx),
    decreases s.len(),
{
    if s.len() == 0 {
        assert(spec_insert_sorted(s, o, descending) =~= s.take(idx) + seq![o] + s.skip(idx));
    } else if idx == 0 {
        assert(spec_insert_sorted(s, o, descending) =~= s.take(0) + seq![o] + s.skip(0));
    } else {
        lemma_insert_at(s.drop_first(), o, descending, idx - 1);
        assert(spec_insert_sorted(s, o, descending) =~= s.take(idx) + seq![o] + s.skip(idx));
    }
}

/// Insert one order into an already sorted vector, keeping stability.
fn insert_sorted(v: &mut Vec<MatchOrder>, o: MatchOrder, descending: bool)
    ensures
        final(v)@ == spec_insert_sorted(old(v)@, o, descending),
{
    let mut idx: usize = 0;
    let mut stop = false;
    while idx < v.len() && !stop
        invariant
            idx <= v@.len(),
            v@ == old(v)@,
            forall|j: int| 0 <= j < idx ==> price_before(v@[j].limit_price_fp, o.limit_price_fp,
                descending),
            stop ==> idx < v@.len() && !price_before(v@[idx as int].limit_price_fp,
                o.limit_price_fp, descending),
        decreases v@.len() - idx, if stop { 0int } else { 1int },
    {
        let before = if descending {
            v[idx].limit_price_fp >= o.limit_price_fp
        } else {
            v[idx].limit_price_fp <= o.limit_price_fp
        };
        if before {
            idx = idx + 1;
        } else {
            stop = true;
        }
    }
    proof {
        lemma_insert_at(v@, o, descending, idx as int);
    }
    v.insert(idx, o);
    proof {
        assert(v@ =~= old(v)@.take(idx as int) + seq![o] + old(v)@.skip(idx as int));
    }
}

/// The lesser of two mathematical integers.
pub open spec fn min2(a: int, b: int) -> int {
    if a <= b {
        a
    } else {
        b
    }
}

/// The remaining base of the order at index `i`, or 0 past either end.
pub open spec fn rem_at(s: Seq<MatchOrder>, i: int) -> int {
    if 0 <= i < s.len() {
        s[i].remaining_base_fp as int
    } else {
        0
    }
}

/// Total remaining base from index `i` on.
pub open spec fn suffix_rem(s: Seq<MatchOrder>, i: int) -> int
    decreases s.len() - i,
    when 0 <= i
{
    if i >= s.len() {
        0
    } else {
        s[i].remaining_base_fp + suffix_rem(s, i + 1)
    }
}

/// The two-cursor matching walk, started at cursors `bi`, `ai` whose heads
/// have `b_rem` and `a_rem` base left: the total base and quote the walk
/// still trades from there at the clearing price.
///
/// The walk stops at the first pair that does not cross, caps each trade
/// by the bid's affordability at the clearing price, and stops altogether
/// once a trade's gross quote floors to zero.
pub open spec fn spec_walk(
    bids: Seq<MatchOrder>,
    asks: Seq<MatchOrder>,
    bi: int,
    ai: int,
    b_rem: int,
    a_rem: int,
    price_fp: u64,
) -> (int, int)
    decreases bids.len() - bi + asks.len() - ai, b_rem + a_rem,
    when 0 <= bi && 0 <= ai && 0 <= b_rem && 0 <= a_rem
{
    if bi >= bids.len() || ai >= asks.len() {
        (0, 0)
    } else if bids[bi].limit_price_fp < price_fp || asks[ai].limit_price_fp > price_fp {
        // No further pair can cross.
        (0, 0)
    } else if b_rem == 0 {
        spec_walk(bids, asks, bi + 1, ai, rem_at(bids, bi + 1), a_rem, price_fp)
    } else if a_rem == 0 {
        spec_walk(bids, asks, bi, ai + 1, b_rem, rem_at(asks, ai + 1), price_fp)
    } else {
        let afford = spec_base_affordable(bids[bi].quote_deposit_fp, price_fp);
        let t = min2(min2(b_rem, a_rem), afford);
        if t <= 0 {
            // The bid cannot afford any base at this price.
            spec_walk(bids, asks, bi + 1, ai, rem_at(bids, bi + 1), a_rem, price_fp)
        } else {
            let qg = (t * price_fp) / (PRICE_SCALE as int);
            if qg == 0 {
                // Sub-dust trade: everything further is sub-dust too.
                (0, 0)
            } else {
                let nb = b_rem - t;
                let na = a_rem - t;
                let rest = spec_walk(
                    bids,
                    asks,
                    if nb == 0 { bi + 1 } else { bi },
                    if na == 0 { ai + 1 } else { ai },
                    if nb == 0 { rem_at(bids, bi + 1) } else { nb },
                    if na == 0 { rem_at(asks, ai + 1) } else { na },
                    price_fp,
                );
                (t + rest.0, qg + rest.1)
            }
        }
    }
}

/// The walk at the start of the matching pass: cursors at the heads, each
/// with its full original amount left.
pub open spec fn spec_walk_totals(bids: Seq<MatchOrder>, asks: Seq<MatchOrder>, price_fp: u64) -> (
    int,
    int,
) {
    spec_walk(bids, asks, 0, 0, rem_at(bids, 0), rem_at(asks, 0), price_fp)
}

/// A remaining-base suffix sum is non-negative and holds at most 64 bits
/// per order.
pub proof fn lemma_suffix_rem_bounds(s: Seq<MatchOrder>, i: int)
    requires
        0 <= i,
    ensures
        0 <= suffix_rem(s, i),
        i <= s.len() ==> suffix_rem(s, i) <= (s.len() - i) * 0xffff_ffff_ffff_ffff,
    decreases s.len() - i,
{
    if i < s.len() {
        lemma_suffix_rem_bounds(s, i + 1);
    }
}

/// The walk trades non-negative volumes, and never more base than the
/// current bid head and the bids after it still hold.
pub proof fn lemma_walk_bounds(
    bids: Seq<MatchOrder>,
    asks: Seq<MatchOrder>,
    bi: int,
    ai: int,
    b_rem: int,
    a_rem: int,
    price_fp: u64,
)
    requires
        0 <= bi,
        0 <= ai,
        0 <= b_rem,
        0 <= a_rem,
    ensures
        0 <= spec_walk(bids, asks, bi, ai, b_rem, a_rem, price_fp).0,
        0 <= spec_walk(bids, asks, bi, ai, b_rem, a_rem, price_fp).1,
        spec_walk(bids, asks, bi, ai, b_rem, a_rem, price_fp).0 <= b_rem + suffix_rem(
            bids,
            bi + 1,
        ),
    decreases bids.len() - bi + asks.len() - ai, b_rem + a_rem,
{
    lemma_suffix_rem_bounds(bids, bi + 1);
    if bi >= bids.len() || ai >= asks.len() {
    } else if bids[bi].limit_price_fp < price_fp || asks[ai].limit_price_fp > price_fp {
    } else if b_rem == 0 {
        lemma_walk_bounds(bids, asks, bi + 1, ai, rem_at(bids, bi + 1), a_rem, price_fp);
        lemma_suffix_rem_bounds(bids, bi + 2);
    } else if a_rem == 0 {
        lemma_walk_bounds(bids, asks, bi, ai + 1, b_rem, rem_at(asks, ai + 1), price_fp);
    } else {
        let afford = spec_base_affordable(bids[bi].quote_deposit_fp, price_fp);
        let t = min2(min2(b_rem, a_rem), afford);
        if t <= 0 {
            lemma_walk_bounds(bids, asks, bi + 1, ai, rem_at(bids, bi + 1), a_rem, price_fp);
            lemma_suffix_rem_bounds(bids, bi + 2);
        } else {
            let qg = (t * price_fp) / (PRICE_SCALE as int);
            if qg == 0 {
            } else {
                let nb = b_rem - t;
                let na = a_rem - t;
                lemma_walk_bounds(
                    bids,
                    asks,
                    if nb == 0 { bi + 1 } else { bi },
                    if na == 0 { ai + 1 } else { ai },
                    if nb == 0 { rem_at(bids, bi + 1) } else { nb },
                    if na == 0 { rem_at(asks, ai + 1) } else { na },
                    price_fp,
                );
                if nb == 0 {
                    lemma_suffix_rem_bounds(bids, bi + 2);
                }
            }
        }
    }
}

/// Walk the sorted bids and asks at the clearing price, computing the
/// batch's total traded base and quote. Fails rather than wrap when the
/// accumulated quote volume leaves 128 bits; the base volume always fits.
pub fn match_walk(bids: &Vec<MatchOrder>, asks: &Vec<MatchOrder>, price_fp: u64) -> (r: Result<
    (u128, u128),
    AmmError,
>)
    ensures
        ({
            let w = spec_walk_totals(bids@, asks@, price_fp);
            match r {
                Ok(t) => t.0 == w.0 && t.1 == w.1,
                Err(e) => e == AmmError::MathOverflow && w.1 > u128::MAX,
            }
        }),
{
    let ghost w = spec_walk_totals(bids@, asks@, price_fp);
    let mut bi: usize = 0;
    let mut ai: usize = 0;
    let mut b_rem: u64 = if bids.len() > 0 { bids[0].remaining_base_fp } else { 0 };
    let mut a_rem: u64 = if asks.len() > 0 { asks[0].remaining_base_fp } else { 0 };
    let mut total_base: u128 = 0;
    let mut total_quote: u128 = 0;
    let mut done = false;

    proof {
        lemma_walk_bounds(bids@, asks@, 0, 0, rem_at(bids@, 0), rem_at(asks@, 0), price_fp);
        lemma_suffix_rem_bounds(bids@, 0);
        assert(rem_at(bids@, 0) + suffix_rem(bids@, 1) == suffix_rem(bids@, 0) || bids@.len()
            == 0);
        assert(bids@.len() * 0xffff_ffff_ffff_ffff <= 0xffff_ffff_ffff_ffff
            * 0xffff_ffff_ffff_ffff) by (nonlinear_arith)
            requires
                bids@.len() <= 0xffff_ffff_ffff_ffff,
        ;
    }

    while !done && bi < bids.len() && ai < asks.len()
        invariant
            w == spec_walk_totals(bids@, asks@, price_fp),
            bi <= bids@.len(),
            ai <= asks@.len(),
            ({
                let cur = spec_walk(bids@, asks@, bi as int, ai as int, b_rem as int,
                    a_rem as int, price_fp);
                &&& w.0 == total_base + cur.0
                &&& w.1 == total_quote + cur.1
                &&& total_base + cur.0 <= u128::MAX
            }),
            done ==> spec_walk(bids@, asks@, bi as int, ai as int, b_rem as int, a_rem as int,
                price_fp) == (0int, 0int),
        decreases
            b_rem + suffix_rem(bids@, bi as int + 1) + a_rem + suffix_rem(asks@, ai as int + 1),
            bids@.len() - bi + asks@.len() - ai,
            if done { 0int } else { 1int },
    {
        let ghost obi = bi as int;
        let ghost oai = ai as int;
        let ghost obr = b_rem as int;
        let ghost oar = a_rem as int;
        let ghost cur = spec_walk(bids@, asks@, obi, oai, obr, oar, price_fp);
        proof {
            lemma_suffix_rem_bounds(bids@, obi + 1);
            lemma_suffix_rem_bounds(asks@, oai + 1);
        }

        let bid_price = bids[bi].limit_price_fp;
        let ask_price = asks[ai].limit_price_fp;
        if bid_price < price_fp || ask_price > price_fp {
            done = true;
        } else if b_rem == 0 {
            bi = bi + 1;
            b_rem = if bi < bids.len() { bids[bi].remaining_base_fp } else { 0 };
        } else if a_rem == 0 {
            ai = ai + 1;
            a_rem = if ai < asks.len() { asks[ai].remaining_base_fp } else { 0 };
        } else {
            let t0: u64 = if b_rem <= a_rem { b_rem } else { a_rem };
            let afford: u128 = base_affordable(bids[bi].quote_deposit_fp, price_fp);
            let t: u64 = if (t0 as u128) <= afford { t0 } else { afford as u64 };
            if t == 0 {
                bi = bi + 1;
                b_rem = if bi < bids.len() { bids[bi].remaining_base_fp } else { 0 };
            } else {
                let qg: u128 = quote_value(t, price_fp);
                if qg == 0 {
                    done = true;
                } else {
                    proof {
                        let nb = obr - t;
                        let na = oar - t;
                        lemma_walk_bounds(
                            bids@,
                            asks@,
                            if nb == 0 { obi + 1 } else { obi },
                            if na == 0 { oai + 1 } else { oai },
                            if nb == 0 { rem_at(bids@, obi + 1) } else { nb },
                            if na == 0 { rem_at(asks@, oai + 1) } else { na },
                            price_fp,
                        );
                    }
                    b_rem = b_rem - t;
                    a_rem = a_rem - t;
                    total_base = total_base + (t as u128);
                    proof {
                        let afford_s = spec_base_affordable(
                            bids@[obi].quote_deposit_fp,
                            price_fp,
                        );
                        let ts = min2(min2(obr, oar), afford_s);
                        assert(ts == t);
                        let rest = spec_walk(
                            bids@,
                            asks@,
                            if obr - ts == 0 { obi + 1 } else { obi },
                            if oar - ts == 0 { oai + 1 } else { oai },
                            if obr - ts == 0 { rem_at(bids@, obi + 1) } else { obr - ts },
                            if oar - ts == 0 { rem_at(asks@, oai + 1) } else { oar - ts },
                            price_fp,
                        );
                        assert(cur == (ts + rest.0, qg + rest.1));
                    }
                    total_quote = match total_quote.checked_add(qg) {
                        Some(v) => v,
                        None => {
                            return Err(AmmError::MathOverflow);
                        }
                    };
                    if b_rem == 0 {
                        bi = bi + 1;
                        b_rem = if bi < bids.len() { bids[bi].remaining_base_fp } else { 0 };
                    }
                    if a_rem == 0 {
                        ai = ai + 1;
                        a_rem = if ai < asks.len() { asks[ai].remaining_base_fp } else { 0 };
                    }
                }
            }
        }
    }
    Ok((total_base, total_quote))
}

/// Sort one side's orders by limit price, stably: descending for bids,
/// ascending for asks.
pub fn sort_orders(input: &Vec<MatchOrder>, descending: bool) -> (r: Vec<MatchOrder>)
    ensures
        r@ == spec_sort_orders(input@, descending),
{
    let mut r: Vec<MatchOrder> = Vec::new();
    let mut i: usize = 0;
    while i < input.len()
        invariant
            i <= input.len(),
            r@ == spec_sort_orders(input@.take(i as int), descending),
        decreases input.len() - i,
    {
        insert_sorted(&mut r, input[i], descending);
        i = i + 1;
        proof {
            assert(input@.take(i as int).drop_last() =~= input@.take(i as int - 1));
            assert(input@.take(i as int).last() == input@[i as int - 1]);
        }
    }
    proof {
        assert(input@.take(input@.len() as int) =~= input@);
    }
    r
}

} // verus!
