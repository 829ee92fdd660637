//! Market parameter and lifecycle controller: bootstrap, pause toggle,
//! bulk parameter update, and a read-only snapshot.

use vstd::prelude::*;

use crate::errors::AmmError;
use crate::types::{Market, MarketView};
use crate::BPS_DENOM;

verus! {

/// Create a market with the given cadence and fee and permissive defaults:
/// caps disabled (at their maxima), dust floors at one unit, price band
/// disabled, keeper unrestricted, fees accrued from zero.
pub fn initialize_market(
    market_id: u64,
    authority: u64,
    batch_duration_slots: u64,
    fee_bps: u16,
    max_orders_per_user_per_batch: u32,
) -> (r: Result<Market, AmmError>)
    ensures
        fee_bps > BPS_DENOM ==> r == Err::<Market, AmmError>(AmmError::InvalidFeeBps),
        fee_bps <= BPS_DENOM ==> r == Ok::<Market, AmmError>(
            Market {
                id: market_id,
                authority,
                batch_duration_slots,
                last_batch_slot: 0,
                current_batch_id: 0,
                next_order_id: 0,
                fee_bps,
                max_orders_per_user_per_batch,
                paused: false,
                max_notional_per_batch_quote_fp: u128::MAX,
                max_notional_per_user_per_batch_quote_fp: u128::MAX,
                batch_notional_quote_fp: 0,
                max_orders_global_per_batch: u32::MAX,
                global_orders_in_batch: 0,
                max_price_move_bps: 0,
                last_clearing_price_fp: 0,
                keeper_fee_bps: 0,
                keeper_treasury: authority,
                min_slots_between_clears: batch_duration_slots,
                keeper_restricted: false,
                only_keeper: 0,
                protocol_treasury: authority,
                referral_fee_bps: 0,
                protocol_fee_bps: fee_bps,
                protocol_fees_accrued_fp: 0,
                min_base_order_fp: 1,
                min_quote_order_fp: 1,
                pause_reason: 0,
            },
        ),
{
    if fee_bps as u64 > BPS_DENOM {
        return Err(AmmError::InvalidFeeBps);
    }
    Ok(Market {
        id: market_id,
        authority,
        batch_duration_slots,
        last_batch_slot: 0,
        current_batch_id: 0,
        next_order_id: 0,
        fee_bps,
        max_orders_per_user_per_batch,
        paused: false,
        max_notional_per_batch_quote_fp: u128::MAX,
        max_notional_per_user_per_batch_quote_fp: u128::MAX,
        batch_notional_quote_fp: 0,
        max_orders_global_per_batch: u32::MAX,
        global_orders_in_batch: 0,
        max_price_move_bps: 0,
        last_clearing_price_fp: 0,
        keeper_fee_bps: 0,
        keeper_treasury: authority,
        min_slots_between_clears: batch_duration_slots,
        keeper_restricted: false,
        only_keeper: 0,
        protocol_treasury: authority,
        referral_fee_bps: 0,
        protocol_fee_bps: fee_bps,
        protocol_fees_accrued_fp: 0,
        min_base_order_fp: 1,
        min_quote_order_fp: 1,
        pause_reason: 0,
    })
}

/// Pause or unpause a market, recording a reason code. Authority-gated;
/// a rejected call changes nothing.
pub fn set_paused(market: &mut Market, caller: u64, paused: bool, pause_reason: u8) -> (r: Result<
    (),
    AmmError,
>)
    ensures
        caller != old(market).authority ==> r == Err::<(), AmmError>(AmmError::Unauthorized)
            && *final(market) == *old(market),
        caller == old(market).authority ==> r == Ok::<(), AmmError>(()) && *final(market) == (
        Market { paused, pause_reason, ..*old(market) }),
{
    if market.authority != caller {
        return Err(AmmError::Unauthorized);
    }
    market.paused = paused;
    market.pause_reason = pause_reason;
    Ok(())
}

/// Bulk update of the risk and fee parameters. Authority-gated; the total
/// fee may not exceed 100% and neither fee share may exceed the new total.
/// A rejected call changes nothing.
pub fn set_params(
    market: &mut Market,
    caller: u64,
    new_fee_bps: u16,
    max_notional_per_batch_quote_fp: u128,
    max_notional_per_user_per_batch_quote_fp: u128,
    max_orders_global_per_batch: u32,
    max_price_move_bps: u16,
    keeper_fee_bps: u16,
    min_base_order_fp: u64,
    min_quote_order_fp: u64,
    protocol_fee_bps: u16,
    referral_fee_bps: u16,
) -> (r: Result<(), AmmError>)
    ensures
        ({
            let ok = caller == old(market).authority && new_fee_bps <= BPS_DENOM
                && protocol_fee_bps <= new_fee_bps && referral_fee_bps <= new_fee_bps;
            &&& ok ==> r == Ok::<(), AmmError>(()) && *final(market) == (Market {
                fee_bps: new_fee_bps,
                max_notional_per_batch_quote_fp,
                max_notional_per_user_per_batch_quote_fp,
                max_orders_global_per_batch,
                max_price_move_bps,
                keeper_fee_bps,
                min_base_order_fp,
                min_quote_order_fp,
                protocol_fee_bps,
                referral_fee_bps,
                ..*old(market)
            })
            &&& !ok ==> *final(market) == *old(market) && r == Err::<(), AmmError>(
                if caller != old(market).authority {
                    AmmError::Unauthorized
                } else {
                    AmmError::InvalidFeeBps
                },
            )
        }),
{
    if market.authority != caller {
        return Err(AmmError::Unauthorized);
    }
    if new_fee_bps as u64 > BPS_DENOM {
        return Err(AmmError::InvalidFeeBps);
    }
    if protocol_fee_bps > new_fee_bps {
        return Err(AmmError::InvalidFeeBps);
    }
    if referral_fee_bps > new_fee_bps {
        return Err(AmmError::InvalidFeeBps);
    }
    market.fee_bps = new_fee_bps;
    market.max_notional_per_batch_quote_fp = max_notional_per_batch_quote_fp;
    market.max_notional_per_user_per_batch_quote_fp = max_notional_per_user_per_batch_quote_fp;
    market.max_orders_global_per_batch = max_orders_global_per_batch;
    market.max_price_move_bps = max_price_move_bps;
    market.keeper_fee_bps = keeper_fee_bps;
    market.min_base_order_fp = min_base_order_fp;
    market.min_quote_order_fp = min_quote_order_fp;
    market.protocol_fee_bps = protocol_fee_bps;
    market.referral_fee_bps = referral_fee_bps;
    Ok(())
}

/// Read-only snapshot of every configuration field and accumulator, for
/// external observers.
pub fn view_market(market: &Market) -> (r: MarketView)
    ensures
        r == (MarketView {
            market: market.id,
            authority: market.authority,
            batch_duration_slots: market.batch_duration_slots,
            last_batch_slot: market.last_batch_slot,
            current_batch_id: market.current_batch_id,
            next_order_id: market.next_order_id,
            fee_bps: market.fee_bps,
            max_orders_per_user_per_batch: market.max_orders_per_user_per_batch,
            paused: market.paused,
            max_notional_per_batch_quote_fp: market.max_notional_per_batch_quote_fp,
            max_notional_per_user_per_batch_quote_fp:
                market.max_notional_per_user_per_batch_quote_fp,
            batch_notional_quote_fp: market.batch_notional_quote_fp,
            max_orders_global_per_batch: market.max_orders_global_per_batch,
            global_orders_in_batch: market.global_orders_in_batch,
            max_price_move_bps: market.max_price_move_bps,
            last_clearing_price_fp: market.last_clearing_price_fp,
            keeper_fee_bps: market.keeper_fee_bps,
            min_base_order_fp: market.min_base_order_fp,
            min_quote_order_fp: market.min_quote_order_fp,
            protocol_fee_bps: market.protocol_fee_bps,
            referral_fee_bps: market.referral_fee_bps,
            protocol_fees_accrued_fp: market.protocol_fees_accrued_fp,
            pause_reason: market.pause_reason,
        }),
{
    MarketView {
        market: market.id,
        authority: market.authority,
        batch_duration_slots: market.batch_duration_slots,
        last_batch_slot: market.last_batch_slot,
        current_batch_id: market.current_batch_id,
        next_order_id: market.next_order_id,
        fee_bps: market.fee_bps,
        max_orders_per_user_per_batch: market.max_orders_per_user_per_batch,
        paused: market.paused,
        max_notional_per_batch_quote_fp: market.max_notional_per_batch_quote_fp,
        max_notional_per_user_per_batch_quote_fp:
            market.max_notional_per_user_per_batch_quote_fp,
        batch_notional_quote_fp: market.batch_notional_quote_fp,
        max_orders_global_per_batch: market.max_orders_global_per_batch,
        global_orders_in_batch: market.global_orders_in_batch,
        max_price_move_bps: market.max_price_move_bps,
        last_clearing_price_fp: market.last_clearing_price_fp,
        keeper_fee_bps: market.keeper_fee_bps,
        min_base_order_fp: market.min_base_order_fp,
        min_quote_order_fp: market.min_quote_order_fp,
        protocol_fee_bps: market.protocol_fee_bps,
        referral_fee_bps: market.referral_fee_bps,
        protocol_fees_accrued_fp: market.protocol_fees_accrued_fp,
        pause_reason: market.pause_reason,
    }
}

} // verus!
