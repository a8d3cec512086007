use vstd::prelude::*;

use crate::constants::AUCTION_DERIVE_PRICE_FRACTION;
use crate::error::{ErrorCode, NormalResult};
use crate::math::arith::{is_i64, max_int, min_int, tdiv};
use crate::math::orders::{spec_standardize_price, standardize_price};
use crate::state::fill_mode::FillMode;
use crate::state::market::Market;
use crate::state::oracle::OraclePriceData;
use crate::state::order_params::{spec_derive_market_order_auction_params, OrderParams, OrderSide};
use crate::state::user::{Order, OrderType};

verus! {

/// The price `1/200` of `p` further up (`up`) or down.
pub open spec fn derive_step(p: int, up: bool) -> int {
    if up { p + tdiv(p, AUCTION_DERIVE_PRICE_FRACTION as int) } else { p - tdiv(p, AUCTION_DERIVE_PRICE_FRACTION as int) }
}

pub open spec fn spec_calculate_auction_prices(
    oracle_price_data: OraclePriceData,
    side: OrderSide,
    limit_price: u64,
) -> NormalResult<(i64, i64)> {
    let oracle = oracle_price_data.price as int;
    let limit = limit_price as int;
    if limit_price > i64::MAX {
        Err(ErrorCode::MathError)
    } else if limit > 0 {
        match side {
            OrderSide::Buy => if limit < oracle {
                Ok((min_int(derive_step(limit, false), derive_step(oracle, false)) as i64, limit as i64))
            } else if is_i64(derive_step(oracle, true)) {
                Ok((oracle as i64, min_int(limit, derive_step(oracle, true)) as i64))
            } else {
                Err(ErrorCode::MathError)
            },
            OrderSide::Sell => if limit > oracle {
                if is_i64(derive_step(limit, true)) && is_i64(derive_step(oracle, true)) {
                    Ok((max_int(derive_step(limit, true), derive_step(oracle, true)) as i64, limit as i64))
                } else {
                    Err(ErrorCode::MathError)
                }
            } else {
                Ok((oracle as i64, max_int(limit, derive_step(oracle, false)) as i64))
            },
        }
    } else {
        let end = derive_step(oracle, side == OrderSide::Buy);
        if is_i64(end) { Ok((oracle as i64, end as i64)) } else { Err(ErrorCode::MathError) }
    }
}

/// Auction start and end prices for an order derived from the oracle: a limit better than the
/// oracle auctions from `1/200` beyond the better of the two to the limit; a limit worse than the
/// oracle auctions from the oracle toward the limit, at most `1/200` away; with no limit, from the
/// oracle to `1/200` away.
pub fn calculate_auction_prices(
    oracle_price_data: &OraclePriceData,
    side: OrderSide,
    limit_price: u64,
) -> (r: NormalResult<(i64, i64)>)
    ensures
        r == spec_calculate_auction_prices(*oracle_price_data, side, limit_price),
        oracle_price_data.price >= 0 && limit_price == 0 ==> (r matches Ok((start, end)) ==> {
            &&& start == oracle_price_data.price
            &&& side == OrderSide::Buy ==> end == oracle_price_data.price + oracle_price_data.price / 200
            &&& side == OrderSide::Sell ==> end == oracle_price_data.price - oracle_price_data.price / 200
        }),
        oracle_price_data.price >= 0 ==> (r matches Ok((start, end)) ==> {
            &&& side == OrderSide::Buy ==> start <= end
            &&& side == OrderSide::Sell ==> start >= end
        }),
{
    proof {
        if oracle_price_data.price >= 0 {
            lemma_auction_prices_run_toward_the_taker_limit(*oracle_price_data, side, limit_price);
        }
    }
    let oracle_price = oracle_price_data.price;
    if limit_price > i64::MAX as u64 {
        return Err(ErrorCode::MathError);
    }
    let limit_price = limit_price as i64;
    if limit_price > 0 {
        let (auction_start_price, auction_end_price) = match side {
            OrderSide::Buy => if limit_price < oracle_price {
                let limit_derive_start_price = limit_price - limit_price / AUCTION_DERIVE_PRICE_FRACTION;
                let oracle_derive_start_price = oracle_price - oracle_price / AUCTION_DERIVE_PRICE_FRACTION;
                (
                    if limit_derive_start_price <= oracle_derive_start_price { limit_derive_start_price } else { oracle_derive_start_price },
                    limit_price,
                )
            } else {
                let oracle_derive_end_price = match oracle_price.checked_add(oracle_price / AUCTION_DERIVE_PRICE_FRACTION) {
                    Some(v) => v,
                    None => return Err(ErrorCode::MathError),
                };
                (oracle_price, if limit_price <= oracle_derive_end_price { limit_price } else { oracle_derive_end_price })
            },
            OrderSide::Sell => if limit_price > oracle_price {
                let limit_derive_start_price = match limit_price.checked_add(limit_price / AUCTION_DERIVE_PRICE_FRACTION) {
                    Some(v) => v,
                    None => return Err(ErrorCode::MathError),
                };
                let oracle_derive_start_price = match oracle_price.checked_add(oracle_price / AUCTION_DERIVE_PRICE_FRACTION) {
                    Some(v) => v,
                    None => return Err(ErrorCode::MathError),
                };
                (
                    if limit_derive_start_price >= oracle_derive_start_price { limit_derive_start_price } else { oracle_derive_start_price },
                    limit_price,
                )
            } else {
                let oracle_derive_end_price = oracle_price - oracle_price / AUCTION_DERIVE_PRICE_FRACTION;
                (oracle_price, if limit_price >= oracle_derive_end_price { limit_price } else { oracle_derive_end_price })
            },
        };
        return Ok((auction_start_price, auction_end_price));
    }
    let auction_end_price = match side {
        OrderSide::Buy => match oracle_price.checked_add(oracle_price / AUCTION_DERIVE_PRICE_FRACTION) {
            Some(v) => v,
            None => return Err(ErrorCode::MathError),
        },
        OrderSide::Sell => match oracle_price.checked_sub(oracle_price / AUCTION_DERIVE_PRICE_FRACTION) {
            Some(v) => v,
            None => return Err(ErrorCode::MathError),
        },
    };
    Ok((oracle_price, auction_end_price))
}

/// Where a derived auction runs, for a non-negative oracle price: a buy's auction climbs (its end
/// is at least its start) from no more than the oracle price, a sell's falls from no less; the end
/// never passes the limit price when there is one; and without a limit the auction runs from the
/// oracle price to `1/200` of it beyond (up for a buy, down for a sell).
pub proof fn lemma_auction_prices_run_toward_the_taker_limit(oracle_price_data: OraclePriceData, side: OrderSide, limit_price: u64)
    requires
        oracle_price_data.price >= 0,
    ensures
        spec_calculate_auction_prices(oracle_price_data, side, limit_price) matches Ok((start, end)) ==> {
            let oracle = oracle_price_data.price as int;
            &&& side == OrderSide::Buy ==> start <= end && start <= oracle
            &&& side == OrderSide::Sell ==> start >= end && start >= oracle
            &&& limit_price > 0 && side == OrderSide::Buy ==> end <= limit_price
            &&& limit_price > 0 && side == OrderSide::Sell ==> end >= limit_price
            &&& limit_price == 0 ==> start == oracle
            &&& limit_price == 0 && side == OrderSide::Buy ==> end == oracle + oracle / 200
            &&& limit_price == 0 && side == OrderSide::Sell ==> end == oracle - oracle / 200
        },
        limit_price == 0 ==> (spec_calculate_auction_prices(oracle_price_data, side, limit_price) is Ok
            <==> (side == OrderSide::Buy ==> oracle_price_data.price + oracle_price_data.price / 200 <= i64::MAX)),
{
    let oracle = oracle_price_data.price as int;
    assert(0 <= oracle / 200 <= oracle);
    if limit_price > 0 && limit_price <= i64::MAX {
        let l = limit_price as int;
        assert(0 <= l / 200 <= l);
    }
}

/// The auction price before rounding: start moved toward end by the elapsed share of the auction.
pub open spec fn auction_interpolation(start: int, end: int, elapsed: int, duration: int) -> int {
    let moved = min_int(elapsed, duration);
    if end >= start {
        start + (end - start) * moved / duration
    } else {
        start - (start - end) * moved / duration
    }
}

pub open spec fn spec_fixed_auction_price(order: Order, slot: u64, tick_size: u64) -> NormalResult<u64> {
    let start = order.auction_start_price as int;
    let end = order.auction_end_price as int;
    let elapsed = slot - order.slot;
    let moved = min_int(elapsed, order.auction_duration as int);
    if slot < order.slot || start < 0 || end < 0 {
        Err(ErrorCode::MathError)
    } else if order.auction_duration == 0 {
        spec_standardize_price(end as u64, tick_size, order.side)
    } else if (order.side == OrderSide::Buy && end < start) || (order.side == OrderSide::Sell && start < end) {
        Err(ErrorCode::MathError)
    } else {
        let span = if order.side == OrderSide::Buy { end - start } else { start - end };
        if span * moved > u64::MAX {
            Err(ErrorCode::MathError)
        } else {
            spec_standardize_price(auction_interpolation(start, end, elapsed, order.auction_duration as int) as u64, tick_size, order.side)
        }
    }
}

/// The price of a fixed auction at `slot`, rounded to the tick grid.
fn calculate_auction_price_for_fixed_auction(order: &Order, slot: u64, tick_size: u64) -> (r: NormalResult<u64>)
    ensures
        r == spec_fixed_auction_price(*order, slot, tick_size),
{
    if slot < order.slot {
        return Err(ErrorCode::MathError);
    }
    let slots_elapsed = slot - order.slot;
    let delta_numerator: u64 = if slots_elapsed <= order.auction_duration as u64 { slots_elapsed } else { order.auction_duration as u64 };
    let delta_denominator = order.auction_duration;
    if order.auction_start_price < 0 || order.auction_end_price < 0 {
        return Err(ErrorCode::MathError);
    }
    let auction_start_price = order.auction_start_price as u64;
    let auction_end_price = order.auction_end_price as u64;
    if delta_denominator == 0 {
        return standardize_price(auction_end_price, tick_size, order.side);
    }
    let span = match order.side {
        OrderSide::Buy => match auction_end_price.checked_sub(auction_start_price) {
            Some(v) => v,
            None => return Err(ErrorCode::MathError),
        },
        OrderSide::Sell => match auction_start_price.checked_sub(auction_end_price) {
            Some(v) => v,
            None => return Err(ErrorCode::MathError),
        },
    };
    let scaled = match span.checked_mul(delta_numerator) {
        Some(v) => v,
        None => return Err(ErrorCode::MathError),
    };
    let price_delta = scaled / (delta_denominator as u64);
    proof {
        assert(price_delta <= span) by (nonlinear_arith)
            requires price_delta == scaled as int / (delta_denominator as int), scaled == span * delta_numerator,
                delta_numerator <= delta_denominator, delta_denominator > 0, span >= 0;
    }
    let price = match order.side {
        OrderSide::Buy => auction_start_price + price_delta,
        OrderSide::Sell => auction_start_price - price_delta,
    };
    standardize_price(price, tick_size, order.side)
}

/// The price an order's auction has reached at `slot`.
pub fn calculate_auction_price(
    order: &Order,
    slot: u64,
    tick_size: u64,
    valid_oracle_price: Option<i64>,
) -> (r: NormalResult<u64>)
    ensures
        r == spec_fixed_auction_price(*order, slot, tick_size),
{
    match order.order_type {
        OrderType::Market | OrderType::TriggerMarket | OrderType::Limit | OrderType::TriggerLimit => {
            calculate_auction_price_for_fixed_auction(order, slot, tick_size)
        },
    }
}

/// Before rounding, an auction's price always lies between its start and end prices.
pub proof fn lemma_auction_price_between_start_and_end(start: int, end: int, elapsed: int, duration: int)
    requires
        duration > 0,
        elapsed >= 0,
    ensures
        min_int(start, end) <= auction_interpolation(start, end, elapsed, duration) <= max_int(start, end),
        elapsed == 0 ==> auction_interpolation(start, end, elapsed, duration) == start,
        elapsed >= duration ==> auction_interpolation(start, end, elapsed, duration) == end,
{
    let moved = min_int(elapsed, duration);
    if elapsed == 0 {
        assert((end - start) * 0 / duration == 0) by (nonlinear_arith) requires duration > 0;
        assert((start - end) * 0 / duration == 0) by (nonlinear_arith) requires duration > 0;
    }
    if end >= start {
        assert(0 <= (end - start) * moved / duration <= end - start) by (nonlinear_arith)
            requires end - start >= 0, 0 <= moved <= duration, duration > 0;
        if moved == duration {
            assert((end - start) * moved / duration == end - start) by (nonlinear_arith)
                requires moved == duration, duration > 0;
        }
    } else {
        assert(0 <= (start - end) * moved / duration <= start - end) by (nonlinear_arith)
            requires start - end >= 0, 0 <= moved <= duration, duration > 0;
        if moved == duration {
            assert((start - end) * moved / duration == start - end) by (nonlinear_arith)
                requires moved == duration, duration > 0;
        }
    }
}

/// Rounding to a tick grid, down or up, keeps the order of two non-negative prices.
proof fn lemma_tick_rounding_keeps_order(x: int, y: int, t: int)
    requires
        0 <= x <= y,
        t > 0,
    ensures
        x - x % t <= y - y % t,
        (if x % t == 0 { x } else { x + t - x % t }) <= (if y % t == 0 { y } else { y + t - y % t }),
{
    vstd::arithmetic::div_mod::lemma_fundamental_div_mod(x, t);
    vstd::arithmetic::div_mod::lemma_fundamental_div_mod(y, t);
    vstd::arithmetic::div_mod::lemma_mod_pos_bound(x, t);
    vstd::arithmetic::div_mod::lemma_mod_pos_bound(y, t);
    vstd::arithmetic::div_mod::lemma_div_is_ordered(x, y, t);
    let qx = x / t;
    let qy = y / t;
    if qx < qy {
        assert(t * (qx + 1) <= t * qy) by (nonlinear_arith) requires qx + 1 <= qy, t > 0;
        assert(t * (qx + 1) == t * qx + t) by (nonlinear_arith);
    } else {
        assert(qx == qy);
    }
}

/// Rounding a price to the tick grid keeps the order of two prices, whenever both roundings
/// succeed.
proof fn lemma_standardize_price_keeps_order(x: u64, y: u64, tick_size: u64, side: OrderSide)
    requires
        x <= y,
        spec_standardize_price(x, tick_size, side) is Ok,
        spec_standardize_price(y, tick_size, side) is Ok,
    ensures
        spec_standardize_price(x, tick_size, side)->Ok_0 <= spec_standardize_price(y, tick_size, side)->Ok_0,
{
    if x > 0 {
        assert(tick_size > 0);
        lemma_tick_rounding_keeps_order(x as int, y as int, tick_size as int);
        vstd::arithmetic::div_mod::lemma_mod_pos_bound(x as int, tick_size as int);
        vstd::arithmetic::div_mod::lemma_mod_pos_bound(y as int, tick_size as int);
        vstd::arithmetic::div_mod::lemma_mod_decreases(x as nat, tick_size as nat);
        vstd::arithmetic::div_mod::lemma_mod_decreases(y as nat, tick_size as nat);
        let rx = x % tick_size;
        let ry = y % tick_size;
        assert(rx == x as int % tick_size as int);
        assert(ry == y as int % tick_size as int);
        if side == OrderSide::Buy {
            assert(spec_standardize_price(x, tick_size, side)->Ok_0 == x - rx);
            assert(spec_standardize_price(y, tick_size, side)->Ok_0 == y - ry);
        } else {
            assert(spec_standardize_price(x, tick_size, side)->Ok_0 == (if rx == 0 { x as int } else { x + tick_size - rx }));
            assert(spec_standardize_price(y, tick_size, side)->Ok_0 == (if ry == 0 { y as int } else { y + tick_size - ry }));
        }
    } else if y > 0 && tick_size > 0 {
        vstd::arithmetic::div_mod::lemma_mod_pos_bound(y as int, tick_size as int);
    }
}

/// Before rounding, moving further through an auction moves its price further toward the end:
/// up when the end lies above the start, down otherwise.
proof fn lemma_auction_interpolation_keeps_order(start: int, end: int, e1: int, e2: int, duration: int)
    requires
        duration > 0,
        0 <= e1 <= e2,
    ensures
        end >= start ==> auction_interpolation(start, end, e1, duration) <= auction_interpolation(start, end, e2, duration),
        end < start ==> auction_interpolation(start, end, e1, duration) >= auction_interpolation(start, end, e2, duration),
{
    let m1 = min_int(e1, duration);
    let m2 = min_int(e2, duration);
    assert(m1 <= m2);
    if end >= start {
        let span = end - start;
        assert(span * m1 <= span * m2) by (nonlinear_arith) requires span >= 0, m1 <= m2;
        vstd::arithmetic::div_mod::lemma_div_is_ordered(span * m1, span * m2, duration);
    } else {
        let span = start - end;
        assert(span * m1 <= span * m2) by (nonlinear_arith) requires span >= 0, m1 <= m2;
        vstd::arithmetic::div_mod::lemma_div_is_ordered(span * m1, span * m2, duration);
    }
}

/// As the slot grows, a fixed auction's price only moves toward its end price: a buy's price
/// never falls and a sell's never rises.
pub proof fn lemma_fixed_auction_price_moves_toward_end(order: Order, s1: u64, s2: u64, tick_size: u64)
    requires
        s1 <= s2,
        spec_fixed_auction_price(order, s1, tick_size) is Ok,
        spec_fixed_auction_price(order, s2, tick_size) is Ok,
    ensures
        order.side == OrderSide::Buy ==> spec_fixed_auction_price(order, s1, tick_size)->Ok_0
            <= spec_fixed_auction_price(order, s2, tick_size)->Ok_0,
        order.side == OrderSide::Sell ==> spec_fixed_auction_price(order, s1, tick_size)->Ok_0
            >= spec_fixed_auction_price(order, s2, tick_size)->Ok_0,
{
    if order.auction_duration > 0 {
        let start = order.auction_start_price as int;
        let end = order.auction_end_price as int;
        let d = order.auction_duration as int;
        let e1 = s1 - order.slot;
        let e2 = s2 - order.slot;
        lemma_auction_interpolation_keeps_order(start, end, e1, e2, d);
        lemma_auction_price_between_start_and_end(start, end, e1, d);
        lemma_auction_price_between_start_and_end(start, end, e2, d);
        let x1 = auction_interpolation(start, end, e1, d);
        let x2 = auction_interpolation(start, end, e2, d);
        if order.side == OrderSide::Buy {
            lemma_standardize_price_keeps_order(x1 as u64, x2 as u64, tick_size, order.side);
        } else {
            lemma_standardize_price_keeps_order(x2 as u64, x1 as u64, tick_size, order.side);
        }
    }
}

/// Once the auction's duration has passed (at once, for an auction without duration), a fixed
/// auction's price is its end price rounded to the tick grid.
pub proof fn lemma_fixed_auction_price_after_duration(order: Order, slot: u64, tick_size: u64)
    requires
        slot >= order.slot + order.auction_duration,
        spec_fixed_auction_price(order, slot, tick_size) is Ok,
    ensures
        spec_fixed_auction_price(order, slot, tick_size)
            == spec_standardize_price(order.auction_end_price as u64, tick_size, order.side),
{
    if order.auction_duration > 0 {
        lemma_auction_price_between_start_and_end(order.auction_start_price as int, order.auction_end_price as int,
            slot - order.slot, order.auction_duration as int);
    }
}

pub open spec fn spec_is_auction_complete(order_slot: u64, auction_duration: u8, slot: u64) -> NormalResult<bool> {
    if auction_duration == 0 {
        Ok(true)
    } else if slot < order_slot {
        Err(ErrorCode::MathError)
    } else {
        Ok(slot - order_slot > auction_duration)
    }
}

/// An auction is complete once more slots than its duration have passed since the order.
pub fn is_auction_complete(order_slot: u64, auction_duration: u8, slot: u64) -> (r: NormalResult<bool>)
    ensures
        r == spec_is_auction_complete(order_slot, auction_duration, slot),
{
    if auction_duration == 0 {
        return Ok(true);
    }
    if slot < order_slot {
        return Err(ErrorCode::MathError);
    }
    Ok(slot - order_slot > auction_duration as u64)
}

/// Once complete, an auction stays complete at every later slot.
pub proof fn lemma_auction_completion_is_permanent(order_slot: u64, auction_duration: u8, slot: u64, later: u64)
    requires
        spec_is_auction_complete(order_slot, auction_duration, slot) == Ok::<bool, ErrorCode>(true),
        later >= slot,
    ensures
        spec_is_auction_complete(order_slot, auction_duration, later) == Ok::<bool, ErrorCode>(true),
{
}

/// The AMM may fill an order once the minimum auction has passed.
pub fn is_amm_available_liquidity_source(
    order: &Order,
    min_auction_duration: u8,
    slot: u64,
    fill_mode: FillMode,
) -> (r: NormalResult<bool>)
    ensures
        r == spec_is_auction_complete(order.slot, min_auction_duration, slot),
{
    is_auction_complete(order.slot, min_auction_duration, slot)
}

pub open spec fn spec_auction_params_for_trigger_order(
    order: Order,
    oracle_price_data: OraclePriceData,
    min_auction_duration: u8,
    market: Option<Market>,
) -> Option<NormalResult<(u8, i64, i64)>> {
    match market {
        Some(m) => match spec_derive_market_order_auction_params(m, order.side, oracle_price_data.price, order.price, 0) {
            None => None,
            Some(Err(e)) => Some(Err(e)),
            Some(Ok((s, e, d))) => Some(Ok((if min_auction_duration >= d { min_auction_duration } else { d }, s, e))),
        },
        None => match spec_calculate_auction_prices(oracle_price_data, order.side, order.price) {
            Err(e) => Some(Err(e)),
            Ok((s, e)) => Some(Ok((min_auction_duration, s, e))),
        },
    }
}

/// Auction of a triggered order: from the market's baseline when a market is given (lasting at
/// least the minimum), else derived from the oracle and the order's limit price.
pub fn calculate_auction_params_for_trigger_order(
    order: &Order,
    oracle_price_data: &OraclePriceData,
    min_auction_duration: u8,
    market: Option<&Market>,
) -> (r: NormalResult<(u8, i64, i64)>)
    requires
        spec_auction_params_for_trigger_order(*order, *oracle_price_data, min_auction_duration,
            match market { Some(m) => Some(*m), None => None }) is Some,
    ensures
        Some(r) == spec_auction_params_for_trigger_order(*order, *oracle_price_data, min_auction_duration,
            match market { Some(m) => Some(*m), None => None }),
{
    let auction_duration = min_auction_duration;
    if let Some(market) = market {
        let (auction_start_price, auction_end_price, derived_auction_duration) =
            OrderParams::derive_market_order_auction_params(market, order.side, oracle_price_data.price, order.price, 0)?;
        let auction_duration = if auction_duration >= derived_auction_duration { auction_duration } else { derived_auction_duration };
        Ok((auction_duration, auction_start_price, auction_end_price))
    } else {
        let (auction_start_price, auction_end_price) = calculate_auction_prices(oracle_price_data, order.side, order.price)?;
        Ok((auction_duration, auction_start_price, auction_end_price))
    }
}

} // verus!
