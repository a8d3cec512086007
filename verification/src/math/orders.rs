use vstd::prelude::*;

use crate::constants::{FEE_ADJUSTMENT_MAX, MARGIN_PRECISION_U128, PERCENTAGE_PRECISION, PERCENTAGE_PRECISION_U64};
use crate::error::{ErrorCode, NormalResult};
use crate::math::arith::{abs_int, cdiv, is_i128, is_i64, is_u64, min_int, pow10, pow10_u128, signum, unsigned_abs_i128, unsigned_abs_i64};
use crate::math::position::PositionDelta;
use crate::state::order_params::OrderSide;
use crate::state::user::{Order, OrderStatus, OrderTriggerCondition};

verus! {

// ---------------------------------------------------------------------------
// Step and tick rounding
// ---------------------------------------------------------------------------

pub open spec fn spec_standardize_base_asset_amount_with_remainder_i128(
    base_asset_amount: i128,
    step_size: u128,
) -> NormalResult<(i128, i128)> {
    if step_size == 0 {
        Err(ErrorCode::MathError)
    } else {
        let rem = abs_int(base_asset_amount as int) % (step_size as int);
        if !is_i128(rem) {
            Err(ErrorCode::MathError)
        } else {
            let signed_rem = rem * signum(base_asset_amount as int);
            Ok(((base_asset_amount - signed_rem) as i128, signed_rem as i128))
        }
    }
}

/// Splits a signed amount into a whole number of steps and a remainder of the same sign.
pub fn standardize_base_asset_amount_with_remainder_i128(
    base_asset_amount: i128,
    step_size: u128,
) -> (r: NormalResult<(i128, i128)>)
    ensures
        r == spec_standardize_base_asset_amount_with_remainder_i128(base_asset_amount, step_size),
        r matches Ok((standardized, remainder)) ==> {
            &&& standardized + remainder == base_asset_amount
            &&& abs_int(remainder as int) < step_size
            &&& standardized as int % step_size as int == 0
        },
{
    if step_size == 0 {
        return Err(ErrorCode::MathError);
    }
    let abs_base = unsigned_abs_i128(base_asset_amount);
    let rem_u = abs_base % step_size;
    if rem_u > i128::MAX as u128 {
        return Err(ErrorCode::MathError);
    }
    let rem = rem_u as i128;
    let signed_rem: i128 = if base_asset_amount > 0 {
        rem
    } else if base_asset_amount < 0 {
        -rem
    } else {
        0
    };
    proof {
        let a = abs_int(base_asset_amount as int);
        let s = step_size as int;
        assert(a % s <= a) by (nonlinear_arith) requires a >= 0, s > 0;
        assert(a == s * (a / s) + a % s) by (nonlinear_arith) requires s > 0;
        if base_asset_amount < 0 {
            vstd::arithmetic::div_mod::lemma_mod_multiples_basic(-(a / s), s);
            assert(-(s * (a / s)) == (-(a / s)) * s) by (nonlinear_arith);
        } else {
            assert((s * (a / s)) % s == 0) by (nonlinear_arith) requires s > 0;
        }
    }
    let standardized = base_asset_amount - signed_rem;
    Ok((standardized, signed_rem))
}

pub open spec fn spec_standardize_base_asset_amount(base_asset_amount: u64, step_size: u64) -> NormalResult<u64> {
    if step_size == 0 {
        Err(ErrorCode::MathError)
    } else {
        Ok((base_asset_amount - base_asset_amount % step_size) as u64)
    }
}

/// Rounds an amount down to a whole number of steps.
pub fn standardize_base_asset_amount(base_asset_amount: u64, step_size: u64) -> (r: NormalResult<u64>)
    ensures
        r == spec_standardize_base_asset_amount(base_asset_amount, step_size),
        r matches Ok(v) ==> v <= base_asset_amount && base_asset_amount - v < step_size && v % step_size == 0,
{
    if step_size == 0 {
        return Err(ErrorCode::MathError);
    }
    let remainder = base_asset_amount % step_size;
    proof {
        lemma_round_down_multiple(base_asset_amount as int, step_size as int);
    }
    Ok(base_asset_amount - remainder)
}

pub open spec fn spec_standardize_base_asset_amount_ceil(base_asset_amount: u64, step_size: u64) -> NormalResult<u64> {
    if step_size == 0 {
        Err(ErrorCode::MathError)
    } else if base_asset_amount % step_size == 0 {
        Ok(base_asset_amount)
    } else if base_asset_amount + step_size > u64::MAX {
        Err(ErrorCode::MathError)
    } else {
        Ok((base_asset_amount + step_size - base_asset_amount % step_size) as u64)
    }
}

/// Rounds an amount up to a whole number of steps.
pub fn standardize_base_asset_amount_ceil(base_asset_amount: u64, step_size: u64) -> (r: NormalResult<u64>)
    ensures
        r == spec_standardize_base_asset_amount_ceil(base_asset_amount, step_size),
        r matches Ok(v) ==> v >= base_asset_amount && v - base_asset_amount < step_size && v % step_size == 0,
{
    if step_size == 0 {
        return Err(ErrorCode::MathError);
    }
    let remainder = base_asset_amount % step_size;
    if remainder == 0 {
        return Ok(base_asset_amount);
    }
    if base_asset_amount > u64::MAX - step_size {
        return Err(ErrorCode::MathError);
    }
    proof {
        lemma_round_up_multiple(base_asset_amount as int, step_size as int);
    }
    Ok(base_asset_amount + step_size - remainder)
}

/// Whether an amount is a whole number of steps; a zero step is an error.
pub fn is_multiple_of_step_size(base_asset_amount: u64, step_size: u64) -> (r: NormalResult<bool>)
    ensures
        step_size == 0 <==> r is Err,
        r is Err ==> r == Err::<bool, ErrorCode>(ErrorCode::MathError),
        r matches Ok(b) ==> b == (base_asset_amount % step_size == 0),
{
    if step_size == 0 {
        return Err(ErrorCode::MathError);
    }
    Ok(base_asset_amount % step_size == 0)
}

pub open spec fn spec_standardize_price(price: u64, tick_size: u64, side: OrderSide) -> NormalResult<u64> {
    if price == 0 {
        Ok(0)
    } else if tick_size == 0 {
        Err(ErrorCode::MathError)
    } else if price % tick_size == 0 {
        Ok(price)
    } else {
        match side {
            OrderSide::Buy => Ok((price - price % tick_size) as u64),
            OrderSide::Sell => if price + tick_size > u64::MAX {
                Err(ErrorCode::MathError)
            } else {
                Ok((price + tick_size - price % tick_size) as u64)
            },
        }
    }
}

/// Rounds a price to the tick grid: down for a buy, up for a sell.
pub fn standardize_price(price: u64, tick_size: u64, side: OrderSide) -> (r: NormalResult<u64>)
    ensures
        r == spec_standardize_price(price, tick_size, side),
        r matches Ok(v) ==> v % tick_size == 0 || price == 0,
        r matches Ok(v) ==> (side == OrderSide::Buy ==> v <= price) && (side == OrderSide::Sell ==> v >= price),
{
    if price == 0 {
        return Ok(0);
    }
    if tick_size == 0 {
        return Err(ErrorCode::MathError);
    }
    let remainder = price % tick_size;
    if remainder == 0 {
        return Ok(price);
    }
    proof {
        lemma_round_down_multiple(price as int, tick_size as int);
        lemma_round_up_multiple(price as int, tick_size as int);
    }
    match side {
        OrderSide::Buy => Ok(price - remainder),
        OrderSide::Sell => {
            if price > u64::MAX - tick_size {
                return Err(ErrorCode::MathError);
            }
            Ok(price + tick_size - remainder)
        },
    }
}

pub open spec fn spec_standardize_price_i64(price: i64, tick_size: i64, side: OrderSide) -> NormalResult<i64> {
    if price == 0 {
        Ok(0)
    } else if tick_size == 0 || (price == i64::MIN && tick_size == -1) {
        Err(ErrorCode::MathError)
    } else {
        let rem = price as int % tick_size as int;
        if rem == 0 {
            Ok(price)
        } else {
            match side {
                OrderSide::Buy => if is_i64(price - rem) {
                    Ok((price - rem) as i64)
                } else {
                    Err(ErrorCode::MathError)
                },
                OrderSide::Sell => if !is_i64(price + tick_size) || !is_i64(price + tick_size - rem) {
                    Err(ErrorCode::MathError)
                } else {
                    Ok((price + tick_size - rem) as i64)
                },
            }
        }
    }
}

/// Signed counterpart of `standardize_price`, with the euclidean remainder.
pub fn standardize_price_i64(price: i64, tick_size: i64, side: OrderSide) -> (r: NormalResult<i64>)
    ensures
        r == spec_standardize_price_i64(price, tick_size, side),
{
    if price == 0 {
        return Ok(0);
    }
    let remainder = match price.checked_rem_euclid(tick_size) {
        Some(v) => v,
        None => return Err(ErrorCode::MathError),
    };
    if remainder == 0 {
        return Ok(price);
    }
    match side {
        OrderSide::Buy => match price.checked_sub(remainder) {
            Some(v) => Ok(v),
            None => Err(ErrorCode::MathError),
        },
        OrderSide::Sell => {
            let up = match price.checked_add(tick_size) {
                Some(v) => v,
                None => return Err(ErrorCode::MathError),
            };
            match up.checked_sub(remainder) {
                Some(v) => Ok(v),
                None => Err(ErrorCode::MathError),
            }
        },
    }
}

pub proof fn lemma_round_down_multiple(x: int, s: int)
    requires
        x >= 0,
        s > 0,
    ensures
        0 <= x % s < s,
        x % s <= x,
        (x - x % s) % s == 0,
{
    assert(x == s * (x / s) + x % s) by (nonlinear_arith) requires s > 0;
    assert((s * (x / s)) % s == 0) by (nonlinear_arith) requires s > 0;
    assert(x % s <= x) by (nonlinear_arith) requires x >= 0, s > 0;
}

pub proof fn lemma_round_up_multiple(x: int, s: int)
    requires
        x >= 0,
        s > 0,
    ensures
        (x + s - x % s) % s == 0,
{
    assert(x == s * (x / s) + x % s) by (nonlinear_arith) requires s > 0;
    assert((s * (x / s + 1)) % s == 0) by (nonlinear_arith) requires s > 0;
    assert(x + s - x % s == s * (x / s + 1)) by (nonlinear_arith) requires x == s * (x / s) + x % s;
}

/// An amount rounded down to whole steps is a whole number of steps.
pub proof fn lemma_standardized_amount_is_multiple(base_asset_amount: u64, step_size: u64)
    requires
        step_size > 0,
    ensures
        spec_standardize_base_asset_amount(base_asset_amount, step_size) matches Ok(v)
            && v % step_size == 0
            && spec_standardize_base_asset_amount(v, step_size) == Ok::<u64, ErrorCode>(v),
{
    lemma_round_down_multiple(base_asset_amount as int, step_size as int);
}

/// Rounding a price twice to the same tick grid changes nothing more.
pub proof fn lemma_standardize_price_idempotent(price: u64, tick_size: u64, side: OrderSide)
    requires
        tick_size > 0,
        spec_standardize_price(price, tick_size, side) is Ok,
    ensures
        spec_standardize_price(spec_standardize_price(price, tick_size, side)->Ok_0, tick_size, side)
            == spec_standardize_price(price, tick_size, side),
{
    lemma_round_down_multiple(price as int, tick_size as int);
    lemma_round_up_multiple(price as int, tick_size as int);
}


// ---------------------------------------------------------------------------
// Fill amounts and prices
// ---------------------------------------------------------------------------

pub open spec fn spec_quote_asset_amount_for_maker_order(
    base_asset_amount: u64,
    fill_price: u64,
    base_decimals: u32,
    position_side: OrderSide,
) -> NormalResult<u64> {
    let q = fill_price as int * base_asset_amount as int;
    let d = pow10(base_decimals as nat);
    let v = match position_side {
        OrderSide::Buy => q / d,
        OrderSide::Sell => cdiv(q, d),
    };
    if is_u64(v) { Ok(v as u64) } else { Err(ErrorCode::MathError) }
}

/// The quote value of a fill, rounded down for a buy and up for a sell.
pub fn calculate_quote_asset_amount_for_maker_order(
    base_asset_amount: u64,
    fill_price: u64,
    base_decimals: u32,
    position_side: OrderSide,
) -> (r: NormalResult<u64>)
    requires
        base_decimals <= 38,
    ensures
        r == spec_quote_asset_amount_for_maker_order(base_asset_amount, fill_price, base_decimals, position_side),
{
    let precision_decrease = pow10_u128(base_decimals);
    proof {
        crate::math::arith::lemma_pow10_positive(base_decimals as nat);
        assert(fill_price as int * base_asset_amount as int <= u64::MAX as int * u64::MAX as int) by (nonlinear_arith);
    }
    let q = (fill_price as u128) * (base_asset_amount as u128);
    let v = match position_side {
        OrderSide::Buy => q / precision_decrease,
        OrderSide::Sell => {
            let d = q / precision_decrease;
            proof {
                assert(d <= q) by (nonlinear_arith) requires precision_decrease >= 1, d == q / precision_decrease;
            }
            if q % precision_decrease == 0 { d } else { d + 1 }
        },
    };
    if v > u64::MAX as u128 {
        return Err(ErrorCode::MathError);
    }
    Ok(v as u64)
}

pub open spec fn spec_position_delta_for_fill(
    base_asset_amount: u64,
    quote_asset_amount: u64,
    side: OrderSide,
) -> NormalResult<PositionDelta> {
    if quote_asset_amount > i64::MAX || base_asset_amount > i64::MAX {
        Err(ErrorCode::MathError)
    } else {
        Ok(PositionDelta {
            quote_asset_amount: match side {
                OrderSide::Buy => -quote_asset_amount,
                OrderSide::Sell => quote_asset_amount as int,
            } as i64,
            base_asset_amount: match side {
                OrderSide::Buy => base_asset_amount as int,
                OrderSide::Sell => -base_asset_amount,
            } as i64,
            remainder_base_asset_amount: None,
        })
    }
}

/// A fill trades base against quote: the base and quote of its position change have opposite
/// signs and the amounts filled as sizes; a buy gains base and pays quote, a sell the reverse,
/// and a buy's change is exactly the negation of the sell's for the same amounts.
pub proof fn lemma_fill_delta_trades_base_for_quote(base_asset_amount: u64, quote_asset_amount: u64)
    ensures
        spec_position_delta_for_fill(base_asset_amount, quote_asset_amount, OrderSide::Buy) is Ok
            <==> base_asset_amount <= i64::MAX && quote_asset_amount <= i64::MAX,
        spec_position_delta_for_fill(base_asset_amount, quote_asset_amount, OrderSide::Buy) matches Ok(buy) ==> {
            &&& buy.base_asset_amount >= 0 && buy.quote_asset_amount <= 0
            &&& buy.base_asset_amount == base_asset_amount
            &&& buy.quote_asset_amount == -quote_asset_amount
            &&& buy.remainder_base_asset_amount is None
        },
        spec_position_delta_for_fill(base_asset_amount, quote_asset_amount, OrderSide::Sell) matches Ok(sell) ==> {
            &&& sell.base_asset_amount <= 0 && sell.quote_asset_amount >= 0
            &&& sell.base_asset_amount == -base_asset_amount
            &&& sell.quote_asset_amount == quote_asset_amount
        },
        spec_position_delta_for_fill(base_asset_amount, quote_asset_amount, OrderSide::Buy) matches Ok(buy)
            ==> spec_position_delta_for_fill(base_asset_amount, quote_asset_amount, OrderSide::Sell) matches Ok(sell)
            && sell.base_asset_amount == -buy.base_asset_amount
            && sell.quote_asset_amount == -buy.quote_asset_amount,
{
}

/// What a fill does to a position: a buy pays quote for base, a sell the reverse.
pub fn get_position_delta_for_fill(
    base_asset_amount: u64,
    quote_asset_amount: u64,
    side: OrderSide,
) -> (r: NormalResult<PositionDelta>)
    ensures
        r == spec_position_delta_for_fill(base_asset_amount, quote_asset_amount, side),
        r is Ok <==> base_asset_amount <= i64::MAX && quote_asset_amount <= i64::MAX,
        r matches Ok(d) ==> {
            &&& side == OrderSide::Buy ==> d.base_asset_amount == base_asset_amount
                && d.quote_asset_amount == -quote_asset_amount
            &&& side == OrderSide::Sell ==> d.base_asset_amount == -base_asset_amount
                && d.quote_asset_amount == quote_asset_amount
        },
{
    if quote_asset_amount > i64::MAX as u64 {
        return Err(ErrorCode::MathError);
    }
    let quote = quote_asset_amount as i64;
    if base_asset_amount > i64::MAX as u64 {
        return Err(ErrorCode::MathError);
    }
    let base = base_asset_amount as i64;
    Ok(PositionDelta {
        quote_asset_amount: match side {
            OrderSide::Buy => -quote,
            OrderSide::Sell => quote,
        },
        base_asset_amount: match side {
            OrderSide::Buy => base,
            OrderSide::Sell => -base,
        },
        remainder_base_asset_amount: None,
    })
}

pub open spec fn spec_should_cancel_reduce_only_order(
    order: Order,
    existing_base_asset_amount: i64,
    step_size: u64,
) -> NormalResult<bool> {
    if order.status == OrderStatus::Open && order.reduce_only {
        match order.spec_base_asset_amount_unfilled(Some(existing_base_asset_amount)) {
            Ok(u) => Ok(u < step_size),
            Err(e) => Err(e),
        }
    } else {
        Ok(false)
    }
}

/// An open reduce only order is cancelled once less than a step of it can still fill.
pub fn should_cancel_reduce_only_order(
    order: &Order,
    existing_base_asset_amount: i64,
    step_size: u64,
) -> (r: NormalResult<bool>)
    ensures
        r == spec_should_cancel_reduce_only_order(*order, existing_base_asset_amount, step_size),
{
    if order.status == OrderStatus::Open && order.reduce_only {
        let unfilled = order.get_base_asset_amount_unfilled(Some(existing_base_asset_amount))?;
        Ok(unfilled < step_size)
    } else {
        Ok(false)
    }
}

pub open spec fn sat_sub(a: int, b: int) -> int {
    if a >= b { a - b } else { 0 }
}

pub open spec fn spec_validate_fill_price_within_price_bands(
    fill_price: u64,
    side: OrderSide,
    oracle_price: i64,
    oracle_twap_5min: i64,
    oracle_twap_5min_percent_divergence: u64,
) -> NormalResult<()> {
    let oracle = abs_int(oracle_price as int);
    let twap = abs_int(oracle_twap_5min as int);
    let fill = fill_price as int;
    if side == OrderSide::Buy && fill < oracle && fill < twap {
        Ok(())
    } else if side == OrderSide::Sell && fill > oracle && fill > twap {
        Ok(())
    } else if oracle == 0 || twap == 0 {
        Err(ErrorCode::MathError)
    } else {
        let twap_gap = if side == OrderSide::Buy { sat_sub(fill, twap) } else { sat_sub(twap, fill) };
        if twap_gap * PERCENTAGE_PRECISION / twap < oracle_twap_5min_percent_divergence {
            Ok(())
        } else {
            Err(ErrorCode::PriceBandsBreached)
        }
    }
}

/// A fill may cross the oracle price and 5 minute twap only by less than the allowed divergence
/// (in PERCENTAGE_PRECISION) of the twap.
pub fn validate_fill_price_within_price_bands(
    fill_price: u64,
    side: OrderSide,
    oracle_price: i64,
    oracle_twap_5min: i64,
    oracle_twap_5min_percent_divergence: u64,
) -> (r: NormalResult<()>)
    ensures
        r == spec_validate_fill_price_within_price_bands(
            fill_price, side, oracle_price, oracle_twap_5min, oracle_twap_5min_percent_divergence),
{
    let oracle_price = unsigned_abs_i64(oracle_price);
    let oracle_twap_5min = unsigned_abs_i64(oracle_twap_5min);
    let max_oracle_twap_diff = oracle_twap_5min_percent_divergence as u128;

    if side == OrderSide::Buy {
        if fill_price < oracle_price && fill_price < oracle_twap_5min {
            return Ok(());
        }
        // the gap to the oracle price is measured too, and needs a non-zero oracle price
        let oracle_gap = fill_price.saturating_sub(oracle_price) as u128;
        proof {
            assert(oracle_gap * MARGIN_PRECISION_U128 <= u64::MAX as int * 10_000) by (nonlinear_arith)
                requires oracle_gap <= u64::MAX;
        }
        if oracle_price == 0 {
            return Err(ErrorCode::MathError);
        }
        let _percent_diff: u128 = oracle_gap * MARGIN_PRECISION_U128 / (oracle_price as u128);
        let twap_gap = fill_price.saturating_sub(oracle_twap_5min) as u128;
        proof {
            assert(twap_gap * PERCENTAGE_PRECISION <= u64::MAX as int * 1_000_000) by (nonlinear_arith)
                requires twap_gap <= u64::MAX;
        }
        if oracle_twap_5min == 0 {
            return Err(ErrorCode::MathError);
        }
        let percent_diff = twap_gap * PERCENTAGE_PRECISION / (oracle_twap_5min as u128);
        if percent_diff < max_oracle_twap_diff {
            Ok(())
        } else {
            Err(ErrorCode::PriceBandsBreached)
        }
    } else {
        if fill_price > oracle_price && fill_price > oracle_twap_5min {
            return Ok(());
        }
        let oracle_gap = oracle_price.saturating_sub(fill_price) as u128;
        proof {
            assert(oracle_gap * MARGIN_PRECISION_U128 <= u64::MAX as int * 10_000) by (nonlinear_arith)
                requires oracle_gap <= u64::MAX;
        }
        if oracle_price == 0 {
            return Err(ErrorCode::MathError);
        }
        let _percent_diff: u128 = oracle_gap * MARGIN_PRECISION_U128 / (oracle_price as u128);
        let twap_gap = oracle_twap_5min.saturating_sub(fill_price) as u128;
        proof {
            assert(twap_gap * PERCENTAGE_PRECISION <= u64::MAX as int * 1_000_000) by (nonlinear_arith)
                requires twap_gap <= u64::MAX;
        }
        if oracle_twap_5min == 0 {
            return Err(ErrorCode::MathError);
        }
        let percent_diff = twap_gap * PERCENTAGE_PRECISION / (oracle_twap_5min as u128);
        if percent_diff < max_oracle_twap_diff {
            Ok(())
        } else {
            Err(ErrorCode::PriceBandsBreached)
        }
    }
}

pub open spec fn spec_is_oracle_too_divergent_with_twap_5min(
    oracle_price: i64,
    oracle_twap_5min: i64,
    max_divergence: i64,
) -> NormalResult<bool> {
    let gap = abs_int(oracle_price - oracle_twap_5min);
    if !is_i64(oracle_price - oracle_twap_5min) || !is_i64(gap * PERCENTAGE_PRECISION) || oracle_twap_5min == 0 {
        Err(ErrorCode::MathError)
    } else {
        Ok(gap * PERCENTAGE_PRECISION / abs_int(oracle_twap_5min as int) >= max_divergence)
    }
}

/// Whether the oracle price is at least `max_divergence` (in PERCENTAGE_PRECISION) away from its twap.
pub fn is_oracle_too_divergent_with_twap_5min(
    oracle_price: i64,
    oracle_twap_5min: i64,
    max_divergence: i64,
) -> (r: NormalResult<bool>)
    requires
        oracle_twap_5min != i64::MIN,
        oracle_price - oracle_twap_5min != i64::MIN,
    ensures
        r == spec_is_oracle_too_divergent_with_twap_5min(oracle_price, oracle_twap_5min, max_divergence),
{
    let diff = match oracle_price.checked_sub(oracle_twap_5min) {
        Some(v) => v,
        None => return Err(ErrorCode::MathError),
    };
    let gap: i64 = if diff < 0 { -diff } else { diff };
    let scaled = match gap.checked_mul(PERCENTAGE_PRECISION_U64 as i64) {
        Some(v) => v,
        None => return Err(ErrorCode::MathError),
    };
    if oracle_twap_5min == 0 {
        return Err(ErrorCode::MathError);
    }
    let twap_abs: i64 = if oracle_twap_5min < 0 { -oracle_twap_5min } else { oracle_twap_5min };
    let percent_diff = scaled / twap_abs;
    Ok(percent_diff >= max_divergence)
}

pub open spec fn spec_order_satisfies_trigger_condition(order: Order, oracle_price: u64) -> NormalResult<bool> {
    match order.trigger_condition {
        OrderTriggerCondition::Above => Ok(oracle_price > order.trigger_price),
        OrderTriggerCondition::Below => Ok(oracle_price < order.trigger_price),
        _ => Err(ErrorCode::InvalidTriggerOrderCondition),
    }
}

/// A trigger above fires when the oracle rises past the trigger price, a trigger below when it falls
/// past it; an order whose trigger already fired has no condition left to test.
pub fn order_satisfies_trigger_condition(order: &Order, oracle_price: u64) -> (r: NormalResult<bool>)
    ensures
        r == spec_order_satisfies_trigger_condition(*order, oracle_price),
{
    match order.trigger_condition {
        OrderTriggerCondition::Above => Ok(oracle_price > order.trigger_price),
        OrderTriggerCondition::Below => Ok(oracle_price < order.trigger_price),
        _ => Err(ErrorCode::InvalidTriggerOrderCondition),
    }
}

pub open spec fn spec_is_new_order_risk_increasing(
    order: Order,
    position_base_asset_amount: i64,
    position_bids: i64,
    position_asks: i64,
) -> NormalResult<bool> {
    if order.reduce_only {
        Ok(false)
    } else {
        match order.side {
            OrderSide::Buy => if position_base_asset_amount >= 0 {
                Ok(true)
            } else if order.base_asset_amount > i64::MAX || !is_i64(position_bids + order.base_asset_amount) {
                Err(ErrorCode::MathError)
            } else {
                Ok(position_bids + order.base_asset_amount > abs_int(position_base_asset_amount as int))
            },
            OrderSide::Sell => if position_base_asset_amount <= 0 {
                Ok(true)
            } else if order.base_asset_amount > i64::MAX || !is_i64(position_asks - order.base_asset_amount) {
                Err(ErrorCode::MathError)
            } else {
                Ok(abs_int(position_asks - order.base_asset_amount) > position_base_asset_amount)
            },
        }
    }
}

/// Whether placing the order can grow the position beyond what is already open against it.
pub fn is_new_order_risk_increasing(
    order: &Order,
    position_base_asset_amount: i64,
    position_bids: i64,
    position_asks: i64,
) -> (r: NormalResult<bool>)
    requires
        !(order.side == OrderSide::Buy && position_base_asset_amount == i64::MIN && !order.reduce_only
            && order.base_asset_amount <= i64::MAX
            && is_i64(position_bids + order.base_asset_amount)),
        !(order.side == OrderSide::Sell && position_base_asset_amount > 0 && !order.reduce_only
            && order.base_asset_amount <= i64::MAX
            && position_asks - order.base_asset_amount == i64::MIN),
    ensures
        r == spec_is_new_order_risk_increasing(*order, position_base_asset_amount, position_bids, position_asks),
{
    if order.reduce_only {
        return Ok(false);
    }
    match order.side {
        OrderSide::Buy => {
            if position_base_asset_amount >= 0 {
                return Ok(true);
            }
            if order.base_asset_amount > i64::MAX as u64 {
                return Err(ErrorCode::MathError);
            }
            let total = match position_bids.checked_add(order.base_asset_amount as i64) {
                Some(v) => v,
                None => return Err(ErrorCode::MathError),
            };
            Ok(total > -position_base_asset_amount)
        },
        OrderSide::Sell => {
            if position_base_asset_amount <= 0 {
                return Ok(true);
            }
            if order.base_asset_amount > i64::MAX as u64 {
                return Err(ErrorCode::MathError);
            }
            let rest = match position_asks.checked_sub(order.base_asset_amount as i64) {
                Some(v) => v,
                None => return Err(ErrorCode::MathError),
            };
            let rest_abs: i64 = if rest < 0 { -rest } else { rest };
            Ok(rest_abs > position_base_asset_amount)
        },
    }
}

pub open spec fn spec_is_order_position_reducing(
    order_side: OrderSide,
    order_base_asset_amount: u64,
    position_base_asset_amount: i64,
) -> bool {
    match order_side {
        OrderSide::Buy => position_base_asset_amount < 0
            && order_base_asset_amount <= abs_int(position_base_asset_amount as int),
        OrderSide::Sell => position_base_asset_amount > 0
            && order_base_asset_amount <= position_base_asset_amount,
    }
}

/// An order reduces a position when it trades against it by no more than its size.
pub fn is_order_position_reducing(
    order_side: &OrderSide,
    order_base_asset_amount: u64,
    position_base_asset_amount: i64,
) -> (r: NormalResult<bool>)
    ensures
        r == Ok::<bool, ErrorCode>(
            spec_is_order_position_reducing(*order_side, order_base_asset_amount, position_base_asset_amount)),
{
    Ok(match order_side {
        OrderSide::Buy => position_base_asset_amount < 0
            && order_base_asset_amount <= unsigned_abs_i64(position_base_asset_amount),
        OrderSide::Sell => position_base_asset_amount > 0
            && order_base_asset_amount <= unsigned_abs_i64(position_base_asset_amount),
    })
}

pub open spec fn spec_calculate_fill_price(quote_asset_amount: u64, base_asset_amount: u64, base_precision: u64) -> NormalResult<u64> {
    if base_asset_amount == 0 {
        Err(ErrorCode::MathError)
    } else {
        let p = quote_asset_amount as int * base_precision as int / base_asset_amount as int;
        if is_u64(p) { Ok(p as u64) } else { Err(ErrorCode::MathError) }
    }
}

/// The average price of a fill, `quote * base_precision / base`.
pub fn calculate_fill_price(quote_asset_amount: u64, base_asset_amount: u64, base_precision: u64) -> (r: NormalResult<u64>)
    ensures
        r == spec_calculate_fill_price(quote_asset_amount, base_asset_amount, base_precision),
{
    proof {
        assert(quote_asset_amount as int * base_precision as int <= u64::MAX as int * u64::MAX as int) by (nonlinear_arith);
    }
    let q = (quote_asset_amount as u128) * (base_precision as u128);
    if base_asset_amount == 0 {
        return Err(ErrorCode::MathError);
    }
    let p = q / (base_asset_amount as u128);
    if p > u64::MAX as u128 {
        return Err(ErrorCode::MathError);
    }
    Ok(p as u64)
}

pub open spec fn spec_validate_fill_price(
    quote_asset_amount: u64,
    base_asset_amount: u64,
    base_precision: u64,
    order_side: OrderSide,
    order_limit_price: u64,
    is_taker: bool,
) -> NormalResult<()> {
    let rounded = if is_taker {
        match order_side {
            OrderSide::Buy => sat_sub(quote_asset_amount as int, 1),
            OrderSide::Sell => min_int(quote_asset_amount + 1, u64::MAX as int),
        }
    } else {
        quote_asset_amount as int
    };
    match spec_calculate_fill_price(rounded as u64, base_asset_amount, base_precision) {
        Err(e) => Err(e),
        Ok(fill_price) => if order_side == OrderSide::Buy && fill_price > order_limit_price {
            Err(ErrorCode::InvalidOrderFillPrice)
        } else if order_side == OrderSide::Sell && fill_price < order_limit_price {
            Err(ErrorCode::InvalidOrderFillPrice)
        } else {
            Ok(())
        },
    }
}

/// A fill is valid when its average price (a taker is given one unit of quote of slack) is no
/// worse than the order's limit price.
pub fn validate_fill_price(
    quote_asset_amount: u64,
    base_asset_amount: u64,
    base_precision: u64,
    order_side: OrderSide,
    order_limit_price: u64,
    is_taker: bool,
) -> (r: NormalResult<()>)
    ensures
        r == spec_validate_fill_price(
            quote_asset_amount, base_asset_amount, base_precision, order_side, order_limit_price, is_taker),
{
    let rounded_quote_asset_amount = if is_taker {
        match order_side {
            OrderSide::Buy => quote_asset_amount.saturating_sub(1),
            OrderSide::Sell => quote_asset_amount.saturating_add(1),
        }
    } else {
        quote_asset_amount
    };
    let fill_price = calculate_fill_price(rounded_quote_asset_amount, base_asset_amount, base_precision)?;
    if order_side == OrderSide::Buy && fill_price > order_limit_price {
        return Err(ErrorCode::InvalidOrderFillPrice);
    }
    if order_side == OrderSide::Sell && fill_price < order_limit_price {
        return Err(ErrorCode::InvalidOrderFillPrice);
    }
    Ok(())
}

/// The maker rebate of a fee tier, `numerator / denominator`.
#[derive(Clone, Copy, PartialEq, Eq, Debug, Structural)]
pub struct FeeTier {
    pub maker_rebate_numerator: u32,
    pub maker_rebate_denominator: u32,
}

pub open spec fn spec_limit_price_with_buffer(
    order: Order,
    limit_price: Option<u64>,
    fee_tier: FeeTier,
    fee_adjustment: i16,
) -> NormalResult<Option<u64>> {
    if !order.post_only {
        Ok(limit_price)
    } else {
        match limit_price {
            None => Ok(None),
            Some(l) => {
                let raw = l as int * fee_tier.maker_rebate_numerator as int;
                if !is_u64(raw) || fee_tier.maker_rebate_denominator == 0 {
                    Err(ErrorCode::MathError)
                } else {
                    let buffer = raw / fee_tier.maker_rebate_denominator as int;
                    let adj = abs_int(fee_adjustment as int);
                    if fee_adjustment != 0 && !is_u64(buffer * adj) {
                        Err(ErrorCode::MathError)
                    } else {
                        let delta = buffer * adj / FEE_ADJUSTMENT_MAX as int;
                        let buffer = if fee_adjustment < 0 {
                            sat_sub(buffer, delta)
                        } else if fee_adjustment > 0 {
                            min_int(buffer + delta, u64::MAX as int)
                        } else {
                            buffer
                        };
                        match order.side {
                            OrderSide::Buy => if l >= buffer { Ok(Some((l - buffer) as u64)) } else { Err(ErrorCode::MathError) },
                            OrderSide::Sell => if is_u64(l + buffer) { Ok(Some((l + buffer) as u64)) } else { Err(ErrorCode::MathError) },
                        }
                    }
                }
            },
        }
    }
}

/// A post only order keeps a buffer of the maker rebate (adjusted by the market's fee
/// adjustment, in percent) between its limit price and the price it may be filled at.
pub fn calculate_limit_price_with_buffer(
    order: &Order,
    limit_price: Option<u64>,
    fee_tier: &FeeTier,
    fee_adjustment: i16,
) -> (r: NormalResult<Option<u64>>)
    requires
        fee_adjustment != i16::MIN,
    ensures
        r == spec_limit_price_with_buffer(*order, limit_price, *fee_tier, fee_adjustment),
{
    if !order.post_only {
        return Ok(limit_price);
    }
    let l = match limit_price {
        None => return Ok(None),
        Some(l) => l,
    };
    let raw = match l.checked_mul(fee_tier.maker_rebate_numerator as u64) {
        Some(v) => v,
        None => return Err(ErrorCode::MathError),
    };
    if fee_tier.maker_rebate_denominator == 0 {
        return Err(ErrorCode::MathError);
    }
    let mut buffer = raw / (fee_tier.maker_rebate_denominator as u64);
    if fee_adjustment < 0 {
        let adj = (-fee_adjustment) as u64;
        let scaled = match buffer.checked_mul(adj) {
            Some(v) => v,
            None => return Err(ErrorCode::MathError),
        };
        buffer = buffer.saturating_sub(scaled / FEE_ADJUSTMENT_MAX);
    } else if fee_adjustment > 0 {
        let adj = fee_adjustment as u64;
        let scaled = match buffer.checked_mul(adj) {
            Some(v) => v,
            None => return Err(ErrorCode::MathError),
        };
        buffer = buffer.saturating_add(scaled / FEE_ADJUSTMENT_MAX);
    }
    match order.side {
        OrderSide::Buy => match l.checked_sub(buffer) {
            Some(v) => Ok(Some(v)),
            None => Err(ErrorCode::MathError),
        },
        OrderSide::Sell => match l.checked_add(buffer) {
            Some(v) => Ok(Some(v)),
            None => Err(ErrorCode::MathError),
        },
    }
}

// ---------------------------------------------------------------------------
// Order book depth
// ---------------------------------------------------------------------------

/// One price level of a side of the book.
#[derive(Clone, Copy, PartialEq, Eq, Debug, Structural)]
pub struct Level {
    pub price: u64,
    pub base_asset_amount: u64,
}

/// Walks the levels best first, taking up to `depth`: the quote paid and the depth left over.
pub open spec fn depth_walk(levels: Seq<Level>, depth: int) -> (int, int)
    decreases levels.len(),
{
    if levels.len() == 0 || depth <= 0 {
        (0, depth)
    } else {
        let taken = min_int(levels[0].base_asset_amount as int, depth);
        let rest = depth_walk(levels.drop_first(), depth - taken);
        (levels[0].price * taken + rest.0, rest.1)
    }
}

pub open spec fn spec_estimate_price_from_side(levels: Seq<Level>, depth: u64) -> NormalResult<Option<u64>> {
    if depth == 0 {
        Err(ErrorCode::MathError)
    } else {
        let w = depth_walk(levels, depth as int);
        if w.1 == 0 { Ok(Some((w.0 / depth as int) as u64)) } else { Ok(None) }
    }
}

/// The average price of buying (or selling) `depth` from a side of the book, best level first;
/// `None` when the side holds less than `depth`.
pub fn estimate_price_from_side(side: &Vec<Level>, depth: u64) -> (r: NormalResult<Option<u64>>)
    ensures
        r == spec_estimate_price_from_side(side@, depth),
{
    let mut depth_remaining = depth;
    let mut cumulative_base = 0_u64;
    let mut cumulative_quote = 0_u128;
    let mut i: usize = 0;
    proof {
        assert(side@.skip(0) =~= side@);
    }
    while i < side.len() && depth_remaining > 0
        invariant
            i <= side.len(),
            cumulative_base + depth_remaining == depth,
            cumulative_quote <= u64::MAX * cumulative_base,
            depth_walk(side@, depth as int) == (
                cumulative_quote + depth_walk(side@.skip(i as int), depth_remaining as int).0,
                depth_walk(side@.skip(i as int), depth_remaining as int).1,
            ),
        decreases side.len() - i,
    {
        let level = side[i];
        let base_delta = if level.base_asset_amount <= depth_remaining { level.base_asset_amount } else { depth_remaining };
        proof {
            assert(side@.skip(i as int).drop_first() =~= side@.skip(i as int + 1));
            assert(side@.skip(i as int)[0] == level);
            assert(level.price * base_delta <= u64::MAX * base_delta) by (nonlinear_arith)
                requires level.price <= u64::MAX, base_delta >= 0;
            assert(u64::MAX * cumulative_base + u64::MAX * base_delta == u64::MAX * (cumulative_base + base_delta)) by (nonlinear_arith);
            assert(u64::MAX * (cumulative_base + base_delta) <= u64::MAX * u64::MAX) by (nonlinear_arith)
                requires cumulative_base + base_delta <= u64::MAX;
        }
        let quote_delta = (level.price as u128) * (base_delta as u128);
        cumulative_base = cumulative_base + base_delta;
        depth_remaining = depth_remaining - base_delta;
        cumulative_quote = cumulative_quote + quote_delta;
        i = i + 1;
    }
    proof {
        if depth_remaining > 0 {
            assert(side@.skip(i as int).len() == 0);
        }
    }
    if depth_remaining == 0 {
        if cumulative_base == 0 {
            return Err(ErrorCode::MathError);
        }
        let avg = cumulative_quote / (cumulative_base as u128);
        proof {
            assert(avg <= u64::MAX) by (nonlinear_arith)
                requires avg == cumulative_quote / (cumulative_base as u128), cumulative_quote <= u64::MAX * cumulative_base, cumulative_base > 0;
        }
        Ok(Some(avg as u64))
    } else {
        Ok(None)
    }
}

} // verus!
