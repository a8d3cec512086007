use vstd::prelude::*;

use crate::constants::{PRICE_TIMES_AMM_TO_QUOTE_PRECISION_RATIO, PRICE_TIMES_AMM_TO_QUOTE_PRECISION_RATIO_I128};
use crate::error::{ErrorCode, NormalResult};
use crate::math::arith::{abs_int, is_i64, is_u128, signum, tdiv, unsigned_abs_i128};
use crate::math::orders::standardize_base_asset_amount_with_remainder_i128;
use crate::state::market::Market;
use crate::state::user::PerpPosition;

verus! {

/// A change to a position: what a fill adds to it.
#[derive(Clone, Copy, PartialEq, Eq, Debug, Structural)]
pub struct PositionDelta {
    pub quote_asset_amount: i64,
    pub base_asset_amount: i64,
    pub remainder_base_asset_amount: Option<i32>,
}

/// Which way the AMM's base reserve moves.
#[derive(Clone, Copy, PartialEq, Eq, Debug, Structural)]
pub enum SwapDirection {
    Add,
    Remove,
}

/// Closing a long adds base to the AMM; closing a short removes it.
pub fn swap_direction_to_close_position(base_asset_amount: i128) -> (r: SwapDirection)
    ensures
        r == (if base_asset_amount >= 0 { SwapDirection::Add } else { SwapDirection::Remove }),
{
    if base_asset_amount >= 0 {
        SwapDirection::Add
    } else {
        SwapDirection::Remove
    }
}

pub open spec fn spec_base_asset_value_with_oracle_price(base_asset_amount: i128, oracle_price: i64) -> NormalResult<u128> {
    let price: int = if oracle_price > 0 { oracle_price as int } else { 0 };
    let v = abs_int(base_asset_amount as int) * price;
    if base_asset_amount == 0 {
        Ok(0)
    } else if !is_u128(v) {
        Err(ErrorCode::MathError)
    } else {
        Ok((v / PRICE_TIMES_AMM_TO_QUOTE_PRECISION_RATIO as int) as u128)
    }
}

/// Quote value of a base amount at the oracle price; a non-positive price values it at zero.
pub fn calculate_base_asset_value_with_oracle_price(base_asset_amount: i128, oracle_price: i64) -> (r: NormalResult<u128>)
    ensures
        r == spec_base_asset_value_with_oracle_price(base_asset_amount, oracle_price),
{
    if base_asset_amount == 0 {
        return Ok(0);
    }
    let oracle_price: u64 = if oracle_price > 0 { oracle_price as u64 } else { 0 };
    match unsigned_abs_i128(base_asset_amount).checked_mul(oracle_price as u128) {
        Some(v) => Ok(v / PRICE_TIMES_AMM_TO_QUOTE_PRECISION_RATIO),
        None => Err(ErrorCode::MathError),
    }
}

pub open spec fn spec_base_asset_value_with_expiry_price(position: PerpPosition, expiry_price: i64) -> NormalResult<i64> {
    let v = tdiv(position.base_asset_amount as int * expiry_price as int, PRICE_TIMES_AMM_TO_QUOTE_PRECISION_RATIO_I128 as int);
    if position.base_asset_amount == 0 {
        Ok(0)
    } else if is_i64(v) {
        Ok(v as i64)
    } else {
        Err(ErrorCode::MathError)
    }
}

/// Signed quote value of a position at the expiry price.
pub fn calculate_base_asset_value_with_expiry_price(market_position: &PerpPosition, expiry_price: i64) -> (r: NormalResult<i64>)
    ensures
        r == spec_base_asset_value_with_expiry_price(*market_position, expiry_price),
{
    if market_position.base_asset_amount() == 0 {
        return Ok(0);
    }
    let base = market_position.base_asset_amount() as i128;
    proof {
        assert(-0x8000_0000_0000_0000 * 0x8000_0000_0000_0000 <= base * expiry_price <= 0x8000_0000_0000_0000 * 0x8000_0000_0000_0000)
            by (nonlinear_arith)
            requires -0x8000_0000_0000_0000 <= base < 0x8000_0000_0000_0000, -0x8000_0000_0000_0000 <= expiry_price < 0x8000_0000_0000_0000;
    }
    let v = base * (expiry_price as i128) / PRICE_TIMES_AMM_TO_QUOTE_PRECISION_RATIO_I128;
    if v < i64::MIN as i128 || v > i64::MAX as i128 {
        return Err(ErrorCode::MathError);
    }
    Ok(v as i64)
}

/// How a fill changes a position.
#[derive(Clone, Copy, PartialEq, Eq, Debug, Structural)]
pub enum PositionUpdateType {
    Open,
    Increase,
    Reduce,
    Close,
}

pub open spec fn position_with_remainder(position: PerpPosition) -> int {
    position.base_asset_amount + position.remainder_base_asset_amount
}

pub open spec fn delta_with_remainder(delta: PositionDelta) -> int {
    delta.base_asset_amount + match delta.remainder_base_asset_amount {
        Some(r) => r as int,
        None => 0,
    }
}

pub open spec fn spec_position_update_type(position: PerpPosition, delta: PositionDelta) -> NormalResult<PositionUpdateType> {
    let p = position_with_remainder(position);
    let d = delta_with_remainder(delta);
    if position.base_asset_amount == 0 && position.remainder_base_asset_amount == 0 {
        Ok(PositionUpdateType::Open)
    } else if !is_i64(p) || !is_i64(d) {
        Err(ErrorCode::MathError)
    } else if signum(p) == signum(d) {
        Ok(PositionUpdateType::Increase)
    } else if abs_int(p) > abs_int(d) {
        Ok(PositionUpdateType::Reduce)
    } else if abs_int(p) == abs_int(d) {
        Ok(PositionUpdateType::Close)
    } else {
        Err(ErrorCode::InvalidPositionDelta)
    }
}

/// What each class says of the position after the change (position and change taken with their
/// remainders, `p` before and `p + d` after), for a position that is not empty and amounts that
/// fit: a close leaves exactly nothing of a non-zero position; a reduction leaves a non-zero
/// position on the same side and no larger; an increase moves in the position's direction; and a
/// change that would cross to the other side is refused.
pub proof fn lemma_position_update_type_meaning(position: PerpPosition, delta: PositionDelta)
    requires
        position.base_asset_amount != 0 || position.remainder_base_asset_amount != 0,
        is_i64(position_with_remainder(position)),
        is_i64(delta_with_remainder(delta)),
    ensures
        ({
            let p = position_with_remainder(position);
            let d = delta_with_remainder(delta);
            let r = spec_position_update_type(position, delta);
            &&& r == Ok::<PositionUpdateType, ErrorCode>(PositionUpdateType::Close) <==> (p != 0 && p + d == 0)
            &&& r == Ok::<PositionUpdateType, ErrorCode>(PositionUpdateType::Reduce)
                <==> (p != 0 && p + d != 0 && (p + d > 0) == (p > 0) && abs_int(p + d) <= abs_int(p))
            &&& r == Ok::<PositionUpdateType, ErrorCode>(PositionUpdateType::Increase)
                <==> (p * d > 0 || (p == 0 && d == 0))
            &&& r == Err::<PositionUpdateType, ErrorCode>(ErrorCode::InvalidPositionDelta)
                <==> (p * d <= 0 && abs_int(d) > abs_int(p))
            &&& r != Ok::<PositionUpdateType, ErrorCode>(PositionUpdateType::Open)
        }),
{
    let p = position_with_remainder(position);
    let d = delta_with_remainder(delta);
    if p > 0 && d > 0 {
        assert(p * d > 0) by (nonlinear_arith) requires p > 0, d > 0;
    } else if p < 0 && d < 0 {
        assert(p * d > 0) by (nonlinear_arith) requires p < 0, d < 0;
    } else {
        assert(p * d <= 0) by (nonlinear_arith) requires !(p > 0 && d > 0), !(p < 0 && d < 0);
    }
}

/// Classifies a change by the position and change including their remainders: opening an empty
/// position, growing it, shrinking it, or closing it exactly. A change that would flip the
/// position to the other side has no class and is refused.
pub fn get_position_update_type(position: &PerpPosition, delta: &PositionDelta) -> (r: NormalResult<PositionUpdateType>)
    requires
        !(position.base_asset_amount != 0 || position.remainder_base_asset_amount != 0)
            || !is_i64(position_with_remainder(*position)) || !is_i64(delta_with_remainder(*delta))
            || signum(position_with_remainder(*position)) == signum(delta_with_remainder(*delta))
            || (position_with_remainder(*position) != i64::MIN && delta_with_remainder(*delta) != i64::MIN),
    ensures
        r == spec_position_update_type(*position, *delta),
        (position.base_asset_amount != 0 || position.remainder_base_asset_amount != 0)
            && position_with_remainder(*position) != 0
            && delta_with_remainder(*delta) == -position_with_remainder(*position)
            && is_i64(position_with_remainder(*position)) && is_i64(delta_with_remainder(*delta))
            ==> r == Ok::<PositionUpdateType, ErrorCode>(PositionUpdateType::Close),
        r == Ok::<PositionUpdateType, ErrorCode>(PositionUpdateType::Reduce)
            ==> abs_int(position_with_remainder(*position) + delta_with_remainder(*delta))
                < abs_int(position_with_remainder(*position))
                || delta_with_remainder(*delta) == 0,
{
    if position.base_asset_amount() == 0 && position.remainder_base_asset_amount == 0 {
        return Ok(PositionUpdateType::Open);
    }
    let position_base_with_remainder = if position.remainder_base_asset_amount != 0 {
        match position.base_asset_amount().checked_add(position.remainder_base_asset_amount as i64) {
            Some(v) => v,
            None => return Err(ErrorCode::MathError),
        }
    } else {
        position.base_asset_amount()
    };
    let delta_base_with_remainder = if let Some(remainder_base_asset_amount) = delta.remainder_base_asset_amount {
        match delta.base_asset_amount.checked_add(remainder_base_asset_amount as i64) {
            Some(v) => v,
            None => return Err(ErrorCode::MathError),
        }
    } else {
        delta.base_asset_amount
    };
    let ps: i8 = if position_base_with_remainder > 0 { 1 } else if position_base_with_remainder < 0 { -1 } else { 0 };
    let ds: i8 = if delta_base_with_remainder > 0 { 1 } else if delta_base_with_remainder < 0 { -1 } else { 0 };
    if ps == ds {
        return Ok(PositionUpdateType::Increase);
    }
    let pa: i64 = if position_base_with_remainder < 0 { -position_base_with_remainder } else { position_base_with_remainder };
    let da: i64 = if delta_base_with_remainder < 0 { -delta_base_with_remainder } else { delta_base_with_remainder };
    if pa > da {
        Ok(PositionUpdateType::Reduce)
    } else if pa == da {
        Ok(PositionUpdateType::Close)
    } else {
        Err(ErrorCode::InvalidPositionDelta)
    }
}

pub open spec fn spec_new_position_amounts(
    position: PerpPosition,
    delta: PositionDelta,
    step_size: u64,
) -> NormalResult<(i64, i64, i64)> {
    let nb = position.base_asset_amount + delta.base_asset_amount;
    let nr = position.remainder_base_asset_amount + match delta.remainder_base_asset_amount {
        Some(r) => r as int,
        None => 0,
    };
    if !is_i64(nb) {
        Err(ErrorCode::MathError)
    } else {
        match delta.remainder_base_asset_amount {
            None => Ok((nb as i64, delta.base_asset_amount, nr as i64)),
            Some(_) => if abs_int(nr) >= step_size {
                if step_size == 0 {
                    Err(ErrorCode::MathError)
                } else {
                    let rem = (abs_int(nr) % (step_size as int)) * signum(nr);
                    let standardized = nr - rem;
                    if !is_i64(nb + standardized) || !is_i64(delta.base_asset_amount + standardized) {
                        Err(ErrorCode::MathError)
                    } else if abs_int(rem) > i32::MAX {
                        Err(ErrorCode::InvalidPositionDelta)
                    } else {
                        Ok(((nb + standardized) as i64, (delta.base_asset_amount + standardized) as i64, rem as i64))
                    }
                }
            } else if abs_int(nr) > i32::MAX {
                Err(ErrorCode::InvalidPositionDelta)
            } else {
                Ok((nb as i64, delta.base_asset_amount, nr as i64))
            },
        }
    }
}

/// The base amount, settled base amount and remainder of a position after a change: remainders
/// that add up to a whole step are settled into the base amount.
pub fn get_new_position_amounts(
    position: &PerpPosition,
    delta: &PositionDelta,
    market: &Market,
) -> (r: NormalResult<(i64, i64, i64)>)
    ensures
        r == spec_new_position_amounts(*position, *delta, market.amm.order_step_size),
        r matches Ok((base, _settled, remainder)) ==> base + remainder
            == position_with_remainder(*position) + delta_with_remainder(*delta),
{
    let mut new_base_asset_amount = match position.base_asset_amount().checked_add(delta.base_asset_amount) {
        Some(v) => v,
        None => return Err(ErrorCode::MathError),
    };
    let delta_remainder: i32 = match delta.remainder_base_asset_amount {
        Some(r) => r,
        None => 0,
    };
    let mut new_remainder_base_asset_amount: i64 = (position.remainder_base_asset_amount as i64) + (delta_remainder as i64);
    let mut new_settled_base_asset_amount = delta.base_asset_amount;

    if delta.remainder_base_asset_amount.is_some() {
        let rem_abs: u64 = if new_remainder_base_asset_amount < 0 {
            (-new_remainder_base_asset_amount) as u64
        } else {
            new_remainder_base_asset_amount as u64
        };
        if rem_abs >= market.amm.order_step_size {
            let (standardized_remainder_base_asset_amount, remainder_base_asset_amount) =
                standardize_base_asset_amount_with_remainder_i128(
                    new_remainder_base_asset_amount as i128,
                    market.amm.order_step_size as u128,
                )?;
            proof {
                let s = market.amm.order_step_size as int;
                let a = abs_int(new_remainder_base_asset_amount as int);
                assert(a % s <= a) by (nonlinear_arith) requires a >= 0, s > 0;
            }
            let standardized = standardized_remainder_base_asset_amount as i64;
            new_base_asset_amount = match new_base_asset_amount.checked_add(standardized) {
                Some(v) => v,
                None => return Err(ErrorCode::MathError),
            };
            new_settled_base_asset_amount = match new_settled_base_asset_amount.checked_add(standardized) {
                Some(v) => v,
                None => return Err(ErrorCode::MathError),
            };
            new_remainder_base_asset_amount = remainder_base_asset_amount as i64;
        }
        let abs_rem: i64 = if new_remainder_base_asset_amount < 0 { -new_remainder_base_asset_amount } else { new_remainder_base_asset_amount };
        if abs_rem > i32::MAX as i64 {
            return Err(ErrorCode::InvalidPositionDelta);
        }
    }
    Ok((new_base_asset_amount, new_settled_base_asset_amount, new_remainder_base_asset_amount))
}

} // verus!
