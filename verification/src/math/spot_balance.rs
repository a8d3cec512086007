use vstd::prelude::*;

use crate::error::{ErrorCode, NormalResult};
use crate::math::arith::{fdiv, is_i128, is_u128, pow10, pow10_u128, tdiv};
use crate::state::market::Market;
use crate::state::oracle::StrictOraclePrice;

verus! {

/// Balances are kept with 19 decimals; token amounts with the market's decimals.
pub open spec fn balance_precision_increase(decimals: u32) -> int {
    pow10((19 - decimals) as nat)
}

pub open spec fn spec_get_spot_balance(token_amount: u128, market: Market, round_up: bool) -> NormalResult<u128> {
    let b = token_amount * balance_precision_increase(market.decimals);
    if market.decimals > 19 || !is_u128(b) || (round_up && b != 0 && !is_u128(b + 1)) {
        Err(ErrorCode::MathError)
    } else if round_up && b != 0 {
        Ok((b + 1) as u128)
    } else {
        Ok(b as u128)
    }
}

/// The balance a token amount is recorded as, one unit higher when rounding up a non-zero balance.
pub fn get_spot_balance(token_amount: u128, market: &Market, round_up: bool) -> (r: NormalResult<u128>)
    ensures
        r == spec_get_spot_balance(token_amount, *market, round_up),
{
    if market.decimals > 19 {
        return Err(ErrorCode::MathError);
    }
    let precision_increase = pow10_u128(19 - market.decimals);
    let mut balance = match token_amount.checked_mul(precision_increase) {
        Some(v) => v,
        None => return Err(ErrorCode::MathError),
    };
    if round_up && balance != 0 {
        balance = match balance.checked_add(1) {
            Some(v) => v,
            None => return Err(ErrorCode::MathError),
        };
    }
    Ok(balance)
}

pub open spec fn spec_get_token_amount(balance: u128, market: Market) -> NormalResult<u128> {
    if market.decimals > 19 {
        Err(ErrorCode::MathError)
    } else {
        Ok((balance as int / balance_precision_increase(market.decimals)) as u128)
    }
}

/// The token amount a balance stands for, rounded down.
pub fn get_token_amount(balance: u128, market: &Market) -> (r: NormalResult<u128>)
    ensures
        r == spec_get_token_amount(balance, *market),
{
    if market.decimals > 19 {
        return Err(ErrorCode::MathError);
    }
    let precision_decrease = pow10_u128(19 - market.decimals);
    proof {
        crate::math::arith::lemma_pow10_positive((19 - market.decimals) as nat);
    }
    Ok(balance / precision_decrease)
}

/// A balance recorded without rounding gives back exactly the token amount it was made from.
pub proof fn lemma_token_amount_round_trip(token_amount: u128, market: Market)
    requires
        spec_get_spot_balance(token_amount, market, false) is Ok,
    ensures
        spec_get_token_amount(spec_get_spot_balance(token_amount, market, false)->Ok_0, market)
            == Ok::<u128, ErrorCode>(token_amount),
{
    let d = balance_precision_increase(market.decimals);
    crate::math::arith::lemma_pow10_positive((19 - market.decimals) as nat);
    assert((token_amount * d) / d == token_amount) by (nonlinear_arith) requires d > 0;
}

/// A token amount as a signed amount.
pub fn get_signed_token_amount(token_amount: u128) -> (r: NormalResult<i128>)
    ensures
        r == (if is_i128(token_amount as int) { Ok(token_amount as i128) } else { Err(ErrorCode::MathError) }),
{
    if token_amount > i128::MAX as u128 {
        return Err(ErrorCode::MathError);
    }
    Ok(token_amount as i128)
}

pub open spec fn spec_get_interest_token_amount(balance: u128, market: Market, interest: u128) -> NormalResult<u128> {
    let b = balance * interest;
    if market.decimals > 19 || !is_u128(b) {
        Err(ErrorCode::MathError)
    } else {
        Ok((b / balance_precision_increase(market.decimals)) as u128)
    }
}

/// The token amount that `interest` times a balance stands for.
pub fn get_interest_token_amount(balance: u128, market: &Market, interest: u128) -> (r: NormalResult<u128>)
    ensures
        r == spec_get_interest_token_amount(balance, *market, interest),
{
    if market.decimals > 19 {
        return Err(ErrorCode::MathError);
    }
    let precision_decrease = pow10_u128(19 - market.decimals);
    proof {
        crate::math::arith::lemma_pow10_positive((19 - market.decimals) as nat);
    }
    match balance.checked_mul(interest) {
        Some(v) => Ok(v / precision_decrease),
        None => Err(ErrorCode::MathError),
    }
}

/// Value of a signed token amount at a price: rounded toward negative infinity for a liability,
/// toward zero for an asset.
pub open spec fn token_value_at(token_amount: int, price: int, decimals: u32) -> NormalResult<i128> {
    let v = token_amount * price;
    if token_amount == 0 {
        Ok(0)
    } else if !is_i128(v) {
        Err(ErrorCode::MathError)
    } else if v < 0 {
        Ok(fdiv(v, pow10(decimals as nat)) as i128)
    } else {
        Ok(tdiv(v, pow10(decimals as nat)) as i128)
    }
}

proof fn lemma_value_quotient_in_range(v: int, d: int)
    requires
        is_i128(v),
        d >= 1,
    ensures
        is_i128(fdiv(v, d)),
        is_i128(tdiv(v, d)),
{
    if v < 0 {
        assert(v <= v / d <= 0) by (nonlinear_arith) requires v < 0, d >= 1;
        assert(-v / d <= -v) by (nonlinear_arith) requires v < 0, d >= 1;
        assert(0 <= -v / d) by (nonlinear_arith) requires v < 0, d >= 1;
    } else {
        assert(0 <= v / d <= v) by (nonlinear_arith) requires v >= 0, d >= 1;
    }
}

fn value_at_price(token_amount: i128, price: i64, spot_decimals: u32) -> (r: NormalResult<i128>)
    requires
        spot_decimals <= 38,
    ensures
        r == token_value_at(token_amount as int, price as int, spot_decimals),
{
    if token_amount == 0 {
        return Ok(0);
    }
    let pd = pow10_u128(spot_decimals);
    proof {
        crate::math::arith::lemma_pow10_positive(spot_decimals as nat);
        crate::math::arith::lemma_pow10_monotone(spot_decimals as nat, 38);
        crate::math::arith::lemma_pow10_38();
    }
    let precision_decrease = pd as i128;
    let v = match token_amount.checked_mul(price as i128) {
        Some(v) => v,
        None => return Err(ErrorCode::MathError),
    };
    proof {
        lemma_value_quotient_in_range(v as int, precision_decrease as int);
    }
    if v < 0 {
        let q = v / precision_decrease;
        let ghost d = precision_decrease as int;
        let ghost a = -(v as int);
        proof {
            assert(q == -(a / d));
            assert(a == d * (a / d) + a % d) by (nonlinear_arith) requires d > 0;
            assert(0 <= a % d < d) by (nonlinear_arith) requires d > 0;
            assert(0 <= (a / d) * d <= a) by (nonlinear_arith) requires a >= 0, d > 0;
            assert(q * d == -((a / d) * d)) by (nonlinear_arith) requires q == -(a / d);
            assert(v - q * d == -(a % d)) by (nonlinear_arith) requires a == d * (a / d) + a % d, q * d == -((a / d) * d), v == -a;
        }
        let prod = q * precision_decrease;
        let rem = v - prod;
        proof {
            assert(prod == -((a / d) * d)) by (nonlinear_arith) requires q == -(a / d), prod == q * d;
            assert(rem == -(a % d)) by (nonlinear_arith) requires a == d * (a / d) + a % d, prod == -((a / d) * d), rem == v - prod, v == -a;
            assert(v as int == prod + rem);
            assert(prod as int == q * d);
            assert(q * d == d * q) by (nonlinear_arith);
            if rem == 0 {
                assert(q == v as int / d) by (nonlinear_arith)
                    requires v as int == d * q, d > 0;
            } else {
                assert(q - 1 == v as int / d) by (nonlinear_arith)
                    requires v as int == d * q + rem, -d < rem < 0, d > 0;
            }
        }
        if rem != 0 { Ok(q - 1) } else { Ok(q) }
    } else {
        Ok(v / precision_decrease)
    }
}

pub open spec fn spec_get_strict_token_value(token_amount: i128, spot_decimals: u32, strict_price: StrictOraclePrice) -> NormalResult<i128> {
    let price = if token_amount > 0 { strict_price.spec_min() } else { strict_price.spec_max() };
    token_value_at(token_amount as int, price as int, spot_decimals)
}

/// The value at a price, once rounding is taken into account, is the floor of amount times price
/// over the precision.
proof fn lemma_token_value_is_floor(token_amount: int, price: int, decimals: u32)
    requires
        token_value_at(token_amount, price, decimals) is Ok,
    ensures
        token_value_at(token_amount, price, decimals)->Ok_0 == (token_amount * price) / pow10(decimals as nat),
{
    crate::math::arith::lemma_pow10_positive(decimals as nat);
    let v = token_amount * price;
    let d = pow10(decimals as nat);
    if token_amount == 0 {
        assert(v == 0) by (nonlinear_arith) requires token_amount == 0, v == token_amount * price;
        assert(0int / d == 0) by (nonlinear_arith) requires d > 0;
    } else {
        lemma_value_quotient_in_range(v, d);
        if v >= 0 {
            assert(tdiv(v, d) == v / d);
        }
    }
}

/// A larger price gives a larger value to an asset and a smaller one to a liability.
proof fn lemma_token_value_follows_price(token_amount: int, p1: int, p2: int, decimals: u32)
    requires
        p1 <= p2,
        token_value_at(token_amount, p1, decimals) is Ok,
        token_value_at(token_amount, p2, decimals) is Ok,
    ensures
        token_amount > 0 ==> token_value_at(token_amount, p1, decimals)->Ok_0 <= token_value_at(token_amount, p2, decimals)->Ok_0,
        token_amount < 0 ==> token_value_at(token_amount, p1, decimals)->Ok_0 >= token_value_at(token_amount, p2, decimals)->Ok_0,
{
    lemma_token_value_is_floor(token_amount, p1, decimals);
    lemma_token_value_is_floor(token_amount, p2, decimals);
    crate::math::arith::lemma_pow10_positive(decimals as nat);
    let d = pow10(decimals as nat);
    if token_amount > 0 {
        assert(token_amount * p1 <= token_amount * p2) by (nonlinear_arith) requires token_amount > 0, p1 <= p2;
        vstd::arithmetic::div_mod::lemma_div_is_ordered(token_amount * p1, token_amount * p2, d);
    } else if token_amount < 0 {
        assert(token_amount * p2 <= token_amount * p1) by (nonlinear_arith) requires token_amount < 0, p1 <= p2;
        vstd::arithmetic::div_mod::lemma_div_is_ordered(token_amount * p2, token_amount * p1, d);
    }
}

/// The strict value is the cautious one: it is the value at the current price or at the twap,
/// and never more than either of them, so an asset is never valued above what either price gives
/// and a liability never below.
pub proof fn lemma_strict_token_value_is_cautious(token_amount: i128, spot_decimals: u32, strict_price: StrictOraclePrice)
    requires
        spec_get_strict_token_value(token_amount, spot_decimals, strict_price) is Ok,
        token_value_at(token_amount as int, strict_price.current as int, spot_decimals) is Ok,
        strict_price.twap_5min matches Some(t) ==> token_value_at(token_amount as int, t as int, spot_decimals) is Ok,
    ensures
        spec_get_strict_token_value(token_amount, spot_decimals, strict_price)->Ok_0
            <= token_value_at(token_amount as int, strict_price.current as int, spot_decimals)->Ok_0,
        strict_price.twap_5min matches Some(t) ==> spec_get_strict_token_value(token_amount, spot_decimals, strict_price)->Ok_0
            <= token_value_at(token_amount as int, t as int, spot_decimals)->Ok_0,
        spec_get_strict_token_value(token_amount, spot_decimals, strict_price)
            == token_value_at(token_amount as int, strict_price.current as int, spot_decimals)
            || (strict_price.twap_5min matches Some(t) && spec_get_strict_token_value(token_amount, spot_decimals, strict_price)
                == token_value_at(token_amount as int, t as int, spot_decimals)),
{
    let a = token_amount as int;
    let c = strict_price.current as int;
    match strict_price.twap_5min {
        Some(t) => {
            let lo = strict_price.spec_min() as int;
            let hi = strict_price.spec_max() as int;
            if token_amount > 0 {
                lemma_token_value_follows_price(a, lo, c, spot_decimals);
                lemma_token_value_follows_price(a, lo, t as int, spot_decimals);
            } else if token_amount < 0 {
                lemma_token_value_follows_price(a, c, hi, spot_decimals);
                lemma_token_value_follows_price(a, t as int, hi, spot_decimals);
            }
        },
        None => {},
    }
}

/// The values that the cautious comparison speaks of can all be computed.
spec fn cautious_values_computable(token_amount: i128, spot_decimals: u32, strict_price: StrictOraclePrice) -> bool {
    &&& spec_get_strict_token_value(token_amount, spot_decimals, strict_price) is Ok
    &&& token_value_at(token_amount as int, strict_price.current as int, spot_decimals) is Ok
    &&& strict_price.twap_5min matches Some(t) ==> token_value_at(token_amount as int, t as int, spot_decimals) is Ok
}

/// Value of a token amount at the strict price: the lower price for an asset, the higher for a
/// liability.
pub fn get_strict_token_value(
    token_amount: i128,
    spot_decimals: u32,
    strict_price: &StrictOraclePrice,
) -> (r: NormalResult<i128>)
    requires
        spot_decimals <= 38,
    ensures
        r == spec_get_strict_token_value(token_amount, spot_decimals, *strict_price),
        r matches Ok(v) ==> (token_value_at(token_amount as int, strict_price.current as int, spot_decimals) matches Ok(c)
            ==> (v <= c && (strict_price.twap_5min matches Some(t)
                ==> (token_value_at(token_amount as int, t as int, spot_decimals) matches Ok(w) ==> v <= w)))),
{
    proof {
        if cautious_values_computable(token_amount, spot_decimals, *strict_price) {
            lemma_strict_token_value_is_cautious(token_amount, spot_decimals, *strict_price);
        }
    }
    if token_amount == 0 {
        return Ok(0);
    }
    let price = if token_amount > 0 { strict_price.min() } else { strict_price.max() };
    value_at_price(token_amount, price, spot_decimals)
}

/// Value of a token amount at the oracle price.
pub fn get_token_value(token_amount: i128, spot_decimals: u32, oracle_price: i64) -> (r: NormalResult<i128>)
    requires
        spot_decimals <= 38,
    ensures
        r == token_value_at(token_amount as int, oracle_price as int, spot_decimals),
{
    value_at_price(token_amount, oracle_price, spot_decimals)
}

} // verus!
