use vstd::prelude::*;

use crate::constants::{PRICE_PRECISION_I128, SPOT_IMF_PRECISION_U128};
use crate::error::{ErrorCode, NormalResult};
use crate::math::arith::{is_i128, is_u32, tdiv};
use crate::math::oracle::{is_oracle_valid_for_action, spec_is_oracle_valid_for_action, NormalAction, OracleValidity};
use crate::math::spot_balance::{get_token_value, token_value_at};

use num_integer::Roots;

verus! {

/// Which margin a requirement is computed for.
#[derive(Clone, Copy, PartialEq, Eq, Debug, Structural)]
pub enum MarginRequirementType {
    Initial,
    Maintenance,
}

/// `r` is the square root of `x` rounded down.
pub open spec fn is_floor_sqrt(r: int, x: int) -> bool {
    0 <= r && r * r <= x < (r + 1) * (r + 1)
}

/// The square root of `x` rounded down (for `x >= 0`).
pub open spec fn floor_sqrt(x: int) -> int {
    choose|r: int| is_floor_sqrt(r, x)
}

proof fn lemma_floor_sqrt_unique(r: int, s: int, x: int)
    requires
        is_floor_sqrt(r, x),
        is_floor_sqrt(s, x),
    ensures
        r == s,
{
    if r < s {
        assert((r + 1) * (r + 1) <= s * s) by (nonlinear_arith) requires 0 <= r, r + 1 <= s;
    } else if s < r {
        assert((s + 1) * (s + 1) <= r * r) by (nonlinear_arith) requires 0 <= s, s + 1 <= r;
    }
}

proof fn lemma_floor_sqrt_exists(x: int)
    requires
        x >= 0,
    ensures
        is_floor_sqrt(floor_sqrt(x), x),
    decreases x,
{
    if x == 0 {
        assert(is_floor_sqrt(0, 0));
    } else {
        lemma_floor_sqrt_exists(x - 1);
        lemma_floor_sqrt_step(floor_sqrt(x - 1), x);
    }
}

proof fn lemma_floor_sqrt_step(r: int, x: int)
    requires
        is_floor_sqrt(r, x - 1),
    ensures
        is_floor_sqrt(r, x) || is_floor_sqrt(r + 1, x),
{
    if (r + 1) * (r + 1) <= x {
        assert((r + 1) * (r + 1) == x) by (nonlinear_arith) requires (r + 1) * (r + 1) <= x, x - 1 < (r + 1) * (r + 1);
        assert(x < (r + 2) * (r + 2)) by (nonlinear_arith) requires (r + 1) * (r + 1) == x, r >= 0;
    }
}

/// The square root rounded down grows with its argument.
pub proof fn lemma_floor_sqrt_monotone(x: int, y: int)
    requires
        0 <= x <= y,
    ensures
        floor_sqrt(x) <= floor_sqrt(y),
{
    lemma_floor_sqrt_exists(x);
    lemma_floor_sqrt_exists(y);
    lemma_floor_sqrt_order(floor_sqrt(x), x, floor_sqrt(y), y);
}

proof fn lemma_floor_sqrt_order(rx: int, x: int, ry: int, y: int)
    requires
        is_floor_sqrt(rx, x),
        is_floor_sqrt(ry, y),
        x <= y,
    ensures
        rx <= ry,
{
    if rx > ry {
        assert((ry + 1) * (ry + 1) <= rx * rx) by (nonlinear_arith) requires rx >= ry + 1, ry >= 0;
    }
}

/// A larger size never lowers the liability weight: the size premium grows with the size.
pub proof fn lemma_size_premium_monotone(small: u128, large: u128, imf_factor: u32, liability_weight: u32, precision: u128)
    requires
        small <= large,
        precision != 0,
        spec_size_premium_liability_weight(small, imf_factor, liability_weight, precision) is Ok,
        spec_size_premium_liability_weight(large, imf_factor, liability_weight, precision) is Ok,
    ensures
        spec_size_premium_liability_weight(small, imf_factor, liability_weight, precision)->Ok_0
            <= spec_size_premium_liability_weight(large, imf_factor, liability_weight, precision)->Ok_0,
{
    if imf_factor != 0 {
        let xs = small * 10 + 1;
        let xl = large * 10 + 1;
        lemma_floor_sqrt_monotone(xs, xl);
        lemma_floor_sqrt_exists(xs);
        lemma_scaled_monotone(floor_sqrt(xs), floor_sqrt(xl), imf_factor as int,
            (100_000 * SPOT_IMF_PRECISION_U128) / precision as int);
    }
}

proof fn lemma_scaled_monotone(a: int, b: int, c: int, d: int)
    by (nonlinear_arith)
    requires
        a <= b,
        c >= 0,
        d > 0,
    ensures
        a * c / d <= b * c / d,
{
}

/// Calls `num_integer::Roots::nth_root` with degree 2 on a `u128`, which num-integer documents
/// as the truncated principal square root, `r² ≤ x < (r+1)²`.
#[verifier::external_body]
fn integer_sqrt(x: u128) -> (r: u128)
    ensures
        is_floor_sqrt(r as int, x as int),
{
    x.nth_root(2)
}

pub open spec fn spec_size_premium_liability_weight(
    size: u128,
    imf_factor: u32,
    liability_weight: u32,
    precision: u128,
) -> NormalResult<u32> {
    if imf_factor == 0 {
        Ok(liability_weight)
    } else {
        let size_sqrt = floor_sqrt(size * 10 + 1);
        let numerator = liability_weight - liability_weight / 5;
        let denominator = (100_000 * SPOT_IMF_PRECISION_U128) / precision as int;
        if denominator == 0 {
            Err(ErrorCode::MathError)
        } else {
            let premium = numerator + size_sqrt * imf_factor / denominator;
            if !is_u32(premium) {
                Err(ErrorCode::MathError)
            } else {
                Ok(if liability_weight >= premium { liability_weight } else { premium as u32 })
            }
        }
    }
}

/// The liability weight with a premium that grows with the square root of the size:
/// `max(weight, 4/5 * weight + sqrt(10 * size + 1) * imf_factor / (1e11 / precision))`.
pub fn calculate_size_premium_liability_weight(
    size: u128,
    imf_factor: u32,
    liability_weight: u32,
    precision: u128,
) -> (r: NormalResult<u32>)
    requires
        imf_factor != 0 ==> size * 10 + 1 <= u128::MAX && precision != 0,
    ensures
        r == spec_size_premium_liability_weight(size, imf_factor, liability_weight, precision),
{
    if imf_factor == 0 {
        return Ok(liability_weight);
    }
    let size_sqrt = integer_sqrt(size * 10 + 1);
    proof {
        let x = size * 10 + 1;
        assert(is_floor_sqrt(floor_sqrt(x), x)) by {
            assert(is_floor_sqrt(size_sqrt as int, x));
        }
        lemma_floor_sqrt_unique(size_sqrt as int, floor_sqrt(x), x);
        assert(size_sqrt <= 0x1_0000_0000_0000_0000) by (nonlinear_arith)
            requires size_sqrt * size_sqrt <= x, x <= u128::MAX, size_sqrt >= 0;
        assert(size_sqrt * imf_factor <= 0x1_0000_0000_0000_0000 * 0xffff_ffff) by (nonlinear_arith)
            requires size_sqrt <= 0x1_0000_0000_0000_0000, imf_factor <= 0xffff_ffff, size_sqrt >= 0, imf_factor >= 0;
    }
    let imf_factor_u128 = imf_factor as u128;
    let liability_weight_u128 = liability_weight as u128;
    let liability_weight_numerator = liability_weight_u128 - liability_weight_u128 / 5;
    let denominator = (100_000 * SPOT_IMF_PRECISION_U128) / precision;
    if denominator == 0 {
        return Err(ErrorCode::MathError);
    }
    let premium = liability_weight_numerator + size_sqrt * imf_factor_u128 / denominator;
    if premium > u32::MAX as u128 {
        return Err(ErrorCode::MathError);
    }
    let size_premium_liability_weight = premium as u32;
    Ok(if liability_weight >= size_premium_liability_weight { liability_weight } else { size_premium_liability_weight })
}

// ---------------------------------------------------------------------------
// User equity
// ---------------------------------------------------------------------------

/// One position of a user, as the equity sums it: its signed token amount with the market's
/// decimals and oracle reading, and the unrealized pnl of its synthetic position with the
/// quote asset's oracle price.
#[derive(Clone, Copy, PartialEq, Eq, Debug, Structural)]
pub struct EquityPosition {
    pub token_amount: i128,
    pub decimals: u32,
    pub oracle_price: i64,
    pub oracle_validity: OracleValidity,
    /// precision: QUOTE_PRECISION
    pub unrealized_pnl: i128,
    /// precision: PRICE_PRECISION
    pub quote_oracle_price: i64,
}

/// The net value of the first `n` positions, and whether every oracle they use is valid for a
/// margin calculation.
pub open spec fn spec_user_equity(positions: Seq<EquityPosition>, n: int) -> NormalResult<(i128, bool)>
    decreases n,
{
    if n <= 0 {
        Ok((0i128, true))
    } else {
        match spec_user_equity(positions, n - 1) {
            Err(e) => Err(e),
            Ok((net, all_valid)) => {
                let p = positions[n - 1];
                match token_value_at(p.token_amount as int, p.oracle_price as int, p.decimals) {
                    Err(e) => Err(e),
                    Ok(token_value) => {
                        let with_tokens = net + token_value;
                        let pnl_raw = p.unrealized_pnl * p.quote_oracle_price;
                        if !is_i128(with_tokens) || !is_i128(pnl_raw) || !is_i128(with_tokens + tdiv(pnl_raw, PRICE_PRECISION_I128 as int)) {
                            Err(ErrorCode::MathError)
                        } else {
                            Ok(((with_tokens + tdiv(pnl_raw, PRICE_PRECISION_I128 as int)) as i128,
                                all_valid && spec_is_oracle_valid_for_action(p.oracle_validity, Some(NormalAction::MarginCalc))))
                        }
                    },
                }
            },
        }
    }
}

proof fn lemma_user_equity_err(positions: Seq<EquityPosition>, n: int, m: int)
    requires
        0 <= n <= m,
        spec_user_equity(positions, n) is Err,
    ensures
        spec_user_equity(positions, m) == spec_user_equity(positions, n),
    decreases m - n,
{
    if m > n {
        lemma_user_equity_err(positions, n, m - 1);
    }
}

/// `x / d` rounded toward zero, for a positive divisor.
fn div_i128_toward_zero(x: i128, d: i128) -> (r: i128)
    requires
        d > 0,
    ensures
        r == tdiv(x as int, d as int),
{
    if x >= 0 {
        x / d
    } else {
        let ax: u128 = ((-(x + 1)) as u128) + 1;
        let q: u128 = ax / (d as u128);
        if q > i128::MAX as u128 {
            i128::MIN
        } else {
            -(q as i128)
        }
    }
}

/// The net value of a user's positions (token values plus unrealized pnl valued at the quote
/// oracle price) and whether every oracle used was valid for a margin calculation.
pub fn calculate_user_equity(positions: &Vec<EquityPosition>) -> (r: NormalResult<(i128, bool)>)
    requires
        forall|i: int| 0 <= i < positions@.len() ==> #[trigger] positions@[i].decimals <= 38,
    ensures
        r == spec_user_equity(positions@, positions@.len() as int),
{
    let mut net_usd_value: i128 = 0;
    let mut all_oracles_valid = true;
    let mut i: usize = 0;
    while i < positions.len()
        invariant
            i <= positions.len(),
            forall|k: int| 0 <= k < positions@.len() ==> #[trigger] positions@[k].decimals <= 38,
            spec_user_equity(positions@, i as int) == Ok::<(i128, bool), ErrorCode>((net_usd_value, all_oracles_valid)),
        decreases positions.len() - i,
    {
        let p = positions[i];
        let valid = match is_oracle_valid_for_action(p.oracle_validity, Some(NormalAction::MarginCalc)) {
            Ok(v) => v,
            Err(e) => return Err(e),
        };
        all_oracles_valid = all_oracles_valid && valid;
        let token_value = match get_token_value(p.token_amount, p.decimals, p.oracle_price) {
            Ok(v) => v,
            Err(e) => {
                proof {
                    lemma_user_equity_err(positions@, i + 1, positions@.len() as int);
                }
                return Err(e);
            },
        };
        let with_tokens = match net_usd_value.checked_add(token_value) {
            Some(v) => v,
            None => {
                proof {
                    lemma_user_equity_err(positions@, i + 1, positions@.len() as int);
                }
                return Err(ErrorCode::MathError);
            },
        };
        let pnl_raw = match p.unrealized_pnl.checked_mul(p.quote_oracle_price as i128) {
            Some(v) => v,
            None => {
                proof {
                    lemma_user_equity_err(positions@, i + 1, positions@.len() as int);
                }
                return Err(ErrorCode::MathError);
            },
        };
        let pnl_value = div_i128_toward_zero(pnl_raw, PRICE_PRECISION_I128);
        net_usd_value = match with_tokens.checked_add(pnl_value) {
            Some(v) => v,
            None => {
                proof {
                    lemma_user_equity_err(positions@, i + 1, positions@.len() as int);
                }
                return Err(ErrorCode::MathError);
            },
        };
        i = i + 1;
    }
    Ok((net_usd_value, all_oracles_valid))
}

} // verus!
