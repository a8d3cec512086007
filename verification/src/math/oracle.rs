use vstd::prelude::*;

use crate::constants::{BID_ASK_SPREAD_PRECISION, PERCENTAGE_PRECISION_I64, PERCENTAGE_PRECISION_U64};
use crate::error::{ErrorCode, NormalResult};
use crate::math::arith::{abs_int, is_i64, max_int, min_int, tdiv};
use crate::state::oracle::OraclePriceData;
use crate::state::state::{OracleGuardRails, PriceDivergenceGuardRails, ValidityGuardRails};
use crate::state::market::Market;
use crate::state::amm::{truncating_div_i64, unsigned_abs, AMM};

verus! {

/// Validity of an oracle reading, ordered from most to least severe.
#[derive(Clone, Copy, PartialEq, Eq, Debug, Structural)]
pub enum OracleValidity {
    NonPositive,
    TooVolatile,
    TooUncertain,
    InsufficientDataPoints,
    StaleForAMM,
    Valid,
}

impl Default for OracleValidity {
    fn default() -> (r: Self)
        ensures
            r == OracleValidity::Valid,
    {
        OracleValidity::Valid
    }
}

impl OracleValidity {
    pub open spec fn spec_error_code(self) -> ErrorCode {
        match self {
            OracleValidity::NonPositive => ErrorCode::OracleNonPositive,
            OracleValidity::TooVolatile => ErrorCode::OracleTooVolatile,
            OracleValidity::TooUncertain => ErrorCode::OracleTooUncertain,
            OracleValidity::InsufficientDataPoints => ErrorCode::OracleInsufficientDataPoints,
            _ => ErrorCode::OracleStaleForAMM,
        }
    }

    /// The error that reports an invalid reading; a valid reading has none.
    pub fn get_error_code(&self) -> (r: ErrorCode)
        requires
            *self != OracleValidity::Valid,
        ensures
            r == self.spec_error_code(),
    {
        match self {
            OracleValidity::NonPositive => ErrorCode::OracleNonPositive,
            OracleValidity::TooVolatile => ErrorCode::OracleTooVolatile,
            OracleValidity::TooUncertain => ErrorCode::OracleTooUncertain,
            OracleValidity::InsufficientDataPoints => ErrorCode::OracleInsufficientDataPoints,
            _ => ErrorCode::OracleStaleForAMM,
        }
    }

    /// The name of the validity, as it is displayed.
    pub fn to_string(&self) -> (r: &'static str)
        ensures
            *self == OracleValidity::NonPositive ==> r@ == "NonPositive"@,
            *self == OracleValidity::TooVolatile ==> r@ == "TooVolatile"@,
            *self == OracleValidity::TooUncertain ==> r@ == "TooUncertain"@,
            *self == OracleValidity::InsufficientDataPoints ==> r@ == "InsufficientDataPoints"@,
            *self == OracleValidity::StaleForAMM ==> r@ == "StaleForAMM"@,
            *self == OracleValidity::Valid ==> r@ == "Valid"@,
    {
        match self {
            OracleValidity::NonPositive => "NonPositive",
            OracleValidity::TooVolatile => "TooVolatile",
            OracleValidity::TooUncertain => "TooUncertain",
            OracleValidity::InsufficientDataPoints => "InsufficientDataPoints",
            OracleValidity::StaleForAMM => "StaleForAMM",
            OracleValidity::Valid => "Valid",
        }
    }
}

/// The actions whose oracle requirements differ.
#[derive(Clone, Copy, PartialEq, Eq, Debug, Structural)]
pub enum NormalAction {
    /// Settling profit and loss. The protocol's action list names it without a rule of its own;
    /// here it takes the oracles that an oracle order price takes (valid, stale for the AMM, or
    /// short of data points).
    SettlePnl,
    TriggerOrder,
    FillOrderMatch,
    FillOrderAmm,
    UpdateTwap,
    UpdateAMMCurve,
    OracleOrderPrice,
    /// The margin calculation, which asks for this action though the protocol's action list
    /// lacks it; it takes the oracles that a matched fill takes (not non-positive, too volatile
    /// or too uncertain).
    MarginCalc,
}

pub open spec fn spec_is_oracle_valid_for_action(v: OracleValidity, action: Option<NormalAction>) -> bool {
    match action {
        None => v == OracleValidity::Valid,
        Some(action) => match action {
            NormalAction::FillOrderAmm => v == OracleValidity::Valid,
            NormalAction::OracleOrderPrice | NormalAction::SettlePnl => v == OracleValidity::Valid
                || v == OracleValidity::StaleForAMM || v == OracleValidity::InsufficientDataPoints,
            NormalAction::TriggerOrder => !(v == OracleValidity::NonPositive || v == OracleValidity::TooVolatile),
            NormalAction::FillOrderMatch | NormalAction::MarginCalc => !(v == OracleValidity::NonPositive
                || v == OracleValidity::TooVolatile || v == OracleValidity::TooUncertain),
            NormalAction::UpdateTwap | NormalAction::UpdateAMMCurve => v != OracleValidity::NonPositive,
        },
    }
}

/// Whether an oracle of the given validity may be used for an action; with no action, only a
/// valid oracle may.
pub fn is_oracle_valid_for_action(oracle_validity: OracleValidity, action: Option<NormalAction>) -> (r: NormalResult<bool>)
    ensures
        r == Ok::<bool, ErrorCode>(spec_is_oracle_valid_for_action(oracle_validity, action)),
{
    let is_ok = match action {
        Some(action) => match action {
            NormalAction::FillOrderAmm => matches!(oracle_validity, OracleValidity::Valid),
            NormalAction::OracleOrderPrice | NormalAction::SettlePnl => matches!(
                oracle_validity,
                OracleValidity::Valid | OracleValidity::StaleForAMM | OracleValidity::InsufficientDataPoints
            ),
            NormalAction::TriggerOrder => !matches!(
                oracle_validity,
                OracleValidity::NonPositive | OracleValidity::TooVolatile
            ),
            NormalAction::FillOrderMatch | NormalAction::MarginCalc => !matches!(
                oracle_validity,
                OracleValidity::NonPositive | OracleValidity::TooVolatile | OracleValidity::TooUncertain
            ),
            NormalAction::UpdateTwap | NormalAction::UpdateAMMCurve => !matches!(
                oracle_validity,
                OracleValidity::NonPositive
            ),
        },
        None => matches!(oracle_validity, OracleValidity::Valid),
    };
    Ok(is_ok)
}

/// A valid oracle may be used for every action.
pub proof fn lemma_valid_oracle_serves_every_action(action: Option<NormalAction>)
    ensures
        spec_is_oracle_valid_for_action(OracleValidity::Valid, action),
{
}

/// An oracle that may fill against the AMM may be used for every other action too.
pub proof fn lemma_amm_fill_is_strictest(v: OracleValidity, action: Option<NormalAction>)
    requires
        spec_is_oracle_valid_for_action(v, Some(NormalAction::FillOrderAmm)),
    ensures
        spec_is_oracle_valid_for_action(v, action),
{
}

/// A non-positive oracle may be used for no action.
pub proof fn lemma_non_positive_oracle_serves_no_action(action: Option<NormalAction>)
    ensures
        !spec_is_oracle_valid_for_action(OracleValidity::NonPositive, action),
{
}

pub open spec fn spec_oracle_validity(
    last_oracle_twap: i64,
    oracle_price_data: OraclePriceData,
    guard_rails: ValidityGuardRails,
    max_confidence_interval_multiplier: u64,
) -> NormalResult<OracleValidity> {
    let price = oracle_price_data.price as int;
    let conf = max_int(1, oracle_price_data.confidence as int);
    let max_conf = guard_rails.confidence_interval_max_size as int * max_confidence_interval_multiplier as int;
    if conf * BID_ASK_SPREAD_PRECISION > u64::MAX || price <= 0 || max_conf > u64::MAX {
        Err(ErrorCode::MathError)
    } else {
        let twap = last_oracle_twap as int;
        let too_volatile = tdiv(max_int(price, twap), max_int(min_int(twap, price), 1)) > guard_rails.too_volatile_ratio;
        let conf_pct_of_price = conf * BID_ASK_SPREAD_PRECISION / price;
        Ok(if too_volatile {
            OracleValidity::TooVolatile
        } else if conf_pct_of_price > max_conf {
            OracleValidity::TooUncertain
        } else if !oracle_price_data.has_sufficient_number_of_data_points {
            OracleValidity::InsufficientDataPoints
        } else if oracle_price_data.delay > guard_rails.slots_before_stale_for_amm {
            OracleValidity::StaleForAMM
        } else {
            OracleValidity::Valid
        })
    }
}

/// For positive `h` and `l`, the whole number of times `l` goes into `h` exceeds `r` exactly when
/// `h` is at least `r + 1` times `l`.
proof fn lemma_quotient_exceeds(h: int, l: int, r: int)
    requires
        h > 0,
        l > 0,
    ensures
        (h / l > r) <==> (h >= (r + 1) * l),
{
    vstd::arithmetic::div_mod::lemma_fundamental_div_mod(h, l);
    vstd::arithmetic::div_mod::lemma_mod_pos_bound(h, l);
    let q = h / l;
    let m = h % l;
    if q > r {
        assert(h >= (r + 1) * l) by (nonlinear_arith) requires h == l * q + m, m >= 0, q >= r + 1, l > 0;
    } else {
        assert(h < (r + 1) * l) by (nonlinear_arith) requires h == l * q + m, m < l, q <= r, l > 0;
    }
}

/// Volatility is measured both ways: with a positive twap, a reading is too volatile exactly when
/// its price is at least `too_volatile_ratio + 1` times the twap or the twap at least that many
/// times the price, so a crash below the twap counts as much as a jump above it. A too volatile
/// reading is classified so before any other problem.
pub proof fn lemma_volatility_counts_both_ways(
    last_oracle_twap: i64,
    oracle_price_data: OraclePriceData,
    guard_rails: ValidityGuardRails,
    max_confidence_interval_multiplier: u64,
)
    requires
        last_oracle_twap > 0,
        spec_oracle_validity(last_oracle_twap, oracle_price_data, guard_rails, max_confidence_interval_multiplier) is Ok,
    ensures
        ({
            let price = oracle_price_data.price as int;
            let twap = last_oracle_twap as int;
            let ratio = guard_rails.too_volatile_ratio as int;
            (spec_oracle_validity(last_oracle_twap, oracle_price_data, guard_rails, max_confidence_interval_multiplier)
                == Ok::<OracleValidity, ErrorCode>(OracleValidity::TooVolatile))
                <==> (price >= (ratio + 1) * twap || twap >= (ratio + 1) * price)
        }),
{
    let price = oracle_price_data.price as int;
    let twap = last_oracle_twap as int;
    let ratio = guard_rails.too_volatile_ratio as int;
    let h = max_int(price, twap);
    let l = min_int(twap, price);
    lemma_quotient_exceeds(h, l, ratio);
    assert(tdiv(h, max_int(l, 1)) == h / l);
    if price >= twap {
        assert(twap >= (ratio + 1) * price ==> price >= (ratio + 1) * twap) by (nonlinear_arith)
            requires price >= twap, twap > 0;
    } else {
        assert(price >= (ratio + 1) * twap ==> twap >= (ratio + 1) * price) by (nonlinear_arith)
            requires price < twap, price > 0;
    }
}

/// Classifies an oracle reading by the most severe problem it has: a price at least
/// `too_volatile_ratio` times its twap (or the reverse), a confidence interval wider than
/// `confidence_interval_max_size * max_confidence_interval_multiplier` of the price, too few
/// publishers, or more delay than `slots_before_stale_for_amm`. A non-positive price cannot be
/// measured against and is refused.
pub fn oracle_validity(
    market_index: u16,
    last_oracle_twap: i64,
    oracle_price_data: &OraclePriceData,
    valid_oracle_guard_rails: &ValidityGuardRails,
    max_confidence_interval_multiplier: u64,
    log_validity: bool,
) -> (r: NormalResult<OracleValidity>)
    ensures
        r == spec_oracle_validity(last_oracle_twap, *oracle_price_data, *valid_oracle_guard_rails,
            max_confidence_interval_multiplier),
        last_oracle_twap > 0 ==> (r matches Ok(v) ==> ((v == OracleValidity::TooVolatile) <==> (
            oracle_price_data.price >= (valid_oracle_guard_rails.too_volatile_ratio + 1) * last_oracle_twap
            || last_oracle_twap >= (valid_oracle_guard_rails.too_volatile_ratio + 1) * oracle_price_data.price))),
{
    proof {
        if last_oracle_twap > 0 && spec_oracle_validity(last_oracle_twap, *oracle_price_data, *valid_oracle_guard_rails,
            max_confidence_interval_multiplier) is Ok {
            lemma_volatility_counts_both_ways(last_oracle_twap, *oracle_price_data, *valid_oracle_guard_rails,
                max_confidence_interval_multiplier);
        }
    }
    let oracle_price = oracle_price_data.price;
    let oracle_conf = oracle_price_data.confidence;
    let oracle_delay = oracle_price_data.delay;
    let has_sufficient_number_of_data_points = oracle_price_data.has_sufficient_number_of_data_points;

    let is_oracle_price_nonpositive = oracle_price <= 0;

    let high = if oracle_price >= last_oracle_twap { oracle_price } else { last_oracle_twap };
    let low = if last_oracle_twap <= oracle_price { last_oracle_twap } else { oracle_price };
    let low = if low >= 1 { low } else { 1 };
    let is_oracle_price_too_volatile = high / low > valid_oracle_guard_rails.too_volatile_ratio;

    let conf = if oracle_conf >= 1 { oracle_conf } else { 1 };
    let scaled_conf = match conf.checked_mul(BID_ASK_SPREAD_PRECISION) {
        Some(v) => v,
        None => return Err(ErrorCode::MathError),
    };
    if oracle_price <= 0 {
        return Err(ErrorCode::MathError);
    }
    let conf_pct_of_price = scaled_conf / (oracle_price as u64);

    let max_conf = match valid_oracle_guard_rails.confidence_interval_max_size.checked_mul(
        max_confidence_interval_multiplier,
    ) {
        Some(v) => v,
        None => return Err(ErrorCode::MathError),
    };
    let is_conf_too_large = conf_pct_of_price > max_conf;

    let is_stale_for_amm = oracle_delay > valid_oracle_guard_rails.slots_before_stale_for_amm;

    let oracle_validity = if is_oracle_price_nonpositive {
        OracleValidity::NonPositive
    } else if is_oracle_price_too_volatile {
        OracleValidity::TooVolatile
    } else if is_conf_too_large {
        OracleValidity::TooUncertain
    } else if !has_sufficient_number_of_data_points {
        OracleValidity::InsufficientDataPoints
    } else if is_stale_for_amm {
        OracleValidity::StaleForAMM
    } else {
        OracleValidity::Valid
    };
    Ok(oracle_validity)
}

// ---------------------------------------------------------------------------
// Oracle status of a market
// ---------------------------------------------------------------------------

pub open spec fn spec_oracle_twap_5min_price_spread_pct(amm: AMM, price: u64) -> NormalResult<i64> {
    let spread = price - amm.historical_oracle_data.last_oracle_price_twap_5min;
    if price > i64::MAX || !is_i64(spread) || !is_i64(spread * PERCENTAGE_PRECISION_I64) || price == 0
        || !is_i64(tdiv(spread * PERCENTAGE_PRECISION_I64, price as int)) {
        Err(ErrorCode::MathError)
    } else {
        Ok(tdiv(spread * PERCENTAGE_PRECISION_I64, price as int) as i64)
    }
}

/// How far `price` is above the AMM's 5 minute oracle twap, as a share of `price`
/// (PERCENTAGE_PRECISION, rounded toward zero).
pub fn calculate_oracle_twap_5min_price_spread_pct(amm: &AMM, price: u64) -> (r: NormalResult<i64>)
    ensures
        r == spec_oracle_twap_5min_price_spread_pct(*amm, price),
{
    if price > i64::MAX as u64 {
        return Err(ErrorCode::MathError);
    }
    let price_i64 = price as i64;
    let spread = match price_i64.checked_sub(amm.historical_oracle_data.last_oracle_price_twap_5min) {
        Some(v) => v,
        None => return Err(ErrorCode::MathError),
    };
    let scaled = match spread.checked_mul(PERCENTAGE_PRECISION_I64) {
        Some(v) => v,
        None => return Err(ErrorCode::MathError),
    };
    match truncating_div_i64(scaled, price_i64) {
        Some(v) => Ok(v),
        None => Err(ErrorCode::MathError),
    }
}

pub open spec fn spec_max_mark_oracle_divergence(guard_rails: PriceDivergenceGuardRails) -> int {
    max_int(guard_rails.mark_oracle_percent_divergence as int, (PERCENTAGE_PRECISION_U64 / 10) as int)
}

/// The mark is too far from the oracle when the spread exceeds the configured divergence,
/// which is never taken below 10%.
pub fn is_oracle_mark_too_divergent(price_spread_pct: i64, guard_rails: &PriceDivergenceGuardRails) -> (r: NormalResult<bool>)
    ensures
        r == Ok::<bool, ErrorCode>(abs_int(price_spread_pct as int) > spec_max_mark_oracle_divergence(*guard_rails)),
{
    let max_divergence = if guard_rails.mark_oracle_percent_divergence >= PERCENTAGE_PRECISION_U64 / 10 {
        guard_rails.mark_oracle_percent_divergence
    } else {
        PERCENTAGE_PRECISION_U64 / 10
    };
    Ok(unsigned_abs(price_spread_pct) > max_divergence)
}

/// What is known of a market's oracle at a moment.
#[derive(Clone, Copy, Debug)]
pub struct OracleStatus {
    pub price_data: OraclePriceData,
    pub oracle_reserve_price_spread_pct: i64,
    pub mark_too_divergent: bool,
    pub oracle_validity: OracleValidity,
}

pub open spec fn spec_max_confidence_interval_multiplier(amm: AMM) -> u64 {
    match amm.synthetic_tier {
        crate::state::market::Tier::A | crate::state::market::Tier::B => 1,
        crate::state::market::Tier::C => 2,
        crate::state::market::Tier::Speculative => 10,
        _ => 50,
    }
}

/// The validity of the oracle reading and how far the reserve price is from the oracle twap.
pub fn get_oracle_status(
    market: &Market,
    oracle_price_data: &OraclePriceData,
    guard_rails: &OracleGuardRails,
    reserve_price: u64,
) -> (r: NormalResult<OracleStatus>)
    ensures
        match spec_oracle_validity(market.amm.historical_oracle_data.last_oracle_price_twap, *oracle_price_data,
            guard_rails.validity, spec_max_confidence_interval_multiplier(market.amm)) {
            Err(e) => r == Err::<OracleStatus, ErrorCode>(e),
            Ok(validity) => match spec_oracle_twap_5min_price_spread_pct(market.amm, reserve_price) {
                Err(e) => r == Err::<OracleStatus, ErrorCode>(e),
                Ok(spread) => r matches Ok(status) && {
                    &&& status.price_data == *oracle_price_data
                    &&& status.oracle_reserve_price_spread_pct == spread
                    &&& status.mark_too_divergent == (abs_int(spread as int) > spec_max_mark_oracle_divergence(guard_rails.price_divergence))
                    &&& status.oracle_validity == validity
                },
            },
        },
{
    let multiplier = market.amm.get_max_confidence_interval_multiplier()?;
    let validity = oracle_validity(
        market.market_index,
        market.amm.historical_oracle_data.last_oracle_price_twap,
        oracle_price_data,
        &guard_rails.validity,
        multiplier,
        false,
    )?;
    let oracle_reserve_price_spread_pct = calculate_oracle_twap_5min_price_spread_pct(&market.amm, reserve_price)?;
    let is_oracle_mark_too_divergent = is_oracle_mark_too_divergent(oracle_reserve_price_spread_pct, &guard_rails.price_divergence)?;
    Ok(OracleStatus {
        price_data: *oracle_price_data,
        oracle_reserve_price_spread_pct,
        mark_too_divergent: is_oracle_mark_too_divergent,
        oracle_validity: validity,
    })
}

/// An operation is blocked while the mark is too far from the oracle.
pub fn block_operation(
    market: &Market,
    oracle_price_data: &OraclePriceData,
    guard_rails: &OracleGuardRails,
    reserve_price: u64,
    slot: u64,
) -> (r: NormalResult<bool>)
    ensures
        match spec_oracle_validity(market.amm.historical_oracle_data.last_oracle_price_twap, *oracle_price_data,
            guard_rails.validity, spec_max_confidence_interval_multiplier(market.amm)) {
            Err(e) => r == Err::<bool, ErrorCode>(e),
            Ok(_) => match spec_oracle_twap_5min_price_spread_pct(market.amm, reserve_price) {
                Err(e) => r == Err::<bool, ErrorCode>(e),
                Ok(spread) => r == Ok::<bool, ErrorCode>(abs_int(spread as int) > spec_max_mark_oracle_divergence(guard_rails.price_divergence)),
            },
        },
{
    let status = get_oracle_status(market, oracle_price_data, guard_rails, reserve_price)?;
    Ok(status.mark_too_divergent)
}

} // verus!
