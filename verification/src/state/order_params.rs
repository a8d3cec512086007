use vstd::prelude::*;

use crate::constants::{ONE_HUNDRED_THOUSAND_QUOTE, PERCENTAGE_PRECISION_I64, PERCENTAGE_PRECISION_U64, PRICE_PRECISION_I64};
use crate::error::{ErrorCode, NormalResult};
use crate::math::arith::{abs_int, cdiv, is_i64, max_int, min_int, tdiv, unsigned_abs_i64};
use crate::state::market::{Market, Tier};
use crate::state::state::MarketType;
use crate::state::user::{OrderTriggerCondition, OrderType};

verus! {

/// Which way an order trades.
#[derive(Clone, Copy, PartialEq, Eq, Debug, Structural)]
pub enum OrderSide {
    Buy,
    Sell,
}

impl Default for OrderSide {
    fn default() -> (r: Self)
        ensures
            r == OrderSide::Buy,
    {
        OrderSide::Buy
    }
}

impl OrderSide {
    pub open spec fn spec_opposite(self) -> OrderSide {
        match self {
            OrderSide::Buy => OrderSide::Sell,
            OrderSide::Sell => OrderSide::Buy,
        }
    }

    pub fn opposite(&self) -> (r: Self)
        ensures
            r == self.spec_opposite(),
    {
        match self {
            OrderSide::Buy => OrderSide::Sell,
            OrderSide::Sell => OrderSide::Buy,
        }
    }
}

/// Taking the opposite side twice gives the side back, and never gives the same side.
pub proof fn lemma_opposite_side_involution(side: OrderSide)
    ensures
        side.spec_opposite().spec_opposite() == side,
        side.spec_opposite() != side,
{
}

/// How an order insists on resting on the book.
#[derive(Clone, Copy, PartialEq, Eq, Debug, Structural)]
pub enum PostOnlyParam {
    /// The order may take liquidity
    Disabled,
    /// Tx fails if order can't be post only
    MustPostOnly,
    /// Tx succeeds and order not placed if can't be post only
    TryPostOnly,
    /// Modify price to be post only if can't be post only
    Slide,
}

impl Default for PostOnlyParam {
    fn default() -> (r: Self)
        ensures
            r == PostOnlyParam::Disabled,
    {
        PostOnlyParam::Disabled
    }
}

#[derive(Clone, Copy, PartialEq, Eq, Debug, Structural)]
pub enum ModifyOrderPolicy {
    TryModify,
    MustModify,
}

impl Default for ModifyOrderPolicy {
    fn default() -> (r: Self)
        ensures
            r == ModifyOrderPolicy::TryModify,
    {
        ModifyOrderPolicy::TryModify
    }
}

#[derive(Clone, Copy, PartialEq, Eq, Debug, Structural)]
pub enum PlaceAndTakeOrderSuccessCondition {
    PartialFill,
    FullFill,
}


/// The parameters a user places an order with.
#[derive(Clone, Copy, PartialEq, Eq, Debug, Structural)]
pub struct OrderParams {
    pub order_type: OrderType,
    pub market_type: MarketType,
    pub side: OrderSide,
    pub user_order_id: u8,
    pub base_asset_amount: u64,
    pub price: u64,
    pub market_index: u16,
    pub reduce_only: bool,
    pub post_only: PostOnlyParam,
    pub immediate_or_cancel: bool,
    pub max_ts: Option<i64>,
    pub trigger_price: Option<u64>,
    pub trigger_condition: OrderTriggerCondition,
    /// specified in slots
    pub auction_duration: Option<u8>,
    /// specified in price
    pub auction_start_price: Option<i64>,
    /// specified in price
    pub auction_end_price: Option<i64>,
}

pub open spec fn default_order_params() -> OrderParams {
    OrderParams {
        order_type: OrderType::Market,
        market_type: MarketType::Synth,
        side: OrderSide::Buy,
        user_order_id: 0,
        base_asset_amount: 0,
        price: 0,
        market_index: 0,
        reduce_only: false,
        post_only: PostOnlyParam::Disabled,
        immediate_or_cancel: false,
        max_ts: None,
        trigger_price: None,
        trigger_condition: OrderTriggerCondition::Above,
        auction_duration: None,
        auction_start_price: None,
        auction_end_price: None,
    }
}

impl Default for OrderParams {
    fn default() -> (r: Self)
        ensures
            r == default_order_params(),
    {
        OrderParams {
            order_type: OrderType::Market,
            market_type: MarketType::Synth,
            side: OrderSide::Buy,
            user_order_id: 0,
            base_asset_amount: 0,
            price: 0,
            market_index: 0,
            reduce_only: false,
            post_only: PostOnlyParam::Disabled,
            immediate_or_cancel: false,
            max_ts: None,
            trigger_price: None,
            trigger_condition: OrderTriggerCondition::Above,
            auction_duration: None,
            auction_start_price: None,
            auction_end_price: None,
        }
    }
}

pub open spec fn clamp_int(x: int, lo: int, hi: int) -> int {
    if x < lo { lo } else if x > hi { hi } else { x }
}

/// Auction length in slots: a slot per 1/100 bp of price move for tiers A and B (0.6 for the
/// others), between 10 and 180 slots.
pub open spec fn spec_auction_duration(price_diff: u64, price: u64, tier: Tier) -> NormalResult<u8> {
    let scaled = price_diff as int * PERCENTAGE_PRECISION_U64;
    if scaled > u64::MAX {
        Err(ErrorCode::MathError)
    } else {
        let percent_diff = scaled / price as int;
        let slots_per_bp: int = if tier.rank() <= Tier::B.rank() { 100 } else { 60 };
        let x = percent_diff * slots_per_bp;
        if x > u64::MAX {
            Err(ErrorCode::MathError)
        } else {
            Ok(clamp_int(cdiv(x, 10_000), 10, 180) as u8)
        }
    }
}

pub fn get_auction_duration(price_diff: u64, price: u64, synthetic_tier: Tier) -> (r: NormalResult<u8>)
    requires
        price != 0 || price_diff * PERCENTAGE_PRECISION_U64 > u64::MAX,
    ensures
        r == spec_auction_duration(price_diff, price, synthetic_tier),
        r matches Ok(d) ==> 10 <= d <= 180,
{
    let scaled = match price_diff.checked_mul(PERCENTAGE_PRECISION_U64) {
        Some(v) => v,
        None => return Err(ErrorCode::MathError),
    };
    let percent_diff = scaled / price;
    let slots_per_bp: u64 = if synthetic_tier.is_as_safe_as_contract(&Tier::B) { 100 } else { 60 };
    let x = match percent_diff.checked_mul(slots_per_bp) {
        Some(v) => v,
        None => return Err(ErrorCode::MathError),
    };
    let d = PERCENTAGE_PRECISION_U64 / 100;
    let q = x / d;
    let c = if x % d == 0 { q } else { q + 1 };
    let clamped = if c < 10 { 10 } else if c > 180 { 180 } else { c };
    Ok(clamped as u8)
}

pub open spec fn spec_baseline_start_price_offset(market: Market, side: OrderSide) -> Option<NormalResult<i64>> {
    let amm = market.amm;
    let h = amm.historical_oracle_data;
    let dts = h.last_oracle_price_twap_ts - amm.last_mark_price_twap_ts;
    if !is_i64(dts) {
        Some(Err(ErrorCode::MathError))
    } else if dts == i64::MIN {
        None
    } else if abs_int(dts) >= 60 || amm.volume_24h <= ONE_HUNDRED_THOUSAND_QUOTE {
        let divisor: int = if market.contract_tier.rank() <= Tier::B.rank() { 500 } else { 100 };
        match side {
            OrderSide::Buy => if amm.last_bid_price_twap > i64::MAX {
                Some(Err(ErrorCode::MathError))
            } else {
                Some(Ok((amm.last_bid_price_twap as int / divisor) as i64))
            },
            OrderSide::Sell => if amm.last_ask_price_twap > i64::MAX {
                Some(Err(ErrorCode::MathError))
            } else {
                Some(Ok((-(amm.last_ask_price_twap as int / divisor)) as i64))
            },
        }
    } else {
        let mark_twap_slow = match side {
            OrderSide::Buy => amm.last_bid_price_twap,
            OrderSide::Sell => amm.last_ask_price_twap,
        };
        let slow = mark_twap_slow - h.last_oracle_price_twap;
        let fast = amm.last_mark_price_twap_5min - h.last_oracle_price_twap_5min;
        let buy_raw = amm.buy_spread as int * mark_twap_slow as int;
        let sell_raw = amm.sell_spread as int * mark_twap_slow as int;
        if mark_twap_slow > i64::MAX || !is_i64(slow) || amm.last_mark_price_twap_5min > i64::MAX
            || !is_i64(fast) || !is_i64(buy_raw) || !is_i64(sell_raw) {
            Some(Err(ErrorCode::MathError))
        } else {
            let buy_frac = buy_raw / (PRICE_PRECISION_I64 * 10);
            let sell_frac = sell_raw / (PRICE_PRECISION_I64 * 10);
            match side {
                OrderSide::Buy => if !is_i64(slow + buy_frac) || !is_i64(fast - sell_frac) {
                    Some(Err(ErrorCode::MathError))
                } else {
                    Some(Ok(min_int(slow + buy_frac, fast - sell_frac) as i64))
                },
                OrderSide::Sell => if !is_i64(slow - sell_frac) || !is_i64(fast + buy_frac) {
                    Some(Err(ErrorCode::MathError))
                } else {
                    Some(Ok(max_int(slow - sell_frac, fast + buy_frac) as i64))
                },
            }
        }
    }
}

pub open spec fn spec_baseline_start_end_price_offset(
    market: Market,
    side: OrderSide,
    end_buffer_scalar: u64,
) -> Option<NormalResult<(i64, i64)>> {
    let amm = market.amm;
    let twap_i = amm.historical_oracle_data.last_oracle_price_twap as int;
    let oracle_twap = abs_int(twap_i);
    match spec_baseline_start_price_offset(market, side) {
        None => None,
        Some(Err(e)) => Some(Err(e)),
        Some(Ok(start)) => {
            let spread: int = if side == OrderSide::Sell { amm.sell_spread as int } else { amm.buy_spread as int };
            let raw = spread * oracle_twap;
            if raw > u64::MAX {
                Some(Err(ErrorCode::MathError))
            } else {
                let buffer0 = max_int(max_int(amm.mark_std as int, amm.oracle_std as int), raw / PERCENTAGE_PRECISION_U64 as int);
                let buffer1 = if end_buffer_scalar >= 1 { buffer0 * end_buffer_scalar } else { buffer0 };
                if buffer1 > u64::MAX {
                    Some(Err(ErrorCode::MathError))
                } else if market.auction_end_min_divisor == 0 || market.auction_end_max_divisor == 0
                    || oracle_twap / market.auction_end_min_divisor as int > oracle_twap / market.auction_end_max_divisor as int {
                    None
                } else {
                    let buffer = clamp_int(buffer1, oracle_twap / market.auction_end_min_divisor as int,
                        oracle_twap / market.auction_end_max_divisor as int);
                    if side == OrderSide::Sell {
                        let v = amm.last_bid_price_twap - buffer;
                        if v < 0 || v > i64::MAX || !is_i64(v - twap_i) {
                            Some(Err(ErrorCode::MathError))
                        } else {
                            Some(Ok((start, min_int(v - twap_i, start as int) as i64)))
                        }
                    } else {
                        let v = amm.last_ask_price_twap + buffer;
                        if v > u64::MAX || v > i64::MAX || !is_i64(v - twap_i) {
                            Some(Err(ErrorCode::MathError))
                        } else {
                            Some(Ok((start, max_int(v - twap_i, start as int) as i64)))
                        }
                    }
                }
            }
        },
    }
}

pub open spec fn spec_derive_market_order_auction_params(
    market: Market,
    side: OrderSide,
    oracle_price: i64,
    limit_price: u64,
    start_buffer: i64,
) -> Option<NormalResult<(i64, i64, u8)>> {
    let scalar: u64 = if limit_price != 0 { 2 } else { 1 };
    match spec_baseline_start_end_price_offset(market, side, scalar) {
        None => None,
        Some(Err(e)) => Some(Err(e)),
        Some(Ok((so, eo))) => {
            let s0 = oracle_price + so;
            let e0 = oracle_price + eo;
            if !is_i64(s0) || !is_i64(e0) {
                Some(Err(ErrorCode::MathError))
            } else {
                let l = limit_price as i64 as int;
                let s1 = if limit_price == 0 { s0 } else if side == OrderSide::Buy { min_int(s0, l) } else { max_int(s0, l) };
                let e1 = if limit_price == 0 { e0 } else if side == OrderSide::Buy { min_int(e0, l) } else { max_int(e0, l) };
                let p = oracle_price as int * start_buffer as int;
                if start_buffer != 0 && !is_i64(p) {
                    Some(Err(ErrorCode::MathError))
                } else {
                    let sbp = tdiv(p, PERCENTAGE_PRECISION_I64 as int);
                    let s2 = if start_buffer == 0 { s1 } else if side == OrderSide::Buy { s1 - sbp } else { s1 + sbp };
                    if !is_i64(s2) || !is_i64(e1 - s2) {
                        Some(Err(ErrorCode::MathError))
                    } else if oracle_price == 0 && abs_int(e1 - s2) * PERCENTAGE_PRECISION_U64 <= u64::MAX {
                        None
                    } else {
                        match spec_auction_duration(abs_int(e1 - s2) as u64, abs_int(oracle_price as int) as u64, market.contract_tier) {
                            Err(e) => Some(Err(e)),
                            Ok(d) => Some(Ok((s2 as i64, e1 as i64, d))),
                        }
                    }
                }
            }
        },
    }
}

/// Sets the auction length of params whose auction prices are set, never shortening it.
pub open spec fn spec_finish_auction_duration(p: OrderParams, oracle_price: i64, tier: Tier) -> Option<(OrderParams, NormalResult<()>)> {
    let diff = p.auction_end_price->Some_0 - p.auction_start_price->Some_0;
    if !is_i64(diff) {
        Some((p, Err(ErrorCode::MathError)))
    } else if oracle_price == 0 && abs_int(diff) * PERCENTAGE_PRECISION_U64 <= u64::MAX {
        None
    } else {
        match spec_auction_duration(abs_int(diff) as u64, abs_int(oracle_price as int) as u64, tier) {
            Err(e) => Some((p, Err(e))),
            Ok(d) => {
                let before: int = match p.auction_duration { Some(b) => b as int, None => 0 };
                Some((OrderParams { auction_duration: Some(max_int(before, d as int) as u8), ..p }, Ok(())))
            },
        }
    }
}

pub open spec fn spec_update_auction_params_limit_orders(
    p: OrderParams,
    market: Market,
    oracle_price: i64,
) -> Option<(OrderParams, NormalResult<()>)> {
    if p.post_only != PostOnlyParam::Disabled || p.price == 0 {
        Some((p, Ok(())))
    } else {
        match spec_baseline_start_price_offset(market, p.side) {
            None => None,
            Some(Err(e)) => Some((p, Err(e))),
            Some(Ok(off)) => {
                let ns = oracle_price + off;
                if !is_i64(ns) {
                    Some((p, Err(ErrorCode::MathError)))
                } else if (match p.auction_duration { Some(d) => d, None => 0u8 }) == 0 {
                    match p.side {
                        OrderSide::Buy => match market.amm.spec_last_ask_premium() {
                            Err(e) => Some((p, Err(e))),
                            Ok(prem) => {
                                let est_ask = oracle_price + prem;
                                if !is_i64(est_ask) || est_ask < 0 {
                                    Some((p, Err(ErrorCode::MathError)))
                                } else if p.price <= est_ask {
                                    Some((p, Ok(())))
                                } else {
                                    spec_finish_auction_duration(OrderParams {
                                        auction_start_price: Some(min_int(ns, est_ask) as i64),
                                        auction_end_price: Some(p.price as i64),
                                        ..p
                                    }, oracle_price, market.contract_tier)
                                }
                            },
                        },
                        OrderSide::Sell => match market.amm.spec_last_bid_discount() {
                            Err(e) => Some((p, Err(e))),
                            Ok(disc) => {
                                let est_bid = oracle_price - disc;
                                if !is_i64(est_bid) || est_bid < 0 {
                                    Some((p, Err(ErrorCode::MathError)))
                                } else if p.price >= est_bid {
                                    Some((p, Ok(())))
                                } else {
                                    spec_finish_auction_duration(OrderParams {
                                        auction_start_price: Some(max_int(ns, est_bid) as i64),
                                        auction_end_price: Some(p.price as i64),
                                        ..p
                                    }, oracle_price, market.contract_tier)
                                }
                            },
                        },
                    }
                } else {
                    let start: i64 = match p.auction_start_price {
                        Some(s) => if (p.side == OrderSide::Buy && ns < s) || (p.side == OrderSide::Sell && ns > s) {
                            ns as i64
                        } else {
                            s
                        },
                        None => ns as i64,
                    };
                    let end: i64 = match p.auction_end_price {
                        Some(e) => e,
                        None => p.price as i64,
                    };
                    spec_finish_auction_duration(OrderParams {
                        auction_start_price: Some(start),
                        auction_end_price: Some(end),
                        ..p
                    }, oracle_price, market.contract_tier)
                }
            },
        }
    }
}

/// A price offset from the oracle, kept as an offset for orders that are not market orders.
pub open spec fn spec_offset_price(p: OrderParams, offset: i64, oracle_price: i64) -> NormalResult<i64> {
    if p.order_type != OrderType::Market {
        Ok(offset)
    } else if is_i64(offset + oracle_price) {
        Ok((offset + oracle_price) as i64)
    } else {
        Err(ErrorCode::MathError)
    }
}

/// Tightens the auction prices of a market order towards the baseline.
pub open spec fn spec_sanitize_market_order(
    p: OrderParams,
    market: Market,
    oracle_price: i64,
) -> Option<(OrderParams, NormalResult<()>)> {
    match spec_baseline_start_end_price_offset(market, p.side, 2) {
        None => None,
        Some(Err(e)) => Some((p, Err(e))),
        Some(Ok((ns, ne))) => {
            let cs = p.auction_start_price->Some_0 - oracle_price;
            let ce = p.auction_end_price->Some_0 - oracle_price;
            if !is_i64(cs) || !is_i64(ce) {
                Some((p, Err(ErrorCode::MathError)))
            } else {
                let move_start = if p.side == OrderSide::Buy { cs > ns } else { cs < ns };
                let move_end = if p.side == OrderSide::Buy { ce > ne } else { ce < ne };
                match (if move_start { spec_offset_price(p, ns, oracle_price) } else { Ok(p.auction_start_price->Some_0) }) {
                    Err(e) => Some((p, Err(e))),
                    Ok(s) => {
                        let q = OrderParams { auction_start_price: Some(s), ..p };
                        match (if move_end { spec_offset_price(p, ne, oracle_price) } else { Ok(p.auction_end_price->Some_0) }) {
                            Err(e) => Some((q, Err(e))),
                            Ok(en) => Some((OrderParams { auction_end_price: Some(en), ..q }, Ok(()))),
                        }
                    },
                }
            }
        },
    }
}

pub open spec fn spec_update_auction_params_market_orders(
    p: OrderParams,
    market: Market,
    oracle_price: i64,
) -> Option<(OrderParams, NormalResult<()>)> {
    if p.auction_duration is None || p.auction_start_price is None || p.auction_end_price is None {
        match spec_derive_market_order_auction_params(market, p.side, oracle_price, p.price, 2500i64) {
            None => None,
            Some(Err(e)) => Some((p, Err(e))),
            Some(Ok((s, e, d))) => Some((OrderParams {
                auction_start_price: Some(s),
                auction_end_price: Some(e),
                auction_duration: Some(d),
                ..p
            }, Ok(()))),
        }
    } else if market.contract_tier != Tier::Isolated {
        match spec_sanitize_market_order(p, market, oracle_price) {
            None => None,
            Some((q, Err(e))) => Some((q, Err(e))),
            Some((q, Ok(()))) => spec_finish_auction_duration(q, oracle_price, market.contract_tier),
        }
    } else {
        spec_finish_auction_duration(p, oracle_price, market.contract_tier)
    }
}

pub open spec fn spec_update_auction_params(
    p: OrderParams,
    market: Market,
    oracle_price: i64,
) -> Option<(OrderParams, NormalResult<()>)> {
    match p.order_type {
        OrderType::Limit => spec_update_auction_params_limit_orders(p, market, oracle_price),
        OrderType::Market => spec_update_auction_params_market_orders(p, market, oracle_price),
        _ => Some((p, Ok(()))),
    }
}

pub open spec fn spec_close_params(market: Market, side_to_close: OrderSide, base_asset_amount: u64) -> Option<NormalResult<OrderParams>> {
    match spec_baseline_start_end_price_offset(market, side_to_close, 1) {
        None => None,
        Some(Err(e)) => Some(Err(e)),
        Some(Ok((s, e))) => Some(Ok(OrderParams {
            market_type: MarketType::Synth,
            side: side_to_close,
            order_type: OrderType::Market,
            market_index: market.market_index,
            base_asset_amount,
            reduce_only: true,
            auction_start_price: Some(s),
            auction_end_price: Some(e),
            auction_duration: Some(80),
            ..default_order_params()
        })),
    }
}


impl OrderParams {
    /// Price offset of the auction start from the oracle; 0 without an auction start price.
    pub fn get_auction_start_price_offset(self, oracle_price: i64) -> (r: NormalResult<i64>)
        ensures
            r == (match self.auction_start_price {
                None => Ok(0),
                Some(s) => if is_i64(s - oracle_price) { Ok((s - oracle_price) as i64) } else { Err(ErrorCode::MathError) },
            }),
    {
        match self.auction_start_price {
            Some(s) => match s.checked_sub(oracle_price) {
                Some(v) => Ok(v),
                None => Err(ErrorCode::MathError),
            },
            None => Ok(0),
        }
    }

    /// Price offset of the auction end from the oracle; 0 without an auction end price.
    pub fn get_auction_end_price_offset(self, oracle_price: i64) -> (r: NormalResult<i64>)
        ensures
            r == (match self.auction_end_price {
                None => Ok(0),
                Some(e) => if is_i64(e - oracle_price) { Ok((e - oracle_price) as i64) } else { Err(ErrorCode::MathError) },
            }),
    {
        match self.auction_end_price {
            Some(e) => match e.checked_sub(oracle_price) {
                Some(v) => Ok(v),
                None => Err(ErrorCode::MathError),
            },
            None => Ok(0),
        }
    }

    /// Where the auction of a market order starts relative to the oracle twap: within a band
    /// of the mark twap when the twaps disagree or volume is thin, else from the slow and fast
    /// mark/oracle gaps corrected by the AMM spreads.
    pub fn get_baseline_start_price_offset(market: &Market, side: OrderSide) -> (r: NormalResult<i64>)
        requires
            spec_baseline_start_price_offset(*market, side) is Some,
        ensures
            Some(r) == spec_baseline_start_price_offset(*market, side),
    {
        let amm = &market.amm;
        let h = &amm.historical_oracle_data;
        let dts = match h.last_oracle_price_twap_ts.checked_sub(amm.last_mark_price_twap_ts) {
            Some(v) => v,
            None => return Err(ErrorCode::MathError),
        };
        let dts_abs: i64 = if dts < 0 { -dts } else { dts };
        if dts_abs >= 60 || amm.volume_24h <= ONE_HUNDRED_THOUSAND_QUOTE {
            let price_divisor: i64 = if market.contract_tier.is_as_safe_as_contract(&Tier::B) { 500 } else { 100 };
            return match side {
                OrderSide::Buy => {
                    if amm.last_bid_price_twap > i64::MAX as u64 {
                        return Err(ErrorCode::MathError);
                    }
                    Ok((amm.last_bid_price_twap as i64) / price_divisor)
                },
                OrderSide::Sell => {
                    if amm.last_ask_price_twap > i64::MAX as u64 {
                        return Err(ErrorCode::MathError);
                    }
                    Ok(-((amm.last_ask_price_twap as i64) / price_divisor))
                },
            };
        }
        let mark_twap_slow_u = match side {
            OrderSide::Buy => amm.last_bid_price_twap,
            OrderSide::Sell => amm.last_ask_price_twap,
        };
        if mark_twap_slow_u > i64::MAX as u64 {
            return Err(ErrorCode::MathError);
        }
        let mark_twap_slow = mark_twap_slow_u as i64;
        let slow = match mark_twap_slow.checked_sub(h.last_oracle_price_twap) {
            Some(v) => v,
            None => return Err(ErrorCode::MathError),
        };
        if amm.last_mark_price_twap_5min > i64::MAX as u64 {
            return Err(ErrorCode::MathError);
        }
        let fast = match (amm.last_mark_price_twap_5min as i64).checked_sub(h.last_oracle_price_twap_5min) {
            Some(v) => v,
            None => return Err(ErrorCode::MathError),
        };
        let buy_raw = match (amm.buy_spread as i64).checked_mul(mark_twap_slow) {
            Some(v) => v,
            None => return Err(ErrorCode::MathError),
        };
        let buy_frac = buy_raw / (PRICE_PRECISION_I64 * 10);
        let sell_raw = match (amm.sell_spread as i64).checked_mul(mark_twap_slow) {
            Some(v) => v,
            None => return Err(ErrorCode::MathError),
        };
        let sell_frac = sell_raw / (PRICE_PRECISION_I64 * 10);
        match side {
            OrderSide::Buy => {
                let a = match slow.checked_add(buy_frac) {
                    Some(v) => v,
                    None => return Err(ErrorCode::MathError),
                };
                let b = match fast.checked_sub(sell_frac) {
                    Some(v) => v,
                    None => return Err(ErrorCode::MathError),
                };
                Ok(if a <= b { a } else { b })
            },
            OrderSide::Sell => {
                let a = match slow.checked_sub(sell_frac) {
                    Some(v) => v,
                    None => return Err(ErrorCode::MathError),
                };
                let b = match fast.checked_add(buy_frac) {
                    Some(v) => v,
                    None => return Err(ErrorCode::MathError),
                };
                Ok(if a >= b { a } else { b })
            },
        }
    }

    /// Start and end price offsets of a market order auction: the end lies a buffer (the larger
    /// of the price deviations and the AMM spread, scaled and clamped to the market's band)
    /// beyond the mark twap, and never inside the start.
    pub fn get_baseline_start_end_price_offset(
        market: &Market,
        side: OrderSide,
        end_buffer_scalar: u64,
    ) -> (r: NormalResult<(i64, i64)>)
        requires
            spec_baseline_start_end_price_offset(*market, side, end_buffer_scalar) is Some,
        ensures
            Some(r) == spec_baseline_start_end_price_offset(*market, side, end_buffer_scalar),
    {
        let amm = &market.amm;
        let oracle_twap = unsigned_abs_i64(amm.historical_oracle_data.last_oracle_price_twap);
        let baseline_start_price_offset = OrderParams::get_baseline_start_price_offset(market, side)?;
        let (min_divisor, max_divisor) = market.get_auction_end_min_max_divisors();
        let amm_spread_side_pct = if side == OrderSide::Sell { amm.sell_spread } else { amm.buy_spread };
        let raw = match (amm_spread_side_pct as u64).checked_mul(oracle_twap) {
            Some(v) => v,
            None => return Err(ErrorCode::MathError),
        };
        let spread_buffer = raw / PERCENTAGE_PRECISION_U64;
        let std_buffer = if amm.mark_std >= amm.oracle_std { amm.mark_std } else { amm.oracle_std };
        let mut buffer = if std_buffer >= spread_buffer { std_buffer } else { spread_buffer };
        if end_buffer_scalar >= 1 {
            buffer = match buffer.checked_mul(end_buffer_scalar) {
                Some(v) => v,
                None => return Err(ErrorCode::MathError),
            };
        }
        let lo = oracle_twap / min_divisor;
        let hi = oracle_twap / max_divisor;
        buffer = if buffer < lo { lo } else if buffer > hi { hi } else { buffer };
        let twap_i = amm.historical_oracle_data.last_oracle_price_twap;
        if side == OrderSide::Sell {
            let v = match amm.last_bid_price_twap.checked_sub(buffer) {
                Some(v) => v,
                None => return Err(ErrorCode::MathError),
            };
            if v > i64::MAX as u64 {
                return Err(ErrorCode::MathError);
            }
            let end = match (v as i64).checked_sub(twap_i) {
                Some(v) => v,
                None => return Err(ErrorCode::MathError),
            };
            Ok((baseline_start_price_offset, if end <= baseline_start_price_offset { end } else { baseline_start_price_offset }))
        } else {
            let v = match amm.last_ask_price_twap.checked_add(buffer) {
                Some(v) => v,
                None => return Err(ErrorCode::MathError),
            };
            if v > i64::MAX as u64 {
                return Err(ErrorCode::MathError);
            }
            let end = match (v as i64).checked_sub(twap_i) {
                Some(v) => v,
                None => return Err(ErrorCode::MathError),
            };
            Ok((baseline_start_price_offset, if end >= baseline_start_price_offset { end } else { baseline_start_price_offset }))
        }
    }

    /// Auction prices and length for a market order: the baseline around the oracle, capped by
    /// the limit price (if any), the start moved `start_buffer` (PERCENTAGE_PRECISION of the
    /// oracle price) in the taker's favour.
    #[verifier::rlimit(40)]
    pub fn derive_market_order_auction_params(
        market: &Market,
        side: OrderSide,
        oracle_price: i64,
        limit_price: u64,
        start_buffer: i64,
    ) -> (r: NormalResult<(i64, i64, u8)>)
        requires
            spec_derive_market_order_auction_params(*market, side, oracle_price, limit_price, start_buffer) is Some,
        ensures
            Some(r) == spec_derive_market_order_auction_params(*market, side, oracle_price, limit_price, start_buffer),
    {
        let scalar: u64 = if limit_price != 0 { 2 } else { 1 };
        let (so, eo) = OrderParams::get_baseline_start_end_price_offset(market, side, scalar)?;
        let mut auction_start_price = match oracle_price.checked_add(so) {
            Some(v) => v,
            None => return Err(ErrorCode::MathError),
        };
        let mut auction_end_price = match oracle_price.checked_add(eo) {
            Some(v) => v,
            None => return Err(ErrorCode::MathError),
        };
        if limit_price != 0 {
            let limit_price = #[verifier::truncate] (limit_price as i64);
            if side == OrderSide::Buy {
                auction_start_price = if auction_start_price <= limit_price { auction_start_price } else { limit_price };
                auction_end_price = if auction_end_price <= limit_price { auction_end_price } else { limit_price };
            } else {
                auction_start_price = if auction_start_price >= limit_price { auction_start_price } else { limit_price };
                auction_end_price = if auction_end_price >= limit_price { auction_end_price } else { limit_price };
            }
        }
        if start_buffer != 0 {
            let p = match oracle_price.checked_mul(start_buffer) {
                Some(v) => v,
                None => return Err(ErrorCode::MathError),
            };
            let start_buffer_price = p / PERCENTAGE_PRECISION_I64;
            if side == OrderSide::Buy {
                auction_start_price = match auction_start_price.checked_sub(start_buffer_price) {
                    Some(v) => v,
                    None => return Err(ErrorCode::MathError),
                };
            } else {
                auction_start_price = match auction_start_price.checked_add(start_buffer_price) {
                    Some(v) => v,
                    None => return Err(ErrorCode::MathError),
                };
            }
        }
        let diff = match auction_end_price.checked_sub(auction_start_price) {
            Some(v) => v,
            None => return Err(ErrorCode::MathError),
        };
        let auction_duration = get_auction_duration(
            unsigned_abs_i64(diff),
            unsigned_abs_i64(oracle_price),
            market.contract_tier,
        )?;
        Ok((auction_start_price, auction_end_price, auction_duration))
    }

    fn finish_auction_duration(&mut self, oracle_price: i64, tier: Tier) -> (r: NormalResult<()>)
        requires
            old(self).auction_start_price is Some,
            old(self).auction_end_price is Some,
            spec_finish_auction_duration(*old(self), oracle_price, tier) is Some,
        ensures
            Some((*final(self), r)) == spec_finish_auction_duration(*old(self), oracle_price, tier),
    {
        let start = match self.auction_start_price {
            Some(v) => v,
            None => return Err(ErrorCode::FailedUnwrap),
        };
        let end = match self.auction_end_price {
            Some(v) => v,
            None => return Err(ErrorCode::FailedUnwrap),
        };
        let diff = match end.checked_sub(start) {
            Some(v) => v,
            None => return Err(ErrorCode::MathError),
        };
        let new_auction_duration = get_auction_duration(unsigned_abs_i64(diff), unsigned_abs_i64(oracle_price), tier)?;
        let before: u8 = match self.auction_duration {
            Some(b) => b,
            None => 0,
        };
        self.auction_duration = Some(if before >= new_auction_duration { before } else { new_auction_duration });
        Ok(())
    }

    /// Gives a limit order that would cross the AMM an auction from the baseline start to its
    /// limit price; an order with an auction only ever gets a better start.
    pub fn update_auction_params_limit_orders(&mut self, market: &Market, oracle_price: i64) -> (r: NormalResult<()>)
        requires
            spec_update_auction_params_limit_orders(*old(self), *market, oracle_price) is Some,
        ensures
            Some((*final(self), r)) == spec_update_auction_params_limit_orders(*old(self), *market, oracle_price),
    {
        if self.post_only != PostOnlyParam::Disabled {
            return Ok(());
        }
        if self.price == 0 {
            return Ok(());
        }
        let auction_start_price_offset = OrderParams::get_baseline_start_price_offset(market, self.side)?;
        let new_auction_start_price = match oracle_price.checked_add(auction_start_price_offset) {
            Some(v) => v,
            None => return Err(ErrorCode::MathError),
        };
        let duration: u8 = match self.auction_duration {
            Some(d) => d,
            None => 0,
        };
        if duration == 0 {
            match self.side {
                OrderSide::Buy => {
                    let ask_premium = market.amm.last_ask_premium()?;
                    let est_ask = match oracle_price.checked_add(ask_premium) {
                        Some(v) => v,
                        None => return Err(ErrorCode::MathError),
                    };
                    if est_ask < 0 {
                        return Err(ErrorCode::MathError);
                    }
                    if self.price <= est_ask as u64 {
                        return Ok(());
                    }
                    self.auction_start_price = Some(if new_auction_start_price <= est_ask { new_auction_start_price } else { est_ask });
                    self.auction_end_price = Some(#[verifier::truncate] (self.price as i64));
                },
                OrderSide::Sell => {
                    let bid_discount = market.amm.last_bid_discount()?;
                    let est_bid = match oracle_price.checked_sub(bid_discount) {
                        Some(v) => v,
                        None => return Err(ErrorCode::MathError),
                    };
                    if est_bid < 0 {
                        return Err(ErrorCode::MathError);
                    }
                    if self.price >= est_bid as u64 {
                        return Ok(());
                    }
                    self.auction_start_price = Some(if new_auction_start_price >= est_bid { new_auction_start_price } else { est_bid });
                    self.auction_end_price = Some(#[verifier::truncate] (self.price as i64));
                },
            }
        } else {
            match self.auction_start_price {
                Some(auction_start_price) => {
                    let improves_long = self.side == OrderSide::Buy && new_auction_start_price < auction_start_price;
                    let improves_short = self.side == OrderSide::Sell && new_auction_start_price > auction_start_price;
                    if improves_long || improves_short {
                        self.auction_start_price = Some(new_auction_start_price);
                    }
                },
                None => {
                    self.auction_start_price = Some(new_auction_start_price);
                },
            }
            if self.auction_end_price.is_none() {
                self.auction_end_price = Some(#[verifier::truncate] (self.price as i64));
            }
        }
        self.finish_auction_duration(oracle_price, market.contract_tier)
    }

    /// Fills in missing auction parameters of a market order from the market, or else tightens
    /// its auction prices toward the baseline (unless the market is isolated). When tightening,
    /// the params count as a market order when their order type is `Market`: a moved price is
    /// then the oracle price plus the new offset, and otherwise the offset itself.
    pub fn update_auction_params_market_orders(&mut self, market: &Market, oracle_price: i64) -> (r: NormalResult<()>)
        requires
            spec_update_auction_params_market_orders(*old(self), *market, oracle_price) is Some,
        ensures
            Some((*final(self), r)) == spec_update_auction_params_market_orders(*old(self), *market, oracle_price),
    {
        if self.auction_duration.is_none() || self.auction_start_price.is_none() || self.auction_end_price.is_none() {
            let (auction_start_price, auction_end_price, auction_duration) =
                OrderParams::derive_market_order_auction_params(
                    market,
                    self.side,
                    oracle_price,
                    self.price,
                    PERCENTAGE_PRECISION_I64 / 400,
                )?;
            self.auction_start_price = Some(auction_start_price);
            self.auction_end_price = Some(auction_end_price);
            self.auction_duration = Some(auction_duration);
            return Ok(());
        }
        if market.can_sanitize_market_order_auctions() {
            let (new_start_price_offset, new_end_price_offset) =
                OrderParams::get_baseline_start_end_price_offset(market, self.side, 2)?;
            let current_start_price_offset = self.get_auction_start_price_offset(oracle_price)?;
            let current_end_price_offset = self.get_auction_end_price_offset(oracle_price)?;
            let is_market_order = self.order_type == OrderType::Market;
            let move_start = match self.side {
                OrderSide::Buy => current_start_price_offset > new_start_price_offset,
                OrderSide::Sell => current_start_price_offset < new_start_price_offset,
            };
            let move_end = match self.side {
                OrderSide::Buy => current_end_price_offset > new_end_price_offset,
                OrderSide::Sell => current_end_price_offset < new_end_price_offset,
            };
            if move_start {
                self.auction_start_price = if !is_market_order {
                    Some(new_start_price_offset)
                } else {
                    match new_start_price_offset.checked_add(oracle_price) {
                        Some(v) => Some(v),
                        None => return Err(ErrorCode::MathError),
                    }
                };
            }
            if move_end {
                self.auction_end_price = if !is_market_order {
                    Some(new_end_price_offset)
                } else {
                    match new_end_price_offset.checked_add(oracle_price) {
                        Some(v) => Some(v),
                        None => return Err(ErrorCode::MathError),
                    }
                };
            }
        }
        self.finish_auction_duration(oracle_price, market.contract_tier)
    }

    /// Sets the auction of a limit or market order from the market; other orders keep theirs.
    pub fn update_auction_params(&mut self, market: &Market, oracle_price: i64) -> (r: NormalResult<()>)
        requires
            spec_update_auction_params(*old(self), *market, oracle_price) is Some,
        ensures
            Some((*final(self), r)) == spec_update_auction_params(*old(self), *market, oracle_price),
    {
        match self.order_type {
            OrderType::Limit => self.update_auction_params_limit_orders(market, oracle_price),
            OrderType::Market => self.update_auction_params_market_orders(market, oracle_price),
            _ => Ok(()),
        }
    }

    /// A reduce only market order that closes `base_asset_amount` on the given side, with an
    /// 80 slot auction over the baseline offsets.
    pub fn get_close_params(market: &Market, side_to_close: OrderSide, base_asset_amount: u64) -> (r: NormalResult<OrderParams>)
        requires
            spec_close_params(*market, side_to_close, base_asset_amount) is Some,
        ensures
            Some(r) == spec_close_params(*market, side_to_close, base_asset_amount),
    {
        let (auction_start_price, auction_end_price) =
            OrderParams::get_baseline_start_end_price_offset(market, side_to_close, 1)?;
        let params = OrderParams {
            market_type: MarketType::Synth,
            side: side_to_close,
            order_type: OrderType::Market,
            market_index: market.market_index,
            base_asset_amount,
            reduce_only: true,
            auction_start_price: Some(auction_start_price),
            auction_end_price: Some(auction_end_price),
            auction_duration: Some(80),
            ..OrderParams::default()
        };
        Ok(params)
    }
}

/// Why an order action happened, as it is recorded.
#[derive(Clone, Copy, PartialEq, Eq, Debug, Structural)]
pub enum OrderActionExplanation {
    NoExplanation,
    OrderExpired,
    ReduceOnlyOrderIncreasedPosition,
}

/// Options of placing an order.
#[derive(Clone, Copy, PartialEq, Eq, Debug, Structural)]
pub struct PlaceOrderOptions {
    pub swift_taker_order_slot: Option<u64>,
    pub try_expire_orders: bool,
    pub risk_increasing: bool,
    pub explanation: OrderActionExplanation,
}

impl Default for PlaceOrderOptions {
    fn default() -> (r: Self)
        ensures
            r == (PlaceOrderOptions {
                swift_taker_order_slot: None,
                try_expire_orders: true,
                risk_increasing: false,
                explanation: OrderActionExplanation::NoExplanation,
            }),
    {
        PlaceOrderOptions {
            swift_taker_order_slot: None,
            try_expire_orders: true,
            risk_increasing: false,
            explanation: OrderActionExplanation::NoExplanation,
        }
    }
}

impl PlaceOrderOptions {
    /// Once risk increasing, the options stay so.
    pub fn update_risk_increasing(&mut self, risk_increasing: bool)
        ensures
            *final(self) == (PlaceOrderOptions { risk_increasing: old(self).risk_increasing || risk_increasing, ..*old(self) }),
    {
        self.risk_increasing = self.risk_increasing || risk_increasing;
    }

    pub fn explanation(self, explanation: OrderActionExplanation) -> (r: Self)
        ensures
            r == (PlaceOrderOptions { explanation, ..self }),
    {
        let mut options = self;
        options.explanation = explanation;
        options
    }

    pub fn set_order_slot(&mut self, slot: u64)
        ensures
            *final(self) == (PlaceOrderOptions { swift_taker_order_slot: Some(slot), ..*old(self) }),
    {
        self.swift_taker_order_slot = Some(slot);
    }

    /// The order's slot, or the swift taker's slot when that is earlier.
    pub fn get_order_slot(&self, order_slot: u64) -> (r: u64)
        ensures
            r == (match self.swift_taker_order_slot {
                Some(s) => if s < order_slot { s } else { order_slot },
                None => order_slot,
            }),
    {
        let mut min_order_slot = order_slot;
        if let Some(swift_taker_order_slot) = self.swift_taker_order_slot {
            min_order_slot = if order_slot <= swift_taker_order_slot { order_slot } else { swift_taker_order_slot };
        }
        min_order_slot
    }
}

} // verus!
