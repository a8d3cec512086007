use vstd::prelude::*;

use crate::constants::{BID_ASK_SPREAD_PRECISION, NUM_REWARDS, PERCENTAGE_PRECISION_I64};
use crate::error::{ErrorCode, NormalResult};
use crate::math::arith::{abs_int, is_i64, is_u64, max_int, tdiv};
use crate::state::market::Tier;
use crate::state::oracle::{HistoricalOracleData, OracleSource};
use crate::pubkey::empty_key;

verus! {

/// Liquidity mining reward of an AMM.
#[derive(Clone, Copy, PartialEq, Eq, Debug)]
pub struct AMMRewardInfo {
    /// Reward token mint.
    pub mint: [u8; 32],
    /// Reward vault token account.
    pub vault: [u8; 32],
    /// Authority account that has permission to initialize the reward and set emissions.
    pub authority: [u8; 32],
    /// Q64.64 number that indicates how many tokens per second are earned per unit of liquidity.
    pub emissions_per_second_x64: u128,
    /// Q64.64 number that tracks the total tokens earned per unit of liquidity since the reward
    /// emissions were turned on.
    pub growth_global_x64: u128,
}

/// The automated market maker of a market and the oracle data it keeps.
#[derive(Clone, Copy, Debug)]
pub struct AMM {
    pub vault_balance_authority: [u8; 32],
    /// Mint for the synthetic token
    pub token_mint_synthetic: [u8; 32],
    /// Mint for the quote token
    pub token_mint_quote: [u8; 32],
    /// Vault storing synthetic tokens
    pub token_vault_synthetic: [u8; 32],
    /// Vault storing quote tokens
    pub token_vault_quote: [u8; 32],
    /// oracle price data public key
    pub oracle: [u8; 32],
    pub oracle_source: OracleSource,
    pub historical_oracle_data: HistoricalOracleData,
    /// precision: PERCENTAGE_PRECISION
    pub last_oracle_conf_pct: u64,
    pub last_oracle_valid: bool,
    pub last_oracle_normalised_price: i64,
    pub last_oracle_reserve_price_spread_pct: i64,
    /// precision: PRICE_PRECISION
    pub oracle_std: u64,
    pub max_price_deviance: u16,
    pub liquidity_to_volume_multiplier: u64,
    pub tick_spacing: u16,
    pub tick_current_index: i32,
    pub liquidity: u128,
    /// Q64.64
    pub sqrt_price: u128,
    pub fee_rate: u16,
    pub protocol_fee_rate: u16,
    pub insurance_fund_fee_rate: u16,
    pub fee_growth_global_synthetic: u128,
    pub fee_growth_global_quote: u128,
    pub protocol_fee_owed_synthetic: u64,
    pub protocol_fee_owed_quote: u64,
    pub reward_last_updated_timestamp: u64,
    pub reward_infos: [AMMRewardInfo; NUM_REWARDS],
    pub market_index: u16,
    pub synthetic_tier: Tier,
    pub last_update_slot: u64,
    /// precision: PRICE_PRECISION
    pub mark_std: u64,
    pub order_tick_size: u64,
    pub order_step_size: u64,
    pub last_mark_price_twap_ts: i64,
    pub last_mark_price_twap_5min: u64,
    pub volume_24h: u64,
    pub last_bid_price_twap: u64,
    pub last_ask_price_twap: u64,
    /// precision: PERCENTAGE_PRECISION
    pub buy_spread: u32,
    /// precision: PERCENTAGE_PRECISION
    pub sell_spread: u32,
    /// The price the AMM currently sells at
    pub ask_price: u64,
    /// The price the AMM currently buys at
    pub bid_price: u64,
}

impl AMM {
    pub open spec fn spec_last_ask_premium(self) -> NormalResult<i64> {
        let v = self.ask_price - self.historical_oracle_data.last_oracle_price;
        if self.ask_price > i64::MAX || !is_i64(v) { Err(ErrorCode::MathError) } else { Ok(v as i64) }
    }

    pub open spec fn spec_last_bid_discount(self) -> NormalResult<i64> {
        let v = self.historical_oracle_data.last_oracle_price - self.bid_price;
        if self.bid_price > i64::MAX || !is_i64(v) { Err(ErrorCode::MathError) } else { Ok(v as i64) }
    }

    /// How far the AMM's ask is above the last oracle price.
    pub fn last_ask_premium(&self) -> (r: NormalResult<i64>)
        ensures
            r == self.spec_last_ask_premium(),
    {
        if self.ask_price > i64::MAX as u64 {
            return Err(ErrorCode::MathError);
        }
        match (self.ask_price as i64).checked_sub(self.historical_oracle_data.last_oracle_price) {
            Some(v) => Ok(v),
            None => Err(ErrorCode::MathError),
        }
    }

    /// How far the AMM's bid is below the last oracle price.
    pub fn last_bid_discount(&self) -> (r: NormalResult<i64>)
        ensures
            r == self.spec_last_bid_discount(),
    {
        if self.bid_price > i64::MAX as u64 {
            return Err(ErrorCode::MathError);
        }
        match self.historical_oracle_data.last_oracle_price.checked_sub(self.bid_price as i64) {
            Some(v) => Ok(v),
            None => Err(ErrorCode::MathError),
        }
    }
}

impl AMM {
    /// The mint of the token a swap takes in: the synthetic token when selling it for quote.
    pub fn input_token_mint(&self, synthetic_to_quote: bool) -> (r: [u8; 32])
        ensures
            r == (if synthetic_to_quote { self.token_mint_synthetic } else { self.token_mint_quote }),
    {
        if synthetic_to_quote { self.token_mint_synthetic } else { self.token_mint_quote }
    }

    /// The vault a swap takes tokens into.
    pub fn input_token_vault(&self, synthetic_to_quote: bool) -> (r: [u8; 32])
        ensures
            r == (if synthetic_to_quote { self.token_vault_synthetic } else { self.token_vault_quote }),
    {
        if synthetic_to_quote { self.token_vault_synthetic } else { self.token_vault_quote }
    }

    /// The mint of the token a swap hands out.
    pub fn output_token_mint(&self, synthetic_to_quote: bool) -> (r: [u8; 32])
        ensures
            r == (if synthetic_to_quote { self.token_mint_quote } else { self.token_mint_synthetic }),
    {
        if synthetic_to_quote { self.token_mint_quote } else { self.token_mint_synthetic }
    }

    /// The vault a swap pays tokens out of.
    pub fn output_token_vault(&self, synthetic_to_quote: bool) -> (r: [u8; 32])
        ensures
            r == (if synthetic_to_quote { self.token_vault_quote } else { self.token_vault_synthetic }),
    {
        if synthetic_to_quote { self.token_vault_quote } else { self.token_vault_synthetic }
    }

    /// Replaces all reward values and the time they were updated.
    pub fn update_rewards(&mut self, reward_infos: [AMMRewardInfo; NUM_REWARDS], reward_last_updated_timestamp: u64)
        ensures
            *final(self) == (AMM { reward_infos, reward_last_updated_timestamp, ..*old(self) }),
    {
        self.reward_last_updated_timestamp = reward_last_updated_timestamp;
        self.reward_infos = reward_infos;
    }

    /// Replaces the rewards and the liquidity.
    pub fn update_rewards_and_liquidity(
        &mut self,
        reward_infos: [AMMRewardInfo; NUM_REWARDS],
        liquidity: u128,
        reward_last_updated_timestamp: u64,
    )
        ensures
            *final(self) == (AMM { reward_infos, reward_last_updated_timestamp, liquidity, ..*old(self) }),
    {
        self.update_rewards(reward_infos, reward_last_updated_timestamp);
        self.liquidity = liquidity;
    }

    /// Records the pool after a swap; the protocol fee accrues in the token the fee was taken in.
    pub fn update_after_swap(
        &mut self,
        liquidity: u128,
        tick_index: i32,
        sqrt_price: u128,
        fee_growth_global: u128,
        reward_infos: [AMMRewardInfo; NUM_REWARDS],
        protocol_fee: u64,
        is_token_fee_in_synthetic: bool,
        reward_last_updated_timestamp: u64,
    )
        requires
            is_token_fee_in_synthetic ==> old(self).protocol_fee_owed_synthetic + protocol_fee <= u64::MAX,
            !is_token_fee_in_synthetic ==> old(self).protocol_fee_owed_quote + protocol_fee <= u64::MAX,
        ensures
            is_token_fee_in_synthetic ==> *final(self) == (AMM {
                tick_current_index: tick_index,
                sqrt_price,
                liquidity,
                reward_infos,
                reward_last_updated_timestamp,
                fee_growth_global_synthetic: fee_growth_global,
                protocol_fee_owed_synthetic: (old(self).protocol_fee_owed_synthetic + protocol_fee) as u64,
                ..*old(self)
            }),
            !is_token_fee_in_synthetic ==> *final(self) == (AMM {
                tick_current_index: tick_index,
                sqrt_price,
                liquidity,
                reward_infos,
                reward_last_updated_timestamp,
                fee_growth_global_quote: fee_growth_global,
                protocol_fee_owed_quote: (old(self).protocol_fee_owed_quote + protocol_fee) as u64,
                ..*old(self)
            }),
    {
        self.tick_current_index = tick_index;
        self.sqrt_price = sqrt_price;
        self.liquidity = liquidity;
        self.reward_infos = reward_infos;
        self.reward_last_updated_timestamp = reward_last_updated_timestamp;
        if is_token_fee_in_synthetic {
            self.fee_growth_global_synthetic = fee_growth_global;
            self.protocol_fee_owed_synthetic = self.protocol_fee_owed_synthetic + protocol_fee;
        } else {
            self.fee_growth_global_quote = fee_growth_global;
            self.protocol_fee_owed_quote = self.protocol_fee_owed_quote + protocol_fee;
        }
    }

    /// Clears the protocol fees owed in both tokens.
    pub fn reset_protocol_fees_owed(&mut self)
        ensures
            *final(self) == (AMM { protocol_fee_owed_synthetic: 0, protocol_fee_owed_quote: 0, ..*old(self) }),
    {
        self.protocol_fee_owed_synthetic = 0;
        self.protocol_fee_owed_quote = 0;
    }

    /// The confidence as a share of the reserve price, decaying from the last value no faster
    /// than one part in `21 - seconds elapsed` (at least one in five) per update.
    pub open spec fn spec_new_oracle_conf_pct(self, confidence: u64, reserve_price: u64, now: i64) -> NormalResult<u64> {
        let elapsed = now - self.historical_oracle_data.last_oracle_price_twap_ts;
        if !is_i64(elapsed) || !is_u64(confidence * BID_ASK_SPREAD_PRECISION) || reserve_price == 0 {
            Err(ErrorCode::MathError)
        } else {
            let since_last = max_int(elapsed, 0);
            let lower_bound = if since_last > 0 {
                let divisor = max_int(max_int(21 - since_last, 0), 5);
                self.last_oracle_conf_pct - (self.last_oracle_conf_pct as int) / divisor
            } else {
                self.last_oracle_conf_pct as int
            };
            Ok(max_int(confidence * BID_ASK_SPREAD_PRECISION / (reserve_price as int), lower_bound) as u64)
        }
    }

    pub fn get_new_oracle_conf_pct(&self, confidence: u64, reserve_price: u64, now: i64) -> (r: NormalResult<u64>)
        ensures
            r == self.spec_new_oracle_conf_pct(confidence, reserve_price, now),
    {
        let upper_bound_divisor = 21_u64;
        let lower_bound_divisor = 5_u64;
        let elapsed = match now.checked_sub(self.historical_oracle_data.last_oracle_price_twap_ts) {
            Some(v) => v,
            None => return Err(ErrorCode::MathError),
        };
        let since_last: i64 = if elapsed > 0 { elapsed } else { 0 };
        let confidence_lower_bound: u64 = if since_last > 0 {
            let reduced = upper_bound_divisor.saturating_sub(since_last as u64);
            let confidence_divisor = if reduced > lower_bound_divisor { reduced } else { lower_bound_divisor };
            self.last_oracle_conf_pct - self.last_oracle_conf_pct / confidence_divisor
        } else {
            self.last_oracle_conf_pct
        };
        let scaled = match confidence.checked_mul(BID_ASK_SPREAD_PRECISION) {
            Some(v) => v,
            None => return Err(ErrorCode::MathError),
        };
        if reserve_price == 0 {
            return Err(ErrorCode::MathError);
        }
        let conf_pct = scaled / reserve_price;
        Ok(if conf_pct >= confidence_lower_bound { conf_pct } else { confidence_lower_bound })
    }

    /// The oracle was valid at the AMM's last update, and that update was in this slot.
    pub fn is_recent_oracle_valid(&self, current_slot: u64) -> (r: NormalResult<bool>)
        ensures
            r == Ok::<bool, ErrorCode>(self.last_oracle_valid && current_slot == self.last_update_slot),
    {
        Ok(self.last_oracle_valid && current_slot == self.last_update_slot)
    }

    /// How far the oracle may be from its 5 minute twap for pnl to settle, in
    /// PERCENTAGE_PRECISION: 50 bps for the safest tiers, 100 bps for C, 250 bps otherwise.
    pub open spec fn spec_divergence_limit(self) -> int {
        match self.synthetic_tier {
            Tier::A | Tier::B => 5_000,
            Tier::C => 10_000,
            _ => 25_000,
        }
    }

    /// The divisor of the lower price that bounds the standard deviations: 2%, 5% or 10%.
    pub open spec fn spec_std_divisor(self) -> int {
        match self.synthetic_tier {
            Tier::A | Tier::B => 50,
            Tier::C => 20,
            _ => 10,
        }
    }

    pub open spec fn spec_is_price_divergence_ok(self, oracle_price: i64) -> NormalResult<bool> {
        let twap = self.historical_oracle_data.last_oracle_price_twap_5min;
        let min_price: int = if twap <= oracle_price { twap as int } else { oracle_price as int };
        let diff = oracle_price - twap;
        if !is_i64(diff) || !is_i64(diff * PERCENTAGE_PRECISION_I64) || min_price == 0
            || !is_i64(tdiv(diff * PERCENTAGE_PRECISION_I64, min_price)) {
            Err(ErrorCode::MathError)
        } else if abs_int(tdiv(diff * PERCENTAGE_PRECISION_I64, min_price)) >= self.spec_divergence_limit() {
            Ok(false)
        } else {
            Ok(max_int(self.oracle_std as int, self.mark_std as int) < abs_int(tdiv(min_price, self.spec_std_divisor())))
        }
    }

    /// Whether the oracle is close enough to its 5 minute twap, and both standard deviations
    /// small enough, to settle pnl safely.
    pub fn is_price_divergence_ok(&self, oracle_price: i64) -> (r: NormalResult<bool>)
        ensures
            r == self.spec_is_price_divergence_ok(oracle_price),
    {
        let twap = self.historical_oracle_data.last_oracle_price_twap_5min;
        let diff = match oracle_price.checked_sub(twap) {
            Some(v) => v,
            None => return Err(ErrorCode::MathError),
        };
        let scaled = match diff.checked_mul(PERCENTAGE_PRECISION_I64) {
            Some(v) => v,
            None => return Err(ErrorCode::MathError),
        };
        let min_price: i64 = if twap <= oracle_price { twap } else { oracle_price };
        if min_price == 0 {
            return Err(ErrorCode::MathError);
        }
        let divergence = match truncating_div_i64(scaled, min_price) {
            Some(v) => v,
            None => return Err(ErrorCode::MathError),
        };
        let oracle_divergence: u64 = unsigned_abs(divergence);
        let oracle_divergence_limit: u64 = match self.synthetic_tier {
            Tier::A | Tier::B => 5_000,
            Tier::C => 10_000,
            _ => 25_000,
        };
        if oracle_divergence >= oracle_divergence_limit {
            return Ok(false);
        }
        let std_divisor: i64 = match self.synthetic_tier {
            Tier::A | Tier::B => 50,
            Tier::C => 20,
            _ => 10,
        };
        let std_limit: u64 = match truncating_div_i64(min_price, std_divisor) {
            Some(v) => unsigned_abs(v),
            None => return Err(ErrorCode::MathError),
        };
        let std = if self.oracle_std >= self.mark_std { self.oracle_std } else { self.mark_std };
        if std >= std_limit {
            return Ok(false);
        }
        Ok(true)
    }

    /// How many times the guard rails' confidence interval the tier allows.
    pub fn get_max_confidence_interval_multiplier(self) -> (r: NormalResult<u64>)
        ensures
            r == Ok::<u64, ErrorCode>(match self.synthetic_tier {
                Tier::A | Tier::B => 1u64,
                Tier::C => 2,
                Tier::Speculative => 10,
                Tier::HighlySpeculative | Tier::Isolated => 50,
            }),
    {
        Ok(match self.synthetic_tier {
            Tier::A => 1,
            Tier::B => 1,
            Tier::C => 2,
            Tier::Speculative => 10,
            Tier::HighlySpeculative => 50,
            Tier::Isolated => 50,
        })
    }

    /// The denominator of the band that clamps twap updates; `None` where the default applies.
    pub fn get_sanitize_clamp_denominator(self) -> (r: NormalResult<Option<i64>>)
        ensures
            r == Ok::<Option<i64>, ErrorCode>(match self.synthetic_tier {
                Tier::A => Some(10i64),
                Tier::B => Some(5i64),
                Tier::C => Some(2i64),
                _ => None,
            }),
    {
        Ok(match self.synthetic_tier {
            Tier::A => Some(10_i64),
            Tier::B => Some(5_i64),
            Tier::C => Some(2_i64),
            Tier::Speculative => None,
            Tier::HighlySpeculative => None,
            Tier::Isolated => None,
        })
    }
}

/// Division of machine integers rounding toward zero; `None` where it overflows or divides by zero.
pub fn truncating_div_i64(x: i64, d: i64) -> (r: Option<i64>)
    ensures
        d == 0 || !is_i64(tdiv(x as int, d as int)) ==> r is None,
        d != 0 && is_i64(tdiv(x as int, d as int)) ==> r == Some(tdiv(x as int, d as int) as i64),
{
    if d == 0 {
        return None;
    }
    let ax: u64 = unsigned_abs(x);
    let ad: u64 = unsigned_abs(d);
    let q: u64 = ax / ad;
    if (x >= 0) == (d > 0) || x == 0 {
        if q > i64::MAX as u64 {
            return None;
        }
        Some(q as i64)
    } else {
        if q > (i64::MAX as u64) + 1 {
            return None;
        }
        if q == (i64::MAX as u64) + 1 {
            return Some(i64::MIN);
        }
        Some(-(q as i64))
    }
}

/// The magnitude of a machine integer.
pub fn unsigned_abs(x: i64) -> (r: u64)
    ensures
        r == abs_int(x as int),
{
    if x == i64::MIN {
        (i64::MAX as u64) + 1
    } else if x < 0 {
        (-x) as u64
    } else {
        x as u64
    }
}

impl AMMRewardInfo {
    /// A reward with the authority set and everything else empty.
    pub fn new(authority: [u8; 32]) -> (r: Self)
        ensures
            r.mint@ == empty_key(),
            r.vault@ == empty_key(),
            r.authority == authority,
            r.emissions_per_second_x64 == 0,
            r.growth_global_x64 == 0,
    {
        AMMRewardInfo { mint: [0u8; 32], vault: [0u8; 32], authority, emissions_per_second_x64: 0, growth_global_x64: 0 }
    }

    /// A reward is initialized once its mint is set; it never goes back.
    pub fn initialized(&self) -> (r: bool)
        ensures
            r == (self.mint@ != empty_key()),
    {
        let mut i: usize = 0;
        while i < 32
            invariant
                i <= 32,
                forall|k: int| 0 <= k < i ==> self.mint@[k] == 0u8,
            decreases 32 - i,
        {
            if self.mint[i] != 0 {
                proof {
                    assert(self.mint@[i as int] != empty_key()[i as int]);
                }
                return true;
            }
            i = i + 1;
        }
        proof {
            assert(self.mint@ =~= empty_key());
        }
        false
    }

    /// The growth accumulators of the rewards, in order.
    pub fn to_reward_growths(reward_infos: &[AMMRewardInfo; NUM_REWARDS]) -> (r: [u128; NUM_REWARDS])
        ensures
            forall|i: int| 0 <= i < NUM_REWARDS ==> r@[i] == reward_infos@[i].growth_global_x64,
    {
        let mut reward_growths = [0u128; NUM_REWARDS];
        let mut i: usize = 0;
        while i < NUM_REWARDS
            invariant
                i <= NUM_REWARDS,
                reward_growths@.len() == NUM_REWARDS,
                forall|k: int| 0 <= k < i ==> reward_growths@[k] == reward_infos@[k].growth_global_x64,
            decreases NUM_REWARDS - i,
        {
            reward_growths[i] = reward_infos[i].growth_global_x64;
            i = i + 1;
        }
        reward_growths
    }
}

impl AMM {
    /// An AMM with no pool, no oracle reading, no fees and no rewards.
    pub open spec fn spec_is_default(self) -> bool {
        &&& self.vault_balance_authority@ == empty_key()
        &&& self.token_mint_synthetic@ == empty_key()
        &&& self.token_mint_quote@ == empty_key()
        &&& self.token_vault_synthetic@ == empty_key()
        &&& self.token_vault_quote@ == empty_key()
        &&& self.oracle@ == empty_key()
        &&& self.oracle_source == OracleSource::Pyth
        &&& self.historical_oracle_data == HistoricalOracleData::zero()
        &&& self.last_oracle_conf_pct == 0
        &&& !self.last_oracle_valid
        &&& self.last_oracle_normalised_price == 0
        &&& self.last_oracle_reserve_price_spread_pct == 0
        &&& self.oracle_std == 0
        &&& self.max_price_deviance == 0
        &&& self.liquidity_to_volume_multiplier == 0
        &&& self.tick_spacing == 0
        &&& self.tick_current_index == 0
        &&& self.liquidity == 0
        &&& self.sqrt_price == 0
        &&& self.fee_rate == 0
        &&& self.protocol_fee_rate == 0
        &&& self.insurance_fund_fee_rate == 0
        &&& self.fee_growth_global_synthetic == 0
        &&& self.fee_growth_global_quote == 0
        &&& self.protocol_fee_owed_synthetic == 0
        &&& self.protocol_fee_owed_quote == 0
        &&& self.reward_last_updated_timestamp == 0
        &&& forall|i: int| 0 <= i < NUM_REWARDS ==> {
            &&& (#[trigger] self.reward_infos@[i]).mint@ == empty_key()
            &&& self.reward_infos@[i].vault@ == empty_key()
            &&& self.reward_infos@[i].authority@ == empty_key()
            &&& self.reward_infos@[i].emissions_per_second_x64 == 0
            &&& self.reward_infos@[i].growth_global_x64 == 0
        }
        &&& self.market_index == 0
        &&& self.synthetic_tier == Tier::HighlySpeculative
        &&& self.last_update_slot == 0
        &&& self.mark_std == 0
        &&& self.order_tick_size == 0
        &&& self.order_step_size == 0
        &&& self.last_mark_price_twap_ts == 0
        &&& self.last_mark_price_twap_5min == 0
        &&& self.volume_24h == 0
        &&& self.last_bid_price_twap == 0
        &&& self.last_ask_price_twap == 0
        &&& self.buy_spread == 0
        &&& self.sell_spread == 0
        &&& self.ask_price == 0
        &&& self.bid_price == 0
    }
}

impl Default for AMM {
    fn default() -> (r: Self)
        ensures
            r.spec_is_default(),
    {
        let empty = AMMRewardInfo::new([0u8; 32]);
        let reward_infos = [empty, empty, empty];
        proof {
            assert forall|i: int| 0 <= i < NUM_REWARDS implies #[trigger] reward_infos@[i] == empty by {
                assert(reward_infos@[0] == empty && reward_infos@[1] == empty && reward_infos@[2] == empty);
            }
        }
        let r = AMM {
            vault_balance_authority: [0u8; 32],
            token_mint_synthetic: [0u8; 32],
            token_mint_quote: [0u8; 32],
            token_vault_synthetic: [0u8; 32],
            token_vault_quote: [0u8; 32],
            oracle: [0u8; 32],
            oracle_source: OracleSource::Pyth,
            historical_oracle_data: HistoricalOracleData::default(),
            last_oracle_conf_pct: 0,
            last_oracle_valid: false,
            last_oracle_normalised_price: 0,
            last_oracle_reserve_price_spread_pct: 0,
            oracle_std: 0,
            max_price_deviance: 0,
            liquidity_to_volume_multiplier: 0,
            tick_spacing: 0,
            tick_current_index: 0,
            liquidity: 0,
            sqrt_price: 0,
            fee_rate: 0,
            protocol_fee_rate: 0,
            insurance_fund_fee_rate: 0,
            fee_growth_global_synthetic: 0,
            fee_growth_global_quote: 0,
            protocol_fee_owed_synthetic: 0,
            protocol_fee_owed_quote: 0,
            reward_last_updated_timestamp: 0,
            reward_infos,
            market_index: 0,
            synthetic_tier: Tier::HighlySpeculative,
            last_update_slot: 0,
            mark_std: 0,
            order_tick_size: 0,
            order_step_size: 0,
            last_mark_price_twap_ts: 0,
            last_mark_price_twap_5min: 0,
            volume_24h: 0,
            last_bid_price_twap: 0,
            last_ask_price_twap: 0,
            buy_spread: 0,
            sell_spread: 0,
            ask_price: 0,
            bid_price: 0,
        };
        proof {
            assert(r.vault_balance_authority@ =~= empty_key());
            assert(r.token_mint_synthetic@ =~= empty_key());
            assert(r.token_mint_quote@ =~= empty_key());
            assert(r.token_vault_synthetic@ =~= empty_key());
            assert(r.token_vault_quote@ =~= empty_key());
            assert(r.oracle@ =~= empty_key());
        }
        r
    }
}

} // verus!
