use vstd::prelude::*;

use crate::constants::{LIQUIDATION_FEE_PRECISION, MARGIN_PRECISION, MARGIN_PRECISION_U128, MAX_LIQUIDATION_MULTIPLIER, MAX_PROTOCOL_FEE_RATE};
use crate::error::{ErrorCode, NormalResult};
use crate::math::arith::min_int;
use crate::math::margin::{calculate_size_premium_liability_weight, lemma_size_premium_monotone, spec_size_premium_liability_weight, MarginRequirementType};
use crate::state::amm::AMM;
use crate::pubkey::empty_key;
use crate::state::paused_operations::MarketOperation;

verus! {

/// Lifecycle of a market.
#[derive(Clone, Copy, PartialEq, Eq, Debug, Structural)]
pub enum MarketStatus {
    /// warm up period for initialization, swapping is paused
    Initialized,
    /// all operations allowed
    Active,
    /// swaps only able to reduce liability
    ReduceOnly,
    /// market has determined settlement price and positions are expired must be settled
    Settlement,
    /// market has no remaining participants
    Delisted,
}

impl Default for MarketStatus {
    fn default() -> (r: Self)
        ensures
            r == MarketStatus::Initialized,
    {
        MarketStatus::Initialized
    }
}

/// Insurance tier of a market, safest first.
#[derive(Clone, Copy, PartialEq, Eq, Debug, Structural)]
pub enum Tier {
    /// max insurance capped at A level
    A,
    /// max insurance capped at B level
    B,
    /// max insurance capped at C level
    C,
    /// no insurance
    Speculative,
    /// no insurance, another tranches below
    HighlySpeculative,
    /// no insurance, only single position allowed
    Isolated,
}

impl Default for Tier {
    fn default() -> (r: Self)
        ensures
            r == Tier::HighlySpeculative,
    {
        Tier::HighlySpeculative
    }
}

/// Tier of an asset used as collateral, safest first.
#[derive(Clone, Copy, PartialEq, Eq, Debug, Structural)]
pub enum AssetTier {
    Collateral,
    Protected,
    Cross,
    Isolated,
    Unlisted,
}

impl Tier {
    /// Position of the tier in the order of safety (0 is safest).
    pub open spec fn rank(self) -> int {
        match self {
            Tier::A => 0,
            Tier::B => 1,
            Tier::C => 2,
            Tier::Speculative => 3,
            Tier::HighlySpeculative => 4,
            Tier::Isolated => 5,
        }
    }

    pub fn rank_of(&self) -> (r: u8)
        ensures
            r == self.rank(),
    {
        match self {
            Tier::A => 0,
            Tier::B => 1,
            Tier::C => 2,
            Tier::Speculative => 3,
            Tier::HighlySpeculative => 4,
            Tier::Isolated => 5,
        }
    }

    pub open spec fn spec_is_as_safe_as_contract(self, other: Tier) -> bool {
        self.rank() <= other.rank()
    }

    pub open spec fn spec_is_as_safe_as_asset(self, other: AssetTier) -> bool {
        other == AssetTier::Unlisted || (other.rank() >= AssetTier::Cross.rank() && self.rank() <= Tier::C.rank())
    }

    /// Whether this tier is at least as safe as `other` (tier A is safest).
    pub fn is_as_safe_as_contract(&self, other: &Tier) -> (r: bool)
        ensures
            r == self.spec_is_as_safe_as_contract(*other),
    {
        self.rank_of() <= other.rank_of()
    }

    /// Tiers A, B and C rank above assets below collateral status; anything ranks above an
    /// unlisted asset.
    pub fn is_as_safe_as_asset(&self, other: &AssetTier) -> (r: bool)
        ensures
            r == self.spec_is_as_safe_as_asset(*other),
    {
        if *other == AssetTier::Unlisted {
            true
        } else {
            other.rank_of() >= AssetTier::Cross.rank_of() && self.rank_of() <= Tier::C.rank_of()
        }
    }

    pub fn is_as_safe_as(&self, best_contract: &Tier, best_asset: &AssetTier) -> (r: bool)
        ensures
            r == (self.spec_is_as_safe_as_contract(*best_contract) && self.spec_is_as_safe_as_asset(*best_asset)),
    {
        self.is_as_safe_as_contract(best_contract) && self.is_as_safe_as_asset(best_asset)
    }
}

impl AssetTier {
    pub open spec fn rank(self) -> int {
        match self {
            AssetTier::Collateral => 0,
            AssetTier::Protected => 1,
            AssetTier::Cross => 2,
            AssetTier::Isolated => 3,
            AssetTier::Unlisted => 4,
        }
    }

    pub fn rank_of(&self) -> (r: u8)
        ensures
            r == self.rank(),
    {
        match self {
            AssetTier::Collateral => 0,
            AssetTier::Protected => 1,
            AssetTier::Cross => 2,
            AssetTier::Isolated => 3,
            AssetTier::Unlisted => 4,
        }
    }
}

/// Comparing tiers for safety is a total preorder: reflexive and transitive.
pub proof fn lemma_tier_safety_order(a: Tier, b: Tier, c: Tier)
    ensures
        a.spec_is_as_safe_as_contract(a),
        a.spec_is_as_safe_as_contract(b) && b.spec_is_as_safe_as_contract(c) ==> a.spec_is_as_safe_as_contract(c),
        a.spec_is_as_safe_as_contract(b) || b.spec_is_as_safe_as_contract(a),
        a.spec_is_as_safe_as_contract(b) && b.spec_is_as_safe_as_contract(a) ==> a == b,
{
}

/// A market: a synthetic asset, its collateral and the AMM that trades it.
#[derive(Clone, Copy, Debug)]
pub struct Market {
    /// The market's address. It is a pda of the market index
    pub pubkey: [u8; 32],
    pub market_index: u16,
    /// Encoded display name for the market e.g. BTC-SOL
    pub name: [u8; 32],
    /// The market's token mint's decimals. To from decimals to a precision, 10^decimals
    pub decimals: u32,
    pub status: MarketStatus,
    pub paused_operations: u8,
    pub amm: AMM,
    /// Determines how much insurance the market can receive and how auctions are sized
    pub contract_tier: Tier,
    /// The ts when the market will be expired. Only set if market is in reduce only mode
    pub expiry_ts: i64,
    /// The price at which positions will be settled. precision = PRICE_PRECISION
    pub expiry_price: i64,
    /// The initial margin fraction factor. Used to increase margin ratio for large positions
    /// precision: MARGIN_PRECISION
    pub imf_factor: u32,
    pub liquidation_penalty: u32,
    /// precision: LIQUIDATION_FEE_PRECISION
    pub liquidator_fee: u32,
    /// precision: LIQUIDATION_FEE_PRECISION
    pub if_liquidation_fee: u32,
    /// precision: MARGIN_PRECISION
    pub margin_ratio_initial: u32,
    /// precision: MARGIN_PRECISION
    pub margin_ratio_maintenance: u32,
    pub debt_ceiling: u128,
    pub debt_floor: u32,
    /// Auction end prices stay at least `oracle_twap / auction_end_min_divisor` and at most
    /// `oracle_twap / auction_end_max_divisor` beyond the baseline
    pub auction_end_min_divisor: u64,
    pub auction_end_max_divisor: u64,
}

impl Market {
    /// Market order auctions are tightened unless the market is isolated.
    pub fn can_sanitize_market_order_auctions(&self) -> (r: bool)
        ensures
            r == (self.contract_tier != Tier::Isolated),
    {
        self.contract_tier != Tier::Isolated
    }

    pub fn get_auction_end_min_max_divisors(&self) -> (r: (u64, u64))
        ensures
            r == (self.auction_end_min_divisor, self.auction_end_max_divisor),
    {
        (self.auction_end_min_divisor, self.auction_end_max_divisor)
    }
}

pub open spec fn spec_market_margin_ratio(market: Market, size: u128, margin_type: MarginRequirementType) -> NormalResult<u32> {
    if market.status == MarketStatus::Settlement {
        Ok(0)
    } else {
        let default_margin_ratio = match margin_type {
            MarginRequirementType::Initial => market.margin_ratio_initial,
            MarginRequirementType::Maintenance => market.margin_ratio_maintenance,
        };
        match spec_size_premium_liability_weight(size, market.imf_factor, default_margin_ratio, MARGIN_PRECISION_U128) {
            Err(e) => Err(e),
            Ok(w) => Ok(if default_margin_ratio >= w { default_margin_ratio } else { w }),
        }
    }
}

/// For a market and a kind of margin, a larger position never needs a smaller margin ratio.
pub proof fn lemma_margin_ratio_monotone_in_size(market: Market, small: u128, large: u128, margin_type: MarginRequirementType)
    requires
        small <= large,
        spec_market_margin_ratio(market, small, margin_type) is Ok,
        spec_market_margin_ratio(market, large, margin_type) is Ok,
    ensures
        spec_market_margin_ratio(market, small, margin_type)->Ok_0 <= spec_market_margin_ratio(market, large, margin_type)->Ok_0,
{
    let default_margin_ratio = match margin_type {
        MarginRequirementType::Initial => market.margin_ratio_initial,
        MarginRequirementType::Maintenance => market.margin_ratio_maintenance,
    };
    if market.status != MarketStatus::Settlement {
        lemma_size_premium_monotone(small, large, market.imf_factor, default_margin_ratio, MARGIN_PRECISION_U128);
    }
}

impl Market {
    pub fn is_operation_paused(&self, operation: MarketOperation) -> (r: bool)
        ensures
            r == (self.paused_operations & operation.spec_bit() != 0),
    {
        MarketOperation::is_operation_paused(self.paused_operations, operation)
    }

    /// The margin ratio of a position of `size`: the initial or maintenance ratio, raised by
    /// the size premium; zero once the market settles.
    pub fn get_margin_ratio(&self, size: u128, margin_type: MarginRequirementType) -> (r: NormalResult<u32>)
        requires
            self.imf_factor != 0 ==> size * 10 + 1 <= u128::MAX,
        ensures
            r == spec_market_margin_ratio(*self, size, margin_type),
            self.status != MarketStatus::Settlement ==> (r matches Ok(m) ==> m >= (match margin_type {
                MarginRequirementType::Initial => self.margin_ratio_initial,
                MarginRequirementType::Maintenance => self.margin_ratio_maintenance,
            })),
    {
        if self.status == MarketStatus::Settlement {
            return Ok(0);
        }
        let default_margin_ratio = match margin_type {
            MarginRequirementType::Initial => self.margin_ratio_initial,
            MarginRequirementType::Maintenance => self.margin_ratio_maintenance,
        };
        let size_adj_margin_ratio = calculate_size_premium_liability_weight(
            size,
            self.imf_factor,
            default_margin_ratio,
            MARGIN_PRECISION_U128,
        )?;
        Ok(if default_margin_ratio >= size_adj_margin_ratio { default_margin_ratio } else { size_adj_margin_ratio })
    }

    pub open spec fn spec_max_liquidation_fee(self) -> NormalResult<u32> {
        if self.liquidator_fee * MAX_LIQUIDATION_MULTIPLIER > u32::MAX
            || self.margin_ratio_maintenance * LIQUIDATION_FEE_PRECISION > u32::MAX {
            Err(ErrorCode::MathError)
        } else {
            Ok(min_int(
                self.liquidator_fee * MAX_LIQUIDATION_MULTIPLIER,
                self.margin_ratio_maintenance * LIQUIDATION_FEE_PRECISION / (MARGIN_PRECISION as int),
            ) as u32)
        }
    }

    /// The liquidation fee may reach five times the liquidator fee, but never the maintenance
    /// margin (in LIQUIDATION_FEE_PRECISION).
    pub fn get_max_liquidation_fee(&self) -> (r: NormalResult<u32>)
        ensures
            r == self.spec_max_liquidation_fee(),
    {
        let by_liquidator_fee = match self.liquidator_fee.checked_mul(MAX_LIQUIDATION_MULTIPLIER) {
            Some(v) => v,
            None => return Err(ErrorCode::MathError),
        };
        let scaled_margin = match self.margin_ratio_maintenance.checked_mul(LIQUIDATION_FEE_PRECISION) {
            Some(v) => v,
            None => return Err(ErrorCode::MathError),
        };
        let by_margin = scaled_margin / MARGIN_PRECISION;
        Ok(if by_liquidator_fee <= by_margin { by_liquidator_fee } else { by_margin })
    }

    /// Sets the liquidation penalty, refused above the maximum protocol fee rate.
    pub fn update_liquidation_penalty(&mut self, liquidation_penalty: u64) -> (r: NormalResult<()>)
        ensures
            liquidation_penalty > MAX_PROTOCOL_FEE_RATE ==> r == Err::<(), ErrorCode>(ErrorCode::ProtocolFeeRateMaxExceeded)
                && *final(self) == *old(self),
            liquidation_penalty <= MAX_PROTOCOL_FEE_RATE ==> r is Ok
                && *final(self) == (Market { liquidation_penalty: liquidation_penalty as u32, ..*old(self) }),
    {
        if liquidation_penalty > MAX_PROTOCOL_FEE_RATE as u64 {
            return Err(ErrorCode::ProtocolFeeRateMaxExceeded);
        }
        self.liquidation_penalty = liquidation_penalty as u32;
        Ok(())
    }
}

impl Market {
    /// A market being initialized, with no configuration and a default AMM.
    pub open spec fn spec_is_default(self) -> bool {
        &&& self.pubkey@ == empty_key()
        &&& self.market_index == 0
        &&& self.name@ == empty_key()
        &&& self.decimals == 0
        &&& self.status == MarketStatus::Initialized
        &&& self.paused_operations == 0
        &&& self.amm.spec_is_default()
        &&& self.contract_tier == Tier::HighlySpeculative
        &&& self.expiry_ts == 0
        &&& self.expiry_price == 0
        &&& self.imf_factor == 0
        &&& self.liquidation_penalty == 0
        &&& self.liquidator_fee == 0
        &&& self.if_liquidation_fee == 0
        &&& self.margin_ratio_initial == 0
        &&& self.margin_ratio_maintenance == 0
        &&& self.debt_ceiling == 0
        &&& self.debt_floor == 0
        &&& self.auction_end_min_divisor == 0
        &&& self.auction_end_max_divisor == 0
    }
}

impl Default for Market {
    fn default() -> (r: Self)
        ensures
            r.spec_is_default(),
    {
        let r = Market {
            pubkey: [0u8; 32],
            market_index: 0,
            name: [0u8; 32],
            decimals: 0,
            status: MarketStatus::Initialized,
            paused_operations: 0,
            amm: AMM::default(),
            contract_tier: Tier::HighlySpeculative,
            expiry_ts: 0,
            expiry_price: 0,
            imf_factor: 0,
            liquidation_penalty: 0,
            liquidator_fee: 0,
            if_liquidation_fee: 0,
            margin_ratio_initial: 0,
            margin_ratio_maintenance: 0,
            debt_ceiling: 0,
            debt_floor: 0,
            auction_end_min_divisor: 0,
            auction_end_max_divisor: 0,
        };
        proof {
            assert(r.pubkey@ =~= empty_key());
            assert(r.name@ =~= empty_key());
        }
        r
    }
}

} // verus!
