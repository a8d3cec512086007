use vstd::prelude::*;

use crate::constants::{LIQUIDATION_FEE_PRECISION, MARGIN_PRECISION, MARGIN_PRECISION_U128, MAX_LIQUIDATION_MULTIPLIER};
use crate::error::{ErrorCode, NormalResult};
use crate::math::arith::min_int;
use crate::math::margin::{calculate_size_premium_liability_weight, spec_size_premium_liability_weight, MarginRequirementType};
use crate::state::insurance::InsuranceClaim;
use crate::state::market::{MarketStatus, Tier};
use crate::state::paused_operations::MarketOperation;

verus! {

/// The insurance tier of a synthetic; the same scale as a market's tier.
pub type SynthTier = Tier;

/// Lifecycle of a synthetic market; the same stages as a market's.
pub type SynthMarketStatus = MarketStatus;

/// A market that mints a synthetic asset against collateral.
#[derive(Clone, Copy, Debug)]
pub struct SynthMarket {
    /// The market's address. It is a pda of the market index
    pub pubkey: [u8; 32],
    pub market_index: u16,
    /// Encoded display name for the market e.g. BTC-SOL
    pub name: [u8; 32],
    pub tier: SynthTier,
    /// The market's token decimals
    pub decimals: u32,
    pub status: SynthMarketStatus,
    pub paused_operations: u8,
    /// precision: SPOT_UTILIZATION_PRECISION
    pub utilization_twap: u64,
    pub last_twap_ts: u64,
    pub expiry_ts: u64,
    /// precision = PRICE_PRECISION
    pub expiry_price: i64,
    pub next_deposit_record_id: u64,
    pub next_liquidation_id: u32,
    /// precision: SPOT_WEIGHT_PRECISION
    pub initial_asset_weight: u32,
    pub maintenance_asset_weight: u32,
    pub initial_liability_weight: u32,
    pub maintenance_liability_weight: u32,
    /// precision: MARGIN_PRECISION
    pub imf_factor: u32,
    pub liquidation_penalty: u32,
    /// precision: LIQUIDATOR_FEE_PRECISION
    pub liquidator_fee: u32,
    pub if_liquidation_fee: u32,
    /// precision: MARGIN_PRECISION
    pub margin_ratio_initial: u32,
    /// precision: MARGIN_PRECISION
    pub margin_ratio_maintenance: u32,
    pub debt_ceiling: u128,
    pub debt_floor: u32,
    pub insurance_claim: InsuranceClaim,
    /// Unbacked synthetic tokens (result of collateral auction deficits)
    pub protocol_debt: u64,
}

pub open spec fn spec_synth_margin_ratio(market: SynthMarket, size: u128, margin_type: MarginRequirementType) -> NormalResult<u32> {
    if market.status == MarketStatus::Settlement {
        Ok(0)
    } else {
        let default_margin_ratio = match margin_type {
            MarginRequirementType::Initial => market.margin_ratio_initial,
            MarginRequirementType::Maintenance => market.margin_ratio_maintenance,
        };
        match spec_size_premium_liability_weight(size, market.imf_factor, default_margin_ratio, MARGIN_PRECISION_U128) {
            Err(e) => Err(e),
            Ok(w) => Ok(if default_margin_ratio >= w { default_margin_ratio } else { w }),
        }
    }
}

impl SynthMarket {
    pub fn is_operation_paused(&self, operation: MarketOperation) -> (r: bool)
        ensures
            r == (self.paused_operations & operation.spec_bit() != 0),
    {
        MarketOperation::is_operation_paused(self.paused_operations, operation)
    }

    /// The margin ratio of a position of `size`, raised by the size premium; zero once the
    /// market settles.
    pub fn get_margin_ratio(&self, size: u128, margin_type: MarginRequirementType) -> (r: NormalResult<u32>)
        requires
            self.imf_factor != 0 ==> size * 10 + 1 <= u128::MAX,
        ensures
            r == spec_synth_margin_ratio(*self, size, margin_type),
    {
        if self.status == MarketStatus::Settlement {
            return Ok(0);
        }
        let default_margin_ratio = match margin_type {
            MarginRequirementType::Initial => self.margin_ratio_initial,
            MarginRequirementType::Maintenance => self.margin_ratio_maintenance,
        };
        let size_adj_margin_ratio = calculate_size_premium_liability_weight(
            size,
            self.imf_factor,
            default_margin_ratio,
            MARGIN_PRECISION_U128,
        )?;
        Ok(if default_margin_ratio >= size_adj_margin_ratio { default_margin_ratio } else { size_adj_margin_ratio })
    }

    /// The liquidation fee may reach five times the liquidator fee, but never the maintenance
    /// margin.
    pub fn get_max_liquidation_fee(&self) -> (r: NormalResult<u32>)
        ensures
            r == (if self.liquidator_fee * MAX_LIQUIDATION_MULTIPLIER > u32::MAX
                || self.margin_ratio_maintenance * LIQUIDATION_FEE_PRECISION > u32::MAX {
                Err(ErrorCode::MathError)
            } else {
                Ok(min_int(
                    self.liquidator_fee * MAX_LIQUIDATION_MULTIPLIER,
                    self.margin_ratio_maintenance * LIQUIDATION_FEE_PRECISION / (MARGIN_PRECISION as int),
                ) as u32)
            }),
    {
        let by_liquidator_fee = match self.liquidator_fee.checked_mul(MAX_LIQUIDATION_MULTIPLIER) {
            Some(v) => v,
            None => return Err(ErrorCode::MathError),
        };
        let scaled_margin = match self.margin_ratio_maintenance.checked_mul(LIQUIDATION_FEE_PRECISION) {
            Some(v) => v,
            None => return Err(ErrorCode::MathError),
        };
        let by_margin = scaled_margin / MARGIN_PRECISION;
        Ok(if by_liquidator_fee <= by_margin { by_liquidator_fee } else { by_margin })
    }

    /// Sets the liquidation penalty, as is: this market does not bound it.
    pub fn update_liquidation_penalty(&mut self, liquidation_penalty: u32)
        ensures
            *final(self) == (SynthMarket { liquidation_penalty, ..*old(self) }),
    {
        self.liquidation_penalty = liquidation_penalty;
    }
}

} // verus!
