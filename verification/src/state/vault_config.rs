use vstd::prelude::*;

use crate::constants::MAX_PROTOCOL_FEE_RATE;
use crate::error::{ErrorCode, NormalResult};
use crate::state::auction::AuctionPreference;

verus! {

/// A kind of collateral that vaults take.
#[derive(Clone, Copy, Debug)]
pub struct CollateralType {
    /// Unique identifier (e.g., hash of collateral name)
    pub identifier: [u8; 32],
    /// Token mint address for collateral type
    pub mint: [u8; 32],
    /// The collateralization ratio below which a vault may be liquidated
    pub liquidation_ratio: u64,
    /// A fee applied to the collateral when the vault is liquidated
    pub liquidation_penalty: u64,
}

/// The configuration shared by the vaults of a collateral type.
#[derive(Clone, Copy, Debug)]
pub struct VaultsConfig {
    /// The token mint of the vaults
    pub mint: [u8; 32],
    /// oracle price data public key
    pub oracle: [u8; 32],
    /// The AMM
    pub amm: [u8; 32],
    /// reference to the collateral type identifier
    pub collateral_type: [u8; 32],
    pub min_collateral_ratio: u64,
    /// maximum amount of synthetic that can be generated against the collateral type
    pub debt_ceiling: u64,
    pub default_liquidity_utilization: u64,
    /// The maximum percent of the collateral that can be sent to the AMM as liquidity
    pub max_liquidity_utilization: u64,
    /// where collateral auctions should take place
    pub auction_preference: AuctionPreference,
    /// Initial auction price for the collateral
    pub start_price: u64,
    /// Maximum time allowed for the auction to complete.
    pub duration: u16,
    /// How quickly the starting price decreases during the auction if there are no bids.
    pub bid_decrease_rate: u16,
    /// The amount of collateral being auctioned.
    pub lot_size: u64,
    pub max_lot_size: u64,
    /// A fee applied to the collateral when a vault is liquidated
    pub liquidation_penalty: u64,
    pub fee_authority: [u8; 32],
    pub collect_protocol_fees_authority: [u8; 32],
    pub reward_emissions_super_authority: [u8; 32],
    /// Portion of the fee rate taken by the protocol, in basis points
    pub default_protocol_fee_rate: u16,
}

impl VaultsConfig {
    /// Sets the authorities and the default protocol fee rate; refused (changing nothing)
    /// when the rate is above the maximum.
    pub fn initialize(
        &mut self,
        fee_authority: [u8; 32],
        collect_protocol_fees_authority: [u8; 32],
        reward_emissions_super_authority: [u8; 32],
        default_protocol_fee_rate: u16,
    ) -> (r: NormalResult<()>)
        ensures
            default_protocol_fee_rate > MAX_PROTOCOL_FEE_RATE ==> r == Err::<(), ErrorCode>(ErrorCode::ProtocolFeeRateMaxExceeded)
                && *final(self) == *old(self),
            default_protocol_fee_rate <= MAX_PROTOCOL_FEE_RATE ==> r is Ok && *final(self) == (VaultsConfig {
                fee_authority,
                collect_protocol_fees_authority,
                reward_emissions_super_authority,
                default_protocol_fee_rate,
                ..*old(self)
            }),
    {
        if default_protocol_fee_rate > MAX_PROTOCOL_FEE_RATE {
            return Err(ErrorCode::ProtocolFeeRateMaxExceeded);
        }
        self.fee_authority = fee_authority;
        self.collect_protocol_fees_authority = collect_protocol_fees_authority;
        self.reward_emissions_super_authority = reward_emissions_super_authority;
        self.default_protocol_fee_rate = default_protocol_fee_rate;
        Ok(())
    }

    /// Sets the liquidation penalty, refused (changing nothing) above the maximum protocol fee rate.
    pub fn update_liquidation_penalty(&mut self, liquidation_penalty: u64) -> (r: NormalResult<()>)
        ensures
            liquidation_penalty > MAX_PROTOCOL_FEE_RATE ==> r == Err::<(), ErrorCode>(ErrorCode::ProtocolFeeRateMaxExceeded)
                && *final(self) == *old(self),
            liquidation_penalty <= MAX_PROTOCOL_FEE_RATE ==> r is Ok
                && *final(self) == (VaultsConfig { liquidation_penalty, ..*old(self) }),
    {
        if liquidation_penalty > MAX_PROTOCOL_FEE_RATE as u64 {
            return Err(ErrorCode::ProtocolFeeRateMaxExceeded);
        }
        self.liquidation_penalty = liquidation_penalty;
        Ok(())
    }
}

} // verus!
