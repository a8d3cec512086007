use vstd::prelude::*;

use crate::constants::{LAMPORTS_PER_SOL_U64, PERCENTAGE_PRECISION_U64};
use crate::error::{ErrorCode, NormalResult};

verus! {

#[derive(Clone, Copy, PartialEq, Eq, Debug, Structural)]
pub enum MarketType {
    Synth,
    Index,
}

impl Default for MarketType {
    fn default() -> (r: Self)
        ensures
            r == MarketType::Synth,
    {
        MarketType::Synth
    }
}

impl MarketType {
    /// The name of the market type, as it is displayed.
    pub fn to_string(&self) -> (r: &'static str)
        ensures
            *self == MarketType::Synth ==> r@ == "Synth"@,
            *self == MarketType::Index ==> r@ == "Index"@,
    {
        match self {
            MarketType::Synth => "Synth",
            MarketType::Index => "Index",
        }
    }
}

/// Bounds under which an oracle reading counts as valid.
#[derive(Clone, Copy, PartialEq, Eq, Debug, Structural)]
pub struct ValidityGuardRails {
    pub slots_before_stale_for_amm: i64,
    /// precision: PERCENTAGE_PRECISION
    pub confidence_interval_max_size: u64,
    pub too_volatile_ratio: i64,
}

impl Default for ValidityGuardRails {
    fn default() -> (r: Self)
        ensures
            r == (ValidityGuardRails { slots_before_stale_for_amm: 0, confidence_interval_max_size: 0, too_volatile_ratio: 0 }),
    {
        ValidityGuardRails { slots_before_stale_for_amm: 0, confidence_interval_max_size: 0, too_volatile_ratio: 0 }
    }
}

/// Bounds on how far prices may diverge from the oracle.
#[derive(Clone, Copy, PartialEq, Eq, Debug, Structural)]
pub struct PriceDivergenceGuardRails {
    pub mark_oracle_percent_divergence: u64,
    pub oracle_twap_5min_percent_divergence: u64,
}

impl Default for PriceDivergenceGuardRails {
    fn default() -> (r: Self)
        ensures
            r == (PriceDivergenceGuardRails {
                mark_oracle_percent_divergence: 100_000,
                oracle_twap_5min_percent_divergence: 500_000,
            }),
    {
        PriceDivergenceGuardRails {
            mark_oracle_percent_divergence: PERCENTAGE_PRECISION_U64 / 10,
            oracle_twap_5min_percent_divergence: PERCENTAGE_PRECISION_U64 / 2,
        }
    }
}

/// Validations that keep oracle prices accurate and reliable.
#[derive(Clone, Copy, PartialEq, Eq, Debug, Structural)]
pub struct OracleGuardRails {
    pub price_divergence: PriceDivergenceGuardRails,
    pub validity: ValidityGuardRails,
}

impl Default for OracleGuardRails {
    /// Stale after 10 slots, too uncertain beyond 2% of price, too volatile beyond a 5x move.
    fn default() -> (r: Self)
        ensures
            r == (OracleGuardRails {
                price_divergence: PriceDivergenceGuardRails {
                    mark_oracle_percent_divergence: 100_000,
                    oracle_twap_5min_percent_divergence: 500_000,
                },
                validity: ValidityGuardRails {
                    slots_before_stale_for_amm: 10,
                    confidence_interval_max_size: 20_000,
                    too_volatile_ratio: 5,
                },
            }),
    {
        OracleGuardRails {
            price_divergence: PriceDivergenceGuardRails::default(),
            validity: ValidityGuardRails {
                slots_before_stale_for_amm: 10,
                confidence_interval_max_size: 20_000,
                too_volatile_ratio: 5,
            },
        }
    }
}

impl OracleGuardRails {
    /// The configured 5 minute twap divergence, never below 50%.
    pub fn max_oracle_twap_5min_percent_divergence(&self) -> (r: u64)
        ensures
            r == (if self.price_divergence.oracle_twap_5min_percent_divergence >= 500_000 {
                self.price_divergence.oracle_twap_5min_percent_divergence
            } else {
                500_000
            }),
    {
        let d = self.price_divergence.oracle_twap_5min_percent_divergence;
        if d >= PERCENTAGE_PRECISION_U64 / 2 { d } else { PERCENTAGE_PRECISION_U64 / 2 }
    }
}

/// The protocol-wide switches that pause one kind of activity each.
#[derive(Clone, Copy, PartialEq, Eq, Debug, Structural)]
pub enum ExchangeStatus {
    DepositPaused,
    WithdrawPaused,
    LendPaused,
    AmmPaused,
    LiqPaused,
    ScheduleFillPaused,
}

/// The bits of all exchange status flags together.
pub const ALL_EXCHANGE_STATUS_BITS: u8 = 0b0011_1111;

impl ExchangeStatus {
    pub open spec fn spec_bit(self) -> u8 {
        match self {
            ExchangeStatus::DepositPaused => 1,
            ExchangeStatus::WithdrawPaused => 2,
            ExchangeStatus::LendPaused => 4,
            ExchangeStatus::AmmPaused => 8,
            ExchangeStatus::LiqPaused => 16,
            ExchangeStatus::ScheduleFillPaused => 32,
        }
    }

    pub fn bit(self) -> (r: u8)
        ensures
            r == self.spec_bit(),
    {
        match self {
            ExchangeStatus::DepositPaused => 1,
            ExchangeStatus::WithdrawPaused => 2,
            ExchangeStatus::LendPaused => 4,
            ExchangeStatus::AmmPaused => 8,
            ExchangeStatus::LiqPaused => 16,
            ExchangeStatus::ScheduleFillPaused => 32,
        }
    }

    /// The status byte of an exchange with nothing paused.
    pub fn active() -> (r: u8)
        ensures
            r == 0,
    {
        0
    }
}

/// The protocol's global configuration and counters.
#[derive(Clone, Debug)]
pub struct State {
    pub admin: [u8; 32],
    pub signer: [u8; 32],
    /// ensures signer transactions are not duplicated
    pub signer_nonce: u8,
    /// validations to ensure oracle prices are accurate and reliable
    pub oracle_guard_rails: OracleGuardRails,
    /// set of elected keepers who can freeze/update oracles in an emergency
    pub emergency_oracles: Vec<[u8; 32]>,
    /// the current status of the protocol, one bit per paused activity
    pub exchange_status: u8,
    /// the total number of markets live on the protocol
    pub number_of_markets: u16,
    /// the total number of index markets live on the protocol
    pub number_of_index_markets: u16,
    pub default_index_oracle: [u8; 32],
    pub max_index_assets: u16,
    pub protocol_index_fee: u16,
    pub protocol_index_fee_vault: [u8; 32],
    pub insurance_fund: [u8; 32],
    pub total_debt_ceiling: u64,
    /// ensures user initialization does not become costly; in hundredths of a SOL
    pub max_initialize_user_fee: u16,
    /// tracks the number of User delegate authorities
    pub number_of_authorities: u64,
    /// tracks the number of User sub-accounts used to partition Vaults
    pub number_of_sub_accounts: u64,
    /// the maximum number of sub-accounts the protocol is willing to support
    pub max_number_of_sub_accounts: u16,
    pub liquidation_margin_buffer_ratio: u32,
    pub liquidation_duration: u8,
    pub initial_pct_to_liquidate: u16,
    /// the fewest slots an auction lasts before the AMM may fill its order
    pub min_auction_duration: u8,
}

pub open spec fn spec_max_number_of_sub_accounts(max: u16) -> u64 {
    if max <= 5 { max as u64 } else { (max * 100) as u64 }
}

/// The fee, in lamports, of opening a new sub account when `used` of `max` are in use.
pub open spec fn spec_init_user_fee(max_initialize_user_fee: u16, used: u64, max: u64) -> NormalResult<u64> {
    let max_init_fee = max_initialize_user_fee * 1_000_000_000int / 100;
    let target = 800_000int;
    let denominator = if max >= 1 { max as int } else { 1 };
    if used * 1_000_000int > u64::MAX {
        Err(ErrorCode::MathError)
    } else {
        let utilization = used * 1_000_000int / denominator;
        if utilization > target {
            if max_init_fee * (utilization - target) > u64::MAX {
                Err(ErrorCode::MathError)
            } else {
                Ok((max_init_fee * (utilization - target) / (1_000_000int - target)) as u64)
            }
        } else {
            Ok(0)
        }
    }
}

impl State {
    /// The exchange status flags, refused when a bit outside the known flags is set.
    pub fn get_exchange_status(&self) -> (r: NormalResult<u8>)
        ensures
            r == (if self.exchange_status & !ALL_EXCHANGE_STATUS_BITS == 0 { Ok(self.exchange_status) }
                else { Err::<u8, ErrorCode>(ErrorCode::FailedUnwrap) }),
    {
        if self.exchange_status & !ALL_EXCHANGE_STATUS_BITS == 0 {
            Ok(self.exchange_status)
        } else {
            Err(ErrorCode::FailedUnwrap)
        }
    }

    /// Up to five sub accounts are taken as configured; a larger setting counts in hundreds.
    pub fn max_number_of_sub_accounts(&self) -> (r: u64)
        ensures
            r == spec_max_number_of_sub_accounts(self.max_number_of_sub_accounts),
    {
        if self.max_number_of_sub_accounts <= 5 {
            return self.max_number_of_sub_accounts as u64;
        }
        (self.max_number_of_sub_accounts as u64) * 100
    }

    /// Zero while at most 80% of the sub account space is used, then rising linearly to the
    /// maximum fee when it is full.
    pub fn get_init_user_fee(&self) -> (r: NormalResult<u64>)
        ensures
            r == spec_init_user_fee(
                self.max_initialize_user_fee,
                self.number_of_sub_accounts,
                spec_max_number_of_sub_accounts(self.max_number_of_sub_accounts),
            ),
    {
        let max_init_fee: u64 = ((self.max_initialize_user_fee as u64) * LAMPORTS_PER_SOL_U64) / 100;
        let target_utilization: u64 = (8 * PERCENTAGE_PRECISION_U64) / 10;
        let max_accounts = self.max_number_of_sub_accounts();
        let denominator: u64 = if max_accounts >= 1 { max_accounts } else { 1 };
        let scaled = match self.number_of_sub_accounts.checked_mul(PERCENTAGE_PRECISION_U64) {
            Some(v) => v,
            None => return Err(ErrorCode::MathError),
        };
        let account_space_utilization: u64 = scaled / denominator;
        let init_fee: u64 = if account_space_utilization > target_utilization {
            let numerator = match max_init_fee.checked_mul(account_space_utilization - target_utilization) {
                Some(v) => v,
                None => return Err(ErrorCode::MathError),
            };
            numerator / (PERCENTAGE_PRECISION_U64 - target_utilization)
        } else {
            0
        };
        Ok(init_fee)
    }
}

} // verus!
