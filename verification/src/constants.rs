use vstd::prelude::*;

verus! {

pub const PRICE_PRECISION: u128 = 1_000_000;
pub const PRICE_PRECISION_U64: u64 = 1_000_000;
pub const PRICE_PRECISION_I64: i64 = 1_000_000;
pub const PRICE_PRECISION_I128: i128 = 1_000_000;

pub const PERCENTAGE_PRECISION: u128 = 1_000_000;
pub const PERCENTAGE_PRECISION_U64: u64 = 1_000_000;
pub const PERCENTAGE_PRECISION_I64: i64 = 1_000_000;

pub const QUOTE_PRECISION_U64: u64 = 1_000_000;

/// Margin ratios are expressed in 1/10_000.
pub const MARGIN_PRECISION: u32 = 10_000;
pub const MARGIN_PRECISION_U128: u128 = 10_000;

pub const SPOT_IMF_PRECISION_U128: u128 = 1_000_000;

pub const BID_ASK_SPREAD_PRECISION: u64 = 1_000_000;

/// Auctions derived from the oracle start or end this fraction (1/200) away from it.
pub const AUCTION_DERIVE_PRICE_FRACTION: i64 = 200;

/// `PRICE_PRECISION * AMM_RESERVE_PRECISION / QUOTE_PRECISION`.
pub const PRICE_TIMES_AMM_TO_QUOTE_PRECISION_RATIO: u128 = 1_000_000_000;
pub const PRICE_TIMES_AMM_TO_QUOTE_PRECISION_RATIO_I128: i128 = 1_000_000_000;

pub const FEE_ADJUSTMENT_MAX: u64 = 100;

pub const LIQUIDATION_FEE_PRECISION: u32 = 1_000_000;
pub const MAX_LIQUIDATION_MULTIPLIER: u32 = 5;

pub const LAMPORTS_PER_SOL_U64: u64 = 1_000_000_000;

pub const ONE_HUNDRED_THOUSAND_QUOTE: u64 = 100_000_000_000;

pub const THIRTY_DAY: i64 = 2_592_000;
pub const THIRTEEN_DAY: i64 = 1_123_200;
/// Referrer rewards are accounted per epoch of 28 days.
pub const EPOCH_DURATION: i64 = 2_419_200;

pub const MAX_PROTOCOL_FEE_RATE: u16 = 2_500;

/// Number of reward slots an AMM supports.
pub const NUM_REWARDS: usize = 3;

} // verus!
