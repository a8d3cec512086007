pub mod account_map;
pub mod amm;
pub mod auction;
pub mod collateral_position;
pub mod fill_mode;
pub mod fund;
pub mod index_market;
pub mod insurance;
pub mod liquidity_position;
pub mod market;
pub mod market_set;
pub mod oracle;
pub mod order_params;
pub mod paused_operations;
pub mod pyth;
pub mod referral;
pub mod schedule;
pub mod spot_fulfillment_params;
pub mod state;
pub mod synth_market;
pub mod tick;
pub mod user;
pub mod user_stats;
pub mod vault;
pub mod vault_config;
