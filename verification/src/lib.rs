//! Verified core of the `normal` synthetic-asset protocol: order and auction
//! pricing, oracle validity, position and balance arithmetic, and the
//! bookkeeping of users, vaults, markets and the insurance fund.

pub mod constants;
pub mod error;
pub mod instructions;
pub mod math;
pub mod pubkey;
pub mod state;
