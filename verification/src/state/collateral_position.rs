use vstd::prelude::*;

use crate::error::{ErrorCode, NormalResult};
use crate::math::arith::{is_i128, is_u64};
use crate::math::spot_balance::{get_signed_token_amount, get_token_amount, spec_get_token_amount};
use crate::state::market::Market;

verus! {

/// A user's deposit of collateral in a market.
#[derive(Clone, Copy, PartialEq, Eq, Debug, Structural)]
pub struct CollateralPosition {
    /// The scaled balance of the position. To get the token amount, multiply by the cumulative
    /// deposit interest of the market. precision: SPOT_BALANCE_PRECISION
    pub scaled_balance: u64,
    /// The cumulative deposits a user has made into the market; precision: token mint precision
    pub cumulative_deposits: i64,
    /// The market index of the corresponding market
    pub market_index: u16,
}

/// A position in a market's collateral; the same record as a collateral position.
pub type Position = CollateralPosition;

impl CollateralPosition {
    pub fn market_index(&self) -> (r: u16)
        ensures
            r == self.market_index,
    {
        self.market_index
    }

    pub fn balance(&self) -> (r: u128)
        ensures
            r == self.scaled_balance,
    {
        self.scaled_balance as u128
    }

    /// Adds to the balance; refused (changing nothing) when it would not fit.
    pub fn increase_balance(&mut self, delta: u128) -> (r: NormalResult<()>)
        ensures
            is_u64(old(self).scaled_balance + delta) ==> r is Ok
                && *final(self) == (CollateralPosition { scaled_balance: (old(self).scaled_balance + delta) as u64, ..*old(self) }),
            !is_u64(old(self).scaled_balance + delta) ==> r == Err::<(), ErrorCode>(ErrorCode::MathError) && *final(self) == *old(self),
    {
        if delta > u64::MAX as u128 {
            return Err(ErrorCode::MathError);
        }
        self.scaled_balance = match self.scaled_balance.checked_add(delta as u64) {
            Some(v) => v,
            None => return Err(ErrorCode::MathError),
        };
        Ok(())
    }

    /// Takes from the balance; refused (changing nothing) below zero.
    pub fn decrease_balance(&mut self, delta: u128) -> (r: NormalResult<()>)
        ensures
            delta <= old(self).scaled_balance ==> r is Ok
                && *final(self) == (CollateralPosition { scaled_balance: (old(self).scaled_balance - delta) as u64, ..*old(self) }),
            delta > old(self).scaled_balance ==> r == Err::<(), ErrorCode>(ErrorCode::MathError) && *final(self) == *old(self),
    {
        if delta > u64::MAX as u128 {
            return Err(ErrorCode::MathError);
        }
        self.scaled_balance = match self.scaled_balance.checked_sub(delta as u64) {
            Some(v) => v,
            None => return Err(ErrorCode::MathError),
        };
        Ok(())
    }

    /// A position holding nothing can be reused for another market.
    pub fn is_available(&self) -> (r: bool)
        ensures
            r == (self.scaled_balance == 0),
    {
        self.scaled_balance == 0
    }

    /// The position belongs to the market and holds something.
    pub fn is_for(&self, market_index: u16) -> (r: bool)
        ensures
            r == (self.market_index == market_index && self.scaled_balance != 0),
    {
        self.market_index == market_index && !self.is_available()
    }

    /// The token amount the balance stands for in the market.
    pub fn get_token_amount(&self, market: &Market) -> (r: NormalResult<u128>)
        ensures
            r == spec_get_token_amount(self.scaled_balance as u128, *market),
    {
        get_token_amount(self.scaled_balance as u128, market)
    }

    /// The token amount, signed (a deposit counts positive).
    pub fn get_signed_token_amount(&self, market: &Market) -> (r: NormalResult<i128>)
        ensures
            r == (match spec_get_token_amount(self.scaled_balance as u128, *market) {
                Err(e) => Err(e),
                Ok(t) => if is_i128(t as int) { Ok(t as i128) } else { Err(ErrorCode::MathError) },
            }),
    {
        let token_amount = get_token_amount(self.scaled_balance as u128, market)?;
        get_signed_token_amount(token_amount)
    }
}

} // verus!
