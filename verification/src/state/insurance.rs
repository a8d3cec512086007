use vstd::prelude::*;

use crate::error::{ErrorCode, NormalResult};
use crate::math::arith::is_u128;
use crate::state::paused_operations::InsuranceFundOperation;

verus! {

/// The protocol's insurance fund.
#[derive(Clone, Copy, Debug)]
pub struct InsuranceFund {
    pub authority: [u8; 32],
    pub vault: [u8; 32],
    pub total_shares: u128,
    pub user_shares: u128,
    /// exponent for lp shares (for rebasing)
    pub shares_base: u128,
    pub unstaking_period: i64,
    pub last_revenue_settle_ts: i64,
    pub revenue_settle_period: i64,
    /// percentage of interest for total insurance
    pub total_factor: u32,
    /// percentage of interest for user staked insurance
    pub user_factor: u32,
    pub max_insurance: u64,
    pub paused_operations: u8,
}

impl InsuranceFund {
    pub fn is_operation_paused(&self, operation: InsuranceFundOperation) -> (r: bool)
        ensures
            r == (self.paused_operations & operation.spec_bit() != 0),
    {
        InsuranceFundOperation::is_operation_paused(self.paused_operations, operation)
    }
}

/// A market's claim on the insurance fund.
#[derive(Clone, Copy, PartialEq, Eq, Debug, Structural)]
pub struct InsuranceClaim {
    /// precision: QUOTE_PRECISION
    pub revenue_withdraw_since_last_settle: i64,
    /// precision: QUOTE_PRECISION
    pub max_revenue_withdraw_per_period: u64,
    /// precision: QUOTE_PRECISION
    pub quote_max_insurance: u64,
    /// precision: QUOTE_PRECISION
    pub quote_settled_insurance: u64,
    pub last_revenue_withdraw_ts: i64,
}

/// A staker's shares in the insurance fund.
#[derive(Clone, Copy, Debug)]
pub struct InsuranceFundStake {
    pub authority: [u8; 32],
    pub if_shares: u128,
    /// zero when not in escrow
    pub last_withdraw_request_shares: u128,
    /// exponent for if_shares decimal places (for rebase)
    pub if_base: u128,
    pub last_valid_ts: i64,
    pub last_withdraw_request_value: u64,
    pub last_withdraw_request_ts: i64,
    pub cost_basis: i64,
}

impl InsuranceFundStake {
    pub closed spec fn shares(self) -> u128 {
        self.if_shares
    }

    /// A stake with no shares, valid from `now`.
    pub fn new(authority: [u8; 32], now: i64) -> (r: Self)
        ensures
            r.authority == authority,
            r.shares() == 0,
            r.last_withdraw_request_shares == 0,
            r.last_withdraw_request_value == 0,
            r.last_withdraw_request_ts == 0,
            r.cost_basis == 0,
            r.if_base == 0,
            r.last_valid_ts == now,
    {
        InsuranceFundStake {
            authority,
            last_withdraw_request_shares: 0,
            last_withdraw_request_value: 0,
            last_withdraw_request_ts: 0,
            cost_basis: 0,
            if_base: 0,
            last_valid_ts: now,
            if_shares: 0,
        }
    }

    fn validate_base(&self, insurance_fund: &InsuranceFund) -> (r: NormalResult<()>)
        ensures
            r is Ok <==> self.if_base == insurance_fund.shares_base,
            r is Err ==> r == Err::<(), ErrorCode>(ErrorCode::InvalidIFRebase),
    {
        if self.if_base != insurance_fund.shares_base {
            return Err(ErrorCode::InvalidIFRebase);
        }
        Ok(())
    }

    /// The shares, once the stake's base matches the fund's.
    pub fn checked_if_shares(&self, insurance_fund: &InsuranceFund) -> (r: NormalResult<u128>)
        ensures
            r == (if self.if_base == insurance_fund.shares_base { Ok(self.shares()) } else { Err(ErrorCode::InvalidIFRebase) }),
    {
        self.validate_base(insurance_fund)?;
        Ok(self.if_shares)
    }

    pub fn unchecked_if_shares(&self) -> (r: u128)
        ensures
            r == self.shares(),
    {
        self.if_shares
    }

    pub fn increase_if_shares(&mut self, delta: u128, insurance_fund: &InsuranceFund) -> (r: NormalResult<()>)
        ensures
            old(self).if_base != insurance_fund.shares_base ==> r == Err::<(), ErrorCode>(ErrorCode::InvalidIFRebase) && *final(self) == *old(self),
            old(self).if_base == insurance_fund.shares_base && !is_u128(old(self).shares() + delta)
                ==> r == Err::<(), ErrorCode>(ErrorCode::MathError) && *final(self) == *old(self),
            old(self).if_base == insurance_fund.shares_base && is_u128(old(self).shares() + delta)
                ==> r is Ok && final(self).shares() == old(self).shares() + delta
                    && *final(self) == (InsuranceFundStake { if_shares: final(self).shares(), ..*old(self) }),
    {
        self.validate_base(insurance_fund)?;
        self.if_shares = match self.if_shares.checked_add(delta) {
            Some(v) => v,
            None => return Err(ErrorCode::MathError),
        };
        Ok(())
    }

    pub fn decrease_if_shares(&mut self, delta: u128, insurance_fund: &InsuranceFund) -> (r: NormalResult<()>)
        ensures
            old(self).if_base != insurance_fund.shares_base ==> r == Err::<(), ErrorCode>(ErrorCode::InvalidIFRebase) && *final(self) == *old(self),
            old(self).if_base == insurance_fund.shares_base && old(self).shares() < delta
                ==> r == Err::<(), ErrorCode>(ErrorCode::MathError) && *final(self) == *old(self),
            old(self).if_base == insurance_fund.shares_base && old(self).shares() >= delta
                ==> r is Ok && final(self).shares() == old(self).shares() - delta
                    && *final(self) == (InsuranceFundStake { if_shares: final(self).shares(), ..*old(self) }),
    {
        self.validate_base(insurance_fund)?;
        self.if_shares = match self.if_shares.checked_sub(delta) {
            Some(v) => v,
            None => return Err(ErrorCode::MathError),
        };
        Ok(())
    }

    pub fn update_if_shares(&mut self, new_shares: u128, insurance_fund: &InsuranceFund) -> (r: NormalResult<()>)
        ensures
            old(self).if_base != insurance_fund.shares_base ==> r == Err::<(), ErrorCode>(ErrorCode::InvalidIFRebase) && *final(self) == *old(self),
            old(self).if_base == insurance_fund.shares_base ==> r is Ok
                && *final(self) == (InsuranceFundStake { if_shares: new_shares, ..*old(self) }),
    {
        self.validate_base(insurance_fund)?;
        self.if_shares = new_shares;
        Ok(())
    }
}

/// Adding shares to a stake and then removing as many gives the stake back unchanged.
pub proof fn lemma_if_shares_increase_then_decrease(s: InsuranceFundStake, delta: u128)
    requires
        is_u128(s.shares() + delta),
    ensures
        ({
            let grown = InsuranceFundStake { if_shares: (s.shares() + delta) as u128, ..s };
            grown.shares() >= delta && InsuranceFundStake { if_shares: (grown.shares() - delta) as u128, ..grown } == s
        }),
{
}

} // verus!
