use vstd::prelude::*;

use crate::constants::{EPOCH_DURATION, THIRTY_DAY};
use crate::error::{ErrorCode, NormalResult};
use crate::math::arith::{is_i64, is_u64, max_int, min_int};
use crate::pubkey::empty_key;

verus! {

/// Fee totals of a user.
#[derive(Clone, Copy, PartialEq, Eq, Debug, Structural)]
pub struct UserFees {
    /// Total taker fee paid; precision: QUOTE_PRECISION
    pub total_fee_paid: u64,
    /// Total maker fee rebate; precision: QUOTE_PRECISION
    pub total_fee_rebate: u64,
    /// Total discount from holding token; precision: QUOTE_PRECISION
    pub total_token_discount: u64,
    /// Total discount from being referred; precision: QUOTE_PRECISION
    pub total_referee_discount: u64,
    /// Total reward to referrer; precision: QUOTE_PRECISION
    pub total_referrer_reward: u64,
    /// Total reward to referrer this epoch; precision: QUOTE_PRECISION
    pub current_epoch_referrer_reward: u64,
}

/// Statistics shared by all sub accounts of an authority.
#[derive(Clone, Copy, PartialEq, Eq, Debug)]
pub struct UserStats {
    /// The authority for all of a users sub accounts
    pub authority: [u8; 32],
    /// The address that referred this user
    pub referrer: [u8; 32],
    pub fees: UserFees,
    /// The timestamp of the next epoch
    pub next_epoch_ts: i64,
    /// Rolling 30day maker volume for user; precision: QUOTE_PRECISION
    pub maker_volume_30d: u64,
    /// Rolling 30day taker volume for user; precision: QUOTE_PRECISION
    pub taker_volume_30d: u64,
    /// last time the maker volume was updated
    pub last_maker_volume_30d_ts: i64,
    /// last time the taker volume was updated
    pub last_taker_volume_30d_ts: i64,
    /// last time the filler volume was updated
    pub last_filler_volume_30d_ts: i64,
    /// The amount of tokens staked in the insurance fund
    pub if_staked_asset_amount: u64,
    /// The current number of sub accounts
    pub number_of_sub_accounts: u16,
    /// The number of sub accounts created
    pub number_of_sub_accounts_created: u16,
    /// Whether the user is a referrer. Sub account 0 can not be deleted if user is a referrer
    pub is_referrer: bool,
    pub disable_update_perp_bid_ask_twap: bool,
}

/// A rolling sum over a window: the old sum decayed by the share of the window that has passed
/// (`since_last / window`), plus the new amount.
pub open spec fn spec_rolling_sum(data1: u64, data2: u64, weight1_numer: i64, weight1_denom: i64) -> NormalResult<u64> {
    let keep = max_int(0, weight1_denom - weight1_numer);
    if !is_i64(weight1_denom - weight1_numer) || weight1_denom <= 0 {
        Err(ErrorCode::MathError)
    } else {
        let decayed = data1 * keep / weight1_denom as int;
        if !is_u64(decayed) || !is_u64(decayed + data2) {
            Err(ErrorCode::MathError)
        } else {
            Ok((decayed + data2) as u64)
        }
    }
}

pub fn calculate_rolling_sum(data1: u64, data2: u64, weight1_numer: i64, weight1_denom: i64) -> (r: NormalResult<u64>)
    ensures
        r == spec_rolling_sum(data1, data2, weight1_numer, weight1_denom),
{
    let diff = match weight1_denom.checked_sub(weight1_numer) {
        Some(v) => v,
        None => return Err(ErrorCode::MathError),
    };
    let keep: u64 = if diff > 0 { diff as u64 } else { 0 };
    if weight1_denom <= 0 {
        return Err(ErrorCode::MathError);
    }
    proof {
        assert(data1 * keep <= u64::MAX as int * u64::MAX as int) by (nonlinear_arith)
            requires 0 <= data1 <= u64::MAX, 0 <= keep <= u64::MAX;
    }
    let decayed = (data1 as u128) * (keep as u128) / (weight1_denom as u128);
    if decayed > u64::MAX as u128 {
        return Err(ErrorCode::MathError);
    }
    match (decayed as u64).checked_add(data2) {
        Some(v) => Ok(v),
        None => Err(ErrorCode::MathError),
    }
}

pub open spec fn spec_update_volume(volume: u64, last_ts: i64, quote_asset_amount: u64, now: i64) -> NormalResult<u64> {
    if !is_i64(now - last_ts) {
        Err(ErrorCode::MathError)
    } else {
        spec_rolling_sum(volume, quote_asset_amount, max_int(1, now - last_ts) as i64, THIRTY_DAY)
    }
}

impl UserStats {
    /// Adds a maker fill to the rolling 30 day maker volume.
    pub fn update_maker_volume_30d(&mut self, quote_asset_amount: u64, now: i64) -> (r: NormalResult<()>)
        ensures
            match spec_update_volume(old(self).maker_volume_30d, old(self).last_maker_volume_30d_ts, quote_asset_amount, now) {
                Ok(v) => r is Ok && *final(self) == (UserStats { maker_volume_30d: v, last_maker_volume_30d_ts: now, ..*old(self) }),
                Err(e) => r == Err::<(), ErrorCode>(e) && *final(self) == *old(self),
            },
    {
        let elapsed = match now.checked_sub(self.last_maker_volume_30d_ts) {
            Some(v) => v,
            None => return Err(ErrorCode::MathError),
        };
        let since_last: i64 = if elapsed >= 1 { elapsed } else { 1 };
        self.maker_volume_30d = calculate_rolling_sum(self.maker_volume_30d, quote_asset_amount, since_last, THIRTY_DAY)?;
        self.last_maker_volume_30d_ts = now;
        Ok(())
    }

    /// Adds a taker fill to the rolling 30 day taker volume.
    pub fn update_taker_volume_30d(&mut self, quote_asset_amount: u64, now: i64) -> (r: NormalResult<()>)
        ensures
            match spec_update_volume(old(self).taker_volume_30d, old(self).last_taker_volume_30d_ts, quote_asset_amount, now) {
                Ok(v) => r is Ok && *final(self) == (UserStats { taker_volume_30d: v, last_taker_volume_30d_ts: now, ..*old(self) }),
                Err(e) => r == Err::<(), ErrorCode>(e) && *final(self) == *old(self),
            },
    {
        let elapsed = match now.checked_sub(self.last_taker_volume_30d_ts) {
            Some(v) => v,
            None => return Err(ErrorCode::MathError),
        };
        let since_last: i64 = if elapsed >= 1 { elapsed } else { 1 };
        self.taker_volume_30d = calculate_rolling_sum(self.taker_volume_30d, quote_asset_amount, since_last, THIRTY_DAY)?;
        self.last_taker_volume_30d_ts = now;
        Ok(())
    }

    pub fn increment_total_fees(&mut self, fee: u64) -> (r: NormalResult<()>)
        ensures
            is_u64(old(self).fees.total_fee_paid + fee) ==> r is Ok && *final(self) == (UserStats {
                fees: UserFees { total_fee_paid: (old(self).fees.total_fee_paid + fee) as u64, ..old(self).fees },
                ..*old(self)
            }),
            !is_u64(old(self).fees.total_fee_paid + fee) ==> r == Err::<(), ErrorCode>(ErrorCode::MathError) && *final(self) == *old(self),
    {
        self.fees.total_fee_paid = match self.fees.total_fee_paid.checked_add(fee) {
            Some(v) => v,
            None => return Err(ErrorCode::MathError),
        };
        Ok(())
    }

    pub fn increment_total_rebate(&mut self, fee: u64) -> (r: NormalResult<()>)
        ensures
            is_u64(old(self).fees.total_fee_rebate + fee) ==> r is Ok && *final(self) == (UserStats {
                fees: UserFees { total_fee_rebate: (old(self).fees.total_fee_rebate + fee) as u64, ..old(self).fees },
                ..*old(self)
            }),
            !is_u64(old(self).fees.total_fee_rebate + fee) ==> r == Err::<(), ErrorCode>(ErrorCode::MathError) && *final(self) == *old(self),
    {
        self.fees.total_fee_rebate = match self.fees.total_fee_rebate.checked_add(fee) {
            Some(v) => v,
            None => return Err(ErrorCode::MathError),
        };
        Ok(())
    }

    /// Records a referrer reward; when `now` is past the epoch, the epoch moves forward by whole
    /// epochs to the first one ending after `now` and the epoch's reward starts over.
    pub fn increment_total_referrer_reward(&mut self, reward: u64, now: i64) -> (r: NormalResult<()>)
        ensures
            r is Ok ==> {
                &&& final(self).fees.total_referrer_reward == old(self).fees.total_referrer_reward + reward
                &&& final(self).authority == old(self).authority
                &&& final(self).referrer == old(self).referrer
                &&& if now > old(self).next_epoch_ts {
                    &&& final(self).fees.current_epoch_referrer_reward == 0
                    &&& final(self).next_epoch_ts == old(self).next_epoch_ts
                        + EPOCH_DURATION * ((now - old(self).next_epoch_ts) / EPOCH_DURATION as int + 1)
                    &&& now < final(self).next_epoch_ts <= now + EPOCH_DURATION
                } else {
                    &&& final(self).fees.current_epoch_referrer_reward == old(self).fees.current_epoch_referrer_reward + reward
                    &&& final(self).next_epoch_ts == old(self).next_epoch_ts
                }
            },
            r is Err ==> r == Err::<(), ErrorCode>(ErrorCode::MathError),
            (is_u64(old(self).fees.total_referrer_reward + reward)
                && is_u64(old(self).fees.current_epoch_referrer_reward + reward)
                && (now > old(self).next_epoch_ts ==> is_i64(now - old(self).next_epoch_ts)
                    && is_i64(EPOCH_DURATION * ((now - old(self).next_epoch_ts) / EPOCH_DURATION as int + 1))
                    && is_i64(old(self).next_epoch_ts
                    + EPOCH_DURATION * ((now - old(self).next_epoch_ts) / EPOCH_DURATION as int + 1))))
                ==> r is Ok,
    {
        self.fees.total_referrer_reward = match self.fees.total_referrer_reward.checked_add(reward) {
            Some(v) => v,
            None => return Err(ErrorCode::MathError),
        };
        self.fees.current_epoch_referrer_reward = match self.fees.current_epoch_referrer_reward.checked_add(reward) {
            Some(v) => v,
            None => return Err(ErrorCode::MathError),
        };
        if now > self.next_epoch_ts {
            let gap = match now.checked_sub(self.next_epoch_ts) {
                Some(v) => v,
                None => return Err(ErrorCode::MathError),
            };
            proof {
                assert(gap / EPOCH_DURATION <= gap) by (nonlinear_arith) requires gap > 0, EPOCH_DURATION > 0;
            }
            let n_epoch_durations = gap / EPOCH_DURATION + 1;
            let advance = match EPOCH_DURATION.checked_mul(n_epoch_durations) {
                Some(v) => v,
                None => return Err(ErrorCode::MathError),
            };
            self.next_epoch_ts = match self.next_epoch_ts.checked_add(advance) {
                Some(v) => v,
                None => return Err(ErrorCode::MathError),
            };
            proof {
                let g = gap as int;
                let e = EPOCH_DURATION as int;
                assert(g < e * (g / e + 1) <= g + e) by (nonlinear_arith) requires g > 0, e > 0;
            }
            self.fees.current_epoch_referrer_reward = 0;
        }
        Ok(())
    }

    pub fn increment_total_referee_discount(&mut self, discount: u64) -> (r: NormalResult<()>)
        ensures
            is_u64(old(self).fees.total_referee_discount + discount) ==> r is Ok && *final(self) == (UserStats {
                fees: UserFees { total_referee_discount: (old(self).fees.total_referee_discount + discount) as u64, ..old(self).fees },
                ..*old(self)
            }),
            !is_u64(old(self).fees.total_referee_discount + discount) ==> r == Err::<(), ErrorCode>(ErrorCode::MathError) && *final(self) == *old(self),
    {
        self.fees.total_referee_discount = match self.fees.total_referee_discount.checked_add(discount) {
            Some(v) => v,
            None => return Err(ErrorCode::MathError),
        };
        Ok(())
    }

    /// Whether a referrer (a non-default address) is recorded.
    pub fn has_referrer(&self) -> (r: bool)
        ensures
            r == (exists|i: int| 0 <= i < 32 && self.referrer[i] != 0),
    {
        let mut i: usize = 0;
        while i < 32
            invariant
                i <= 32,
                forall|j: int| 0 <= j < i ==> self.referrer[j] == 0,
            decreases 32 - i,
        {
            if self.referrer[i] != 0 {
                return true;
            }
            i = i + 1;
        }
        false
    }

    pub fn get_total_30d_volume(&self) -> (r: NormalResult<u64>)
        ensures
            r == (if is_u64(self.taker_volume_30d + self.maker_volume_30d) {
                Ok((self.taker_volume_30d + self.maker_volume_30d) as u64)
            } else {
                Err(ErrorCode::MathError)
            }),
    {
        match self.taker_volume_30d.checked_add(self.maker_volume_30d) {
            Some(v) => Ok(v),
            None => Err(ErrorCode::MathError),
        }
    }

    /// An upper bound of the account's age: the time since its earliest recorded action, at least 0.
    pub fn get_age_ts(&self, now: i64) -> (r: i64)
        ensures
            r == max_int(0, min_int(i64::MAX as int, now - min_int(min_int(self.last_filler_volume_30d_ts as int,
                self.last_maker_volume_30d_ts as int), self.last_taker_volume_30d_ts as int))),
    {
        let a = if self.last_filler_volume_30d_ts <= self.last_maker_volume_30d_ts { self.last_filler_volume_30d_ts } else { self.last_maker_volume_30d_ts };
        let min_action_ts = if a <= self.last_taker_volume_30d_ts { a } else { self.last_taker_volume_30d_ts };
        let age: i64 = match now.checked_sub(min_action_ts) {
            Some(v) => v,
            None => if min_action_ts < 0 { i64::MAX } else { i64::MIN },
        };
        if age >= 0 { age } else { 0 }
    }
}

impl UserFees {
    pub open spec fn spec_zero() -> UserFees {
        UserFees {
            total_fee_paid: 0,
            total_fee_rebate: 0,
            total_token_discount: 0,
            total_referee_discount: 0,
            total_referrer_reward: 0,
            current_epoch_referrer_reward: 0,
        }
    }
}

impl UserStats {
    /// Fresh statistics for an authority: no referrer, no volume, no sub accounts.
    pub fn new(authority: [u8; 32]) -> (r: Self)
        ensures
            r.authority == authority,
            r.referrer@ == empty_key(),
            r.fees == UserFees::spec_zero(),
            r.next_epoch_ts == 0,
            r.maker_volume_30d == 0,
            r.taker_volume_30d == 0,
            r.last_maker_volume_30d_ts == 0,
            r.last_taker_volume_30d_ts == 0,
            r.last_filler_volume_30d_ts == 0,
            r.if_staked_asset_amount == 0,
            r.number_of_sub_accounts == 0,
            r.number_of_sub_accounts_created == 0,
            !r.is_referrer,
            !r.disable_update_perp_bid_ask_twap,
    {
        UserStats {
            authority,
            referrer: [0u8; 32],
            fees: UserFees {
                total_fee_paid: 0,
                total_fee_rebate: 0,
                total_token_discount: 0,
                total_referee_discount: 0,
                total_referrer_reward: 0,
                current_epoch_referrer_reward: 0,
            },
            next_epoch_ts: 0,
            maker_volume_30d: 0,
            taker_volume_30d: 0,
            last_maker_volume_30d_ts: 0,
            last_taker_volume_30d_ts: 0,
            last_filler_volume_30d_ts: 0,
            if_staked_asset_amount: 0,
            number_of_sub_accounts: 0,
            number_of_sub_accounts_created: 0,
            is_referrer: false,
            disable_update_perp_bid_ask_twap: false,
        }
    }
}

} // verus!
