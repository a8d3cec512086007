use vstd::prelude::*;

use crate::constants::NUM_REWARDS;
use crate::error::{ErrorCode, NormalResult};
use crate::state::market::Market;
use crate::state::tick::{check_is_usable_tick, full_range_indexes, spec_full_range_indexes, spec_is_usable_tick,
    FULL_RANGE_ONLY_TICK_SPACING_THRESHOLD};

verus! {

/// What a position is owed of one reward.
#[derive(Clone, Copy, PartialEq, Eq, Debug, Structural)]
pub struct LiquidityPositionRewardInfo {
    /// Q64.64
    pub growth_inside_checkpoint: u128,
    pub amount_owed: u64,
}

/// A liquidity position in a market's pool, between two ticks.
#[derive(Clone, Copy, Debug)]
pub struct LiquidityPosition {
    pub market: [u8; 32],
    pub position_mint: [u8; 32],
    pub liquidity: u128,
    pub tick_lower_index: i32,
    pub tick_upper_index: i32,
    /// Q64.64
    pub fee_growth_checkpoint_a: u128,
    pub fee_owed_a: u64,
    /// Q64.64
    pub fee_growth_checkpoint_b: u128,
    pub fee_owed_b: u64,
    pub reward_infos: [LiquidityPositionRewardInfo; NUM_REWARDS],
}

/// The new values of a position after its liquidity changed.
#[derive(Clone, Copy, Debug)]
pub struct LiquidityPositionUpdate {
    pub liquidity: u128,
    pub fee_growth_checkpoint_a: u128,
    pub fee_owed_a: u64,
    pub fee_growth_checkpoint_b: u128,
    pub fee_owed_b: u64,
    pub reward_infos: [LiquidityPositionRewardInfo; NUM_REWARDS],
}

pub open spec fn spec_open_position_result(market: Market, tick_lower_index: i32, tick_upper_index: i32) -> NormalResult<()> {
    let spacing = market.amm.tick_spacing;
    if !spec_is_usable_tick(tick_lower_index, spacing) || !spec_is_usable_tick(tick_upper_index, spacing)
        || tick_lower_index >= tick_upper_index {
        Err(ErrorCode::InvalidTickIndex)
    } else if spacing >= FULL_RANGE_ONLY_TICK_SPACING_THRESHOLD
        && (tick_lower_index != spec_full_range_indexes(spacing).0 || tick_upper_index != spec_full_range_indexes(spacing).1) {
        Err(ErrorCode::FullRangeOnlyPool)
    } else {
        Ok(())
    }
}

impl LiquidityPosition {
    /// A position is empty when it holds no liquidity and is owed no fee and no reward.
    pub fn is_position_empty(position: &LiquidityPosition) -> (r: bool)
        ensures
            r == (position.liquidity == 0 && position.fee_owed_a == 0 && position.fee_owed_b == 0
                && forall|i: int| 0 <= i < NUM_REWARDS ==> (#[trigger] position.reward_infos@[i]).amount_owed == 0),
    {
        let fees_not_owed = position.fee_owed_a == 0 && position.fee_owed_b == 0;
        let mut rewards_not_owed = true;
        let mut i: usize = 0;
        while i < NUM_REWARDS
            invariant
                i <= NUM_REWARDS,
                position.reward_infos@.len() == NUM_REWARDS,
                rewards_not_owed == (forall|k: int| 0 <= k < i ==> (#[trigger] position.reward_infos@[k]).amount_owed == 0),
            decreases NUM_REWARDS - i,
        {
            rewards_not_owed = rewards_not_owed && position.reward_infos[i].amount_owed == 0;
            i = i + 1;
        }
        position.liquidity == 0 && fees_not_owed && rewards_not_owed
    }

    /// Takes on the liquidity, fee checkpoints, fees owed and rewards of an update.
    pub fn update(&mut self, update: &LiquidityPositionUpdate)
        ensures
            *final(self) == (LiquidityPosition {
                liquidity: update.liquidity,
                fee_growth_checkpoint_a: update.fee_growth_checkpoint_a,
                fee_growth_checkpoint_b: update.fee_growth_checkpoint_b,
                fee_owed_a: update.fee_owed_a,
                fee_owed_b: update.fee_owed_b,
                reward_infos: update.reward_infos,
                ..*old(self)
            }),
    {
        self.liquidity = update.liquidity;
        self.fee_growth_checkpoint_a = update.fee_growth_checkpoint_a;
        self.fee_growth_checkpoint_b = update.fee_growth_checkpoint_b;
        self.fee_owed_a = update.fee_owed_a;
        self.fee_owed_b = update.fee_owed_b;
        self.reward_infos = update.reward_infos;
    }

    /// Opens the position in a market between two usable ticks, lower below upper; a pool of
    /// very wide spacing only takes the full range.
    pub fn open_position(
        &mut self,
        market: &Market,
        position_mint: [u8; 32],
        tick_lower_index: i32,
        tick_upper_index: i32,
    ) -> (r: NormalResult<()>)
        ensures
            r == spec_open_position_result(*market, tick_lower_index, tick_upper_index),
            r is Err ==> *final(self) == *old(self),
            r is Ok ==> *final(self) == (LiquidityPosition {
                market: market.pubkey,
                position_mint,
                tick_lower_index,
                tick_upper_index,
                ..*old(self)
            }),
    {
        let spacing = market.amm.tick_spacing;
        if !check_is_usable_tick(tick_lower_index, spacing) || !check_is_usable_tick(tick_upper_index, spacing)
            || tick_lower_index >= tick_upper_index {
            return Err(ErrorCode::InvalidTickIndex);
        }
        if spacing >= FULL_RANGE_ONLY_TICK_SPACING_THRESHOLD {
            let (full_range_lower_index, full_range_upper_index) = full_range_indexes(spacing);
            if tick_lower_index != full_range_lower_index || tick_upper_index != full_range_upper_index {
                return Err(ErrorCode::FullRangeOnlyPool);
            }
        }
        self.market = market.pubkey;
        self.position_mint = position_mint;
        self.tick_lower_index = tick_lower_index;
        self.tick_upper_index = tick_upper_index;
        Ok(())
    }

    pub fn reset_fees_owed(&mut self)
        ensures
            *final(self) == (LiquidityPosition { fee_owed_a: 0, fee_owed_b: 0, ..*old(self) }),
    {
        self.fee_owed_a = 0;
        self.fee_owed_b = 0;
    }

    pub fn update_reward_owed(&mut self, index: usize, amount_owed: u64)
        requires
            index < NUM_REWARDS,
        ensures
            final(self).reward_infos@ == old(self).reward_infos@.update(
                index as int, LiquidityPositionRewardInfo { amount_owed, ..old(self).reward_infos@[index as int] }),
            *final(self) == (LiquidityPosition { reward_infos: final(self).reward_infos, ..*old(self) }),
    {
        let mut info = self.reward_infos[index];
        info.amount_owed = amount_owed;
        self.reward_infos[index] = info;
    }
}

} // verus!
