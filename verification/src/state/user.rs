use vstd::prelude::*;

use crate::state::order_params::OrderSide;
use crate::state::state::MarketType;
use crate::constants::QUOTE_PRECISION_U64;
use crate::error::{ErrorCode, NormalResult};
use crate::math::arith::{is_i64, is_u64, unsigned_abs_i64};
use crate::state::user_stats::UserStats;

verus! {

#[derive(Clone, Copy, PartialEq, Eq, Debug, Structural)]
pub enum OrderStatus {
    Init,
    Open,
    Filled,
    Canceled,
}

#[derive(Clone, Copy, PartialEq, Eq, Debug, Structural)]
pub enum OrderType {
    Market,
    TriggerMarket,
    Limit,
    TriggerLimit,
}

#[derive(Clone, Copy, PartialEq, Eq, Debug, Structural)]
pub enum OrderTriggerCondition {
    Above,
    Below,
    TriggeredAbove,
    TriggeredBelow,
}

/// An order of a user, as the order book keeps it.
#[derive(Clone, Copy, PartialEq, Eq, Debug, Structural)]
pub struct Order {
    pub status: OrderStatus,
    pub order_type: OrderType,
    pub market_type: MarketType,
    /// The slot the order was placed
    pub slot: u64,
    /// Unix timestamp after which the order expires; 0 when it never does
    pub max_ts: i64,
    /// The limit price; precision: PRICE_PRECISION
    pub price: u64,
    pub base_asset_amount: u64,
    pub base_asset_amount_filled: u64,
    pub trigger_price: u64,
    pub auction_start_price: i64,
    pub auction_end_price: i64,
    pub market_index: u16,
    pub side: OrderSide,
    pub reduce_only: bool,
    pub post_only: bool,
    pub immediate_or_cancel: bool,
    pub trigger_condition: OrderTriggerCondition,
    /// How many slots the auction lasts
    pub auction_duration: u8,
    /// Offset from the oracle price that makes the limit price; zero when the order has a fixed price
    pub oracle_price_offset: i32,
}

impl Order {
    pub open spec fn spec_must_be_triggered(self) -> bool {
        self.order_type == OrderType::TriggerMarket || self.order_type == OrderType::TriggerLimit
    }

    pub open spec fn spec_triggered(self) -> bool {
        self.trigger_condition == OrderTriggerCondition::TriggeredAbove
            || self.trigger_condition == OrderTriggerCondition::TriggeredBelow
    }

    pub open spec fn spec_is_limit_order(self) -> bool {
        self.order_type == OrderType::Limit || self.order_type == OrderType::TriggerLimit
    }

    /// Whether the order only executes once its trigger fires.
    pub fn must_be_triggered(&self) -> (r: bool)
        ensures
            r == self.spec_must_be_triggered(),
    {
        match self.order_type {
            OrderType::TriggerMarket | OrderType::TriggerLimit => true,
            _ => false,
        }
    }

    /// Whether the trigger of the order has fired.
    pub fn triggered(&self) -> (r: bool)
        ensures
            r == self.spec_triggered(),
    {
        match self.trigger_condition {
            OrderTriggerCondition::TriggeredAbove | OrderTriggerCondition::TriggeredBelow => true,
            _ => false,
        }
    }

    pub fn is_limit_order(&self) -> (r: bool)
        ensures
            r == self.spec_is_limit_order(),
    {
        match self.order_type {
            OrderType::Limit | OrderType::TriggerLimit => true,
            _ => false,
        }
    }

    /// The amount still to fill; a reduce only order (that is not post only) is capped
    /// by what it can reduce of the existing position.
    pub open spec fn spec_base_asset_amount_unfilled(self, existing_position: Option<i64>) -> Result<u64, crate::error::ErrorCode> {
        if self.base_asset_amount < self.base_asset_amount_filled {
            Err(crate::error::ErrorCode::MathError)
        } else {
            let unfilled = (self.base_asset_amount - self.base_asset_amount_filled) as u64;
            match existing_position {
                None => Ok(unfilled),
                Some(p) => if !self.reduce_only || self.post_only {
                    Ok(unfilled)
                } else if p == 0 {
                    Ok(0)
                } else if (self.side == OrderSide::Buy && p > 0) || (self.side == OrderSide::Sell && p < 0) {
                    Ok(0)
                } else {
                    let a: int = if p < 0 { -p } else { p as int };
                    Ok(if unfilled <= a { unfilled } else { a as u64 })
                },
            }
        }
    }

    pub fn get_base_asset_amount_unfilled(&self, existing_position: Option<i64>) -> (r: Result<u64, crate::error::ErrorCode>)
        ensures
            r == self.spec_base_asset_amount_unfilled(existing_position),
    {
        if self.base_asset_amount < self.base_asset_amount_filled {
            return Err(crate::error::ErrorCode::MathError);
        }
        let unfilled = self.base_asset_amount - self.base_asset_amount_filled;
        let p = match existing_position {
            None => return Ok(unfilled),
            Some(p) => p,
        };
        if !self.reduce_only || self.post_only {
            return Ok(unfilled);
        }
        if p == 0 {
            return Ok(0);
        }
        match self.side {
            OrderSide::Buy => if p > 0 {
                return Ok(0);
            },
            OrderSide::Sell => if p < 0 {
                return Ok(0);
            },
        }
        let a: u64 = unsigned_abs_i64(p);
        Ok(if unfilled <= a { unfilled } else { a })
    }
}


/// A user's position in a market's synthetic asset.
#[derive(Clone, Copy, PartialEq, Eq, Debug, Structural)]
pub struct PerpPosition {
    /// precision: AMM_RESERVE_PRECISION
    pub base_asset_amount: i64,
    /// precision: QUOTE_PRECISION
    pub quote_asset_amount: i64,
    /// Base amount below a whole order step, not yet settled
    pub remainder_base_asset_amount: i32,
    pub open_bids: i64,
    pub open_asks: i64,
    pub market_index: u16,
}

impl PerpPosition {
    pub fn base_asset_amount(&self) -> (r: i64)
        ensures
            r == self.base_asset_amount,
    {
        self.base_asset_amount
    }
}


/// Status flags of a user or vault account, one bit each.
#[derive(Clone, Copy, PartialEq, Eq, Debug, Structural)]
pub enum UserStatus {
    BeingLiquidated,
    Bankrupt,
    ReduceOnly,
}

impl UserStatus {
    pub open spec fn spec_bit(self) -> u8 {
        match self {
            UserStatus::BeingLiquidated => 1,
            UserStatus::Bankrupt => 2,
            UserStatus::ReduceOnly => 4,
        }
    }

    pub fn bit(self) -> (r: u8)
        ensures
            r == self.spec_bit(),
    {
        match self {
            UserStatus::BeingLiquidated => 1,
            UserStatus::Bankrupt => 2,
            UserStatus::ReduceOnly => 4,
        }
    }
}

/// How status bytes combine: setting or clearing one flag leaves the others as they were.
pub proof fn lemma_status_bits(s: u8)
    by (bit_vector)
    ensures
        (s | 1u8) & 3u8 != 0,
        (s | 1u8) & 4u8 == s & 4u8,
        (s | 4u8) & 4u8 != 0,
        (s | 4u8) & 3u8 == s & 3u8,
        (s | 4u8) & 2u8 == s & 2u8,
        (s & !4u8) & 4u8 == 0,
        (s & !4u8) & 3u8 == s & 3u8,
        (s & !4u8) & 2u8 == s & 2u8,
        ((s & !1u8) & !2u8) & 3u8 == 0,
        ((s & !1u8) & !2u8) & 4u8 == s & 4u8,
        ((s & !1u8) | 2u8) & 3u8 != 0,
        ((s & !1u8) | 2u8) & 2u8 != 0,
        ((s & !1u8) | 2u8) & 4u8 == s & 4u8,
        (s | 2u8) & 2u8 != 0,
        (s & !2u8) & 2u8 == 0,
        (s | 1u8) & 2u8 == s & 2u8,
        (s & 3u8 != 0) == (s & 1u8 != 0 || s & 2u8 != 0),
        ((s & !1u8) & !2u8) & 2u8 == 0,
        (1u8 | 2u8) == 3u8,
{
}

/// A trading account of the protocol.
#[derive(Clone, Debug)]
pub struct User {
    /// The owner/authority of the account
    pub authority: [u8; 32],
    /// An address that can control the account on the authority's behalf; can't withdraw
    pub delegate: [u8; 32],
    /// Encoded display name e.g. "toly"
    pub name: [u8; 32],
    /// precision: QUOTE_PRECISION
    pub total_deposits: u64,
    /// precision: QUOTE_PRECISION
    pub total_withdraws: u64,
    /// precision: QUOTE_PRECISION
    pub total_social_loss: u64,
    /// precision: QUOTE_PRECISION
    pub cumulative_swap_fees: i64,
    /// The amount of margin freed during liquidation; zero when not being liquidated
    pub liquidation_margin_freed: u64,
    /// The last slot a user was active. Used to determine if a user is idle
    pub last_active_slot: u64,
    /// Custom max initial margin ratio for the user
    pub max_margin_ratio: u32,
    /// The next liquidation id to be used for user
    pub next_liquidation_id: u16,
    /// The sub account id for this user
    pub sub_account_id: u16,
    /// Whether the user is active, being liquidated or bankrupt
    pub status: u8,
    /// Off-chain keeper bots can ignore users that are idle
    pub idle: bool,
    /// The user's orders
    pub orders: Vec<Order>,
    /// The user's positions
    pub positions: Vec<PerpPosition>,
}

pub open spec fn spec_is_being_liquidated(status: u8) -> bool {
    status & 3u8 != 0
}

pub open spec fn spec_is_bankrupt(status: u8) -> bool {
    status & 2u8 != 0
}

pub open spec fn spec_is_reduce_only(status: u8) -> bool {
    status & 4u8 != 0
}

/// The id handed out by an id counter, and the counter after it (wrapping past the top to 1).
pub open spec fn next_id(id: u16) -> u16 {
    if id == u16::MAX { 1 } else { (id + 1) as u16 }
}

pub open spec fn spec_deposit_value(amount: u64, price: i64, precision: u128) -> NormalResult<u64> {
    let v = amount * price;
    if price < 0 || precision == 0 || !is_u64(v / precision as int) {
        Err(ErrorCode::MathError)
    } else {
        Ok((v / precision as int) as u64)
    }
}

impl User {
    /// Being liquidated or bankrupt.
    pub fn is_being_liquidated(&self) -> (r: bool)
        ensures
            r == spec_is_being_liquidated(self.status),
    {
        proof {
            lemma_status_bits(self.status);
        }
        self.status & (UserStatus::BeingLiquidated.bit() | UserStatus::Bankrupt.bit()) > 0
    }

    pub fn is_bankrupt(&self) -> (r: bool)
        ensures
            r == spec_is_bankrupt(self.status),
    {
        self.status & UserStatus::Bankrupt.bit() > 0
    }

    pub fn is_reduce_only(&self) -> (r: bool)
        ensures
            r == spec_is_reduce_only(self.status),
    {
        self.status & UserStatus::ReduceOnly.bit() > 0
    }

    pub fn add_user_status(&mut self, status: UserStatus)
        ensures
            *final(self) == (User { status: old(self).status | status.spec_bit(), ..*old(self) }),
    {
        self.status = self.status | status.bit();
    }

    pub fn remove_user_status(&mut self, status: UserStatus)
        ensures
            *final(self) == (User { status: old(self).status & !status.spec_bit(), ..*old(self) }),
    {
        self.status = self.status & !status.bit();
    }

    /// Quote value of `amount` at `price`, `amount * price / precision`.
    pub fn get_deposit_value(&mut self, amount: u64, price: i64, precision: u128) -> (r: NormalResult<u64>)
        ensures
            r == spec_deposit_value(amount, price, precision),
            *final(self) == *old(self),
    {
        if price < 0 {
            return Err(ErrorCode::MathError);
        }
        proof {
            assert(amount * price <= u64::MAX as int * i64::MAX as int) by (nonlinear_arith)
                requires 0 <= amount <= u64::MAX, 0 <= price <= i64::MAX;
        }
        let v = (amount as u128) * (price as u128);
        if precision == 0 {
            return Err(ErrorCode::MathError);
        }
        let value = v / precision;
        if value > u64::MAX as u128 {
            return Err(ErrorCode::MathError);
        }
        Ok(value as u64)
    }

    /// Adds the value of a deposit to the total deposits, saturating.
    pub fn increment_total_deposits(&mut self, amount: u64, price: i64, precision: u128) -> (r: NormalResult<()>)
        ensures
            match spec_deposit_value(amount, price, precision) {
                Err(e) => r == Err::<(), ErrorCode>(e) && *final(self) == *old(self),
                Ok(v) => r is Ok && *final(self) == (User {
                    total_deposits: if old(self).total_deposits + v > u64::MAX { u64::MAX } else { (old(self).total_deposits + v) as u64 },
                    ..*old(self)
                }),
            },
    {
        let value = self.get_deposit_value(amount, price, precision)?;
        self.total_deposits = self.total_deposits.saturating_add(value);
        Ok(())
    }

    /// Adds the value of a withdrawal to the total withdrawals, saturating.
    pub fn increment_total_withdraws(&mut self, amount: u64, price: i64, precision: u128) -> (r: NormalResult<()>)
        ensures
            match spec_deposit_value(amount, price, precision) {
                Err(e) => r == Err::<(), ErrorCode>(e) && *final(self) == *old(self),
                Ok(v) => r is Ok && *final(self) == (User {
                    total_withdraws: if old(self).total_withdraws + v > u64::MAX { u64::MAX } else { (old(self).total_withdraws + v) as u64 },
                    ..*old(self)
                }),
            },
    {
        let value = self.get_deposit_value(amount, price, precision)?;
        self.total_withdraws = self.total_withdraws.saturating_add(value);
        Ok(())
    }

    pub fn increment_total_socialized_loss(&mut self, value: u64) -> (r: NormalResult<()>)
        ensures
            r is Ok,
            *final(self) == (User {
                total_social_loss: if old(self).total_social_loss + value > u64::MAX { u64::MAX } else { (old(self).total_social_loss + value) as u64 },
                ..*old(self)
            }),
    {
        self.total_social_loss = self.total_social_loss.saturating_add(value);
        Ok(())
    }

    pub fn update_cumulative_swap_fees(&mut self, amount: i64) -> (r: NormalResult<()>)
        ensures
            is_i64(old(self).cumulative_swap_fees + amount) ==> r is Ok
                && *final(self) == (User { cumulative_swap_fees: (old(self).cumulative_swap_fees + amount) as i64, ..*old(self) }),
            !is_i64(old(self).cumulative_swap_fees + amount) ==> r == Err::<(), ErrorCode>(ErrorCode::MathError)
                && *final(self) == *old(self),
    {
        self.cumulative_swap_fees = match self.cumulative_swap_fees.checked_add(amount) {
            Some(v) => v,
            None => return Err(ErrorCode::MathError),
        };
        Ok(())
    }

    /// Puts the user into liquidation and hands out a new liquidation id; a user already being
    /// liquidated keeps its liquidation and gets the id of it back.
    pub fn enter_liquidation(&mut self, slot: u64) -> (r: NormalResult<u16>)
        ensures
            spec_is_being_liquidated(old(self).status) ==> *final(self) == *old(self) && r == (
                if old(self).next_liquidation_id == 0 { Err(ErrorCode::MathError) } else { Ok((old(self).next_liquidation_id - 1) as u16) }),
            !spec_is_being_liquidated(old(self).status) ==> r == Ok::<u16, ErrorCode>(old(self).next_liquidation_id)
                && *final(self) == (User {
                    status: old(self).status | 1u8,
                    liquidation_margin_freed: 0,
                    last_active_slot: slot,
                    next_liquidation_id: next_id(old(self).next_liquidation_id),
                    ..*old(self)
                }),
            spec_is_being_liquidated(final(self).status),
    {
        if self.is_being_liquidated() {
            if self.next_liquidation_id == 0 {
                return Err(ErrorCode::MathError);
            }
            return Ok(self.next_liquidation_id - 1);
        }
        self.add_user_status(UserStatus::BeingLiquidated);
        self.liquidation_margin_freed = 0;
        self.last_active_slot = slot;
        let current_id = self.next_liquidation_id;
        self.next_liquidation_id = if current_id == u16::MAX { 1 } else { current_id + 1 };
        proof {
            lemma_status_bits(old(self).status);
        }
        Ok(current_id)
    }

    /// Ends a liquidation (and any bankruptcy), releasing the margin freed.
    pub fn exit_liquidation(&mut self)
        ensures
            *final(self) == (User { status: (old(self).status & !1u8) & !2u8, liquidation_margin_freed: 0, ..*old(self) }),
            !spec_is_being_liquidated(final(self).status),
            spec_is_reduce_only(final(self).status) == spec_is_reduce_only(old(self).status),
    {
        self.remove_user_status(UserStatus::BeingLiquidated);
        self.remove_user_status(UserStatus::Bankrupt);
        self.liquidation_margin_freed = 0;
        proof {
            lemma_status_bits(old(self).status);
        }
    }

    /// Marks the user bankrupt (which counts as being liquidated).
    pub fn enter_bankruptcy(&mut self)
        ensures
            *final(self) == (User { status: (old(self).status & !1u8) | 2u8, ..*old(self) }),
            spec_is_bankrupt(final(self).status),
            spec_is_being_liquidated(final(self).status),
            spec_is_reduce_only(final(self).status) == spec_is_reduce_only(old(self).status),
    {
        self.remove_user_status(UserStatus::BeingLiquidated);
        self.add_user_status(UserStatus::Bankrupt);
        proof {
            lemma_status_bits(old(self).status);
        }
    }

    pub fn exit_bankruptcy(&mut self)
        ensures
            *final(self) == (User { status: (old(self).status & !1u8) & !2u8, liquidation_margin_freed: 0, ..*old(self) }),
            !spec_is_being_liquidated(final(self).status),
            !spec_is_bankrupt(final(self).status),
    {
        self.remove_user_status(UserStatus::BeingLiquidated);
        self.remove_user_status(UserStatus::Bankrupt);
        self.liquidation_margin_freed = 0;
        proof {
            lemma_status_bits(old(self).status);
        }
    }

    pub fn increment_margin_freed(&mut self, margin_free: u64) -> (r: NormalResult<()>)
        ensures
            is_u64(old(self).liquidation_margin_freed + margin_free) ==> r is Ok
                && *final(self) == (User { liquidation_margin_freed: (old(self).liquidation_margin_freed + margin_free) as u64, ..*old(self) }),
            !is_u64(old(self).liquidation_margin_freed + margin_free) ==> r == Err::<(), ErrorCode>(ErrorCode::MathError)
                && *final(self) == *old(self),
    {
        self.liquidation_margin_freed = match self.liquidation_margin_freed.checked_add(margin_free) {
            Some(v) => v,
            None => return Err(ErrorCode::MathError),
        };
        Ok(())
    }

    /// Marks the user active at `slot` (the slot is frozen during liquidation).
    pub fn update_last_active_slot(&mut self, slot: u64)
        ensures
            *final(self) == (User {
                last_active_slot: if spec_is_being_liquidated(old(self).status) { old(self).last_active_slot } else { slot },
                idle: false,
                ..*old(self)
            }),
    {
        if !self.is_being_liquidated() {
            self.last_active_slot = slot;
        }
        self.idle = false;
    }

    /// A user active in the last 50 slots that has withdrawn at least $10M while paying fees of
    /// less than 0.01% of it.
    pub fn qualifies_for_withdraw_fee(&self, user_stats: &UserStats, slot: u64) -> (r: bool)
        ensures
            r == (slot - self.last_active_slot < 50
                && self.total_withdraws >= 10_000_000_000_000
                && self.total_withdraws as int / (if user_stats.fees.total_fee_paid >= 1 { user_stats.fees.total_fee_paid as int } else { 1 }) > 10_000),
    {
        if slot.saturating_sub(self.last_active_slot) >= 50 {
            return false;
        }
        let min_total_withdraws = 10_000_000 * QUOTE_PRECISION_U64;
        let fee_paid = if user_stats.fees.total_fee_paid >= 1 { user_stats.fees.total_fee_paid } else { 1 };
        self.total_withdraws >= min_total_withdraws && self.total_withdraws / fee_paid > 10_000
    }

    /// Sets or clears the reduce only flag, leaving the liquidation flags alone.
    pub fn update_reduce_only_status(&mut self, reduce_only: bool) -> (r: NormalResult<()>)
        ensures
            r is Ok,
            *final(self) == (User {
                status: if reduce_only { old(self).status | 4u8 } else { old(self).status & !4u8 },
                ..*old(self)
            }),
            spec_is_reduce_only(final(self).status) == reduce_only,
            spec_is_being_liquidated(final(self).status) == spec_is_being_liquidated(old(self).status),
            spec_is_bankrupt(final(self).status) == spec_is_bankrupt(old(self).status),
    {
        if reduce_only {
            self.add_user_status(UserStatus::ReduceOnly);
        } else {
            self.remove_user_status(UserStatus::ReduceOnly);
        }
        proof {
            lemma_status_bits(old(self).status);
        }
        Ok(())
    }
}

} // verus!
