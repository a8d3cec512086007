use vstd::prelude::*;

use crate::state::state::MarketType;

verus! {

/// The side of a scheduled order.
#[derive(Clone, Copy, PartialEq, Eq, Debug, Structural)]
pub enum OrderDirection {
    Buy,
    Sell,
}

impl Default for OrderDirection {
    fn default() -> (r: Self)
        ensures
            r == OrderDirection::Buy,
    {
        OrderDirection::Buy
    }
}

impl OrderDirection {
    pub open spec fn spec_opposite(self) -> OrderDirection {
        match self {
            OrderDirection::Buy => OrderDirection::Sell,
            OrderDirection::Sell => OrderDirection::Buy,
        }
    }

    pub fn opposite(&self) -> (r: Self)
        ensures
            r == self.spec_opposite(),
            r != *self,
    {
        match self {
            OrderDirection::Buy => OrderDirection::Sell,
            OrderDirection::Sell => OrderDirection::Buy,
        }
    }
}

/// Turning a direction around twice gives it back.
pub proof fn lemma_opposite_direction_involution(d: OrderDirection)
    ensures
        d.spec_opposite().spec_opposite() == d,
{
}

/// An order placed in equal parts over time.
#[derive(Clone, Copy, Debug)]
pub struct Schedule {
    pub market_type: MarketType,
    pub amm: [u8; 32],
    pub base_asset_amount_per_interval: u64,
    pub direction: OrderDirection,
    pub active: bool,
    pub interval_seconds: u64,
    pub total_orders: u16,
    pub min_price: Option<u16>,
    pub max_price: Option<u16>,
    pub executed_orders: u16,
    pub total_executed: u64,
    pub last_updated_ts: u64,
    pub last_order_ts: u64,
}

/// The parameters of a new schedule.
#[derive(Clone, Copy, PartialEq, Eq, Debug, Structural)]
pub struct ScheduleParams {
    pub base_asset_amount_per_interval: u64,
    pub direction: OrderDirection,
    pub base_asset_amount: u64,
    pub active: bool,
    pub interval_seconds: u64,
    pub total_orders: u16,
    pub min_price: Option<u64>,
    pub max_price: Option<u64>,
}

/// The changes to a schedule; `None` keeps a value.
#[derive(Clone, Copy, PartialEq, Eq, Debug, Structural)]
pub struct ModifyScheduleParams {
    pub direction: Option<OrderDirection>,
    pub base_asset_amount: Option<u64>,
    pub active: Option<bool>,
    pub interval_seconds: Option<u64>,
    pub min_price: Option<u64>,
    pub max_price: Option<u64>,
}

} // verus!
