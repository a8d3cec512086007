use vstd::prelude::*;

use crate::error::{ErrorCode, NormalResult};
use crate::state::market::Market;
use crate::state::order_params::{OrderActionExplanation, OrderSide};

verus! {

/// The direction of a taker's position change.
pub type PositionDirection = OrderSide;

/// What an outside venue filled of a taker order.
#[derive(Clone, Copy, PartialEq, Eq, Debug, Structural)]
pub struct ExternalSpotFill {
    pub base_asset_amount_filled: u64,
    pub quote_asset_amount_filled: u64,
    pub settled_referrer_rebate: u64,
    pub unsettled_referrer_rebate: u64,
    pub fee: u64,
}

/// A venue that can fill a taker's order.
pub trait FulfillmentParams {
    /// The venue's best bid and ask price, in PRICE_PRECISION
    fn get_best_bid_and_ask(&self) -> NormalResult<(Option<u64>, Option<u64>)>;

    /// Fills the taker order: its direction, price (PRICE_PRECISION), base amount and the most
    /// quote it pays (QUOTE_PRECISION)
    fn fulfill_order(
        &mut self,
        taker_direction: PositionDirection,
        taker_price: u64,
        taker_base_asset_amount: u64,
        taker_max_quote_asset_amount: u64,
    ) -> NormalResult<ExternalSpotFill>;

    /// The explanation to record of the order action
    fn get_order_action_explanation(&self) -> NormalResult<OrderActionExplanation>;

    /// Checks that each market's vault holds what the market's balances say
    fn validate_vault_amounts(&self, base_market: &Market, quote_market: &Market) -> NormalResult<()>;

    fn validate_markets(&self, base_market: &Market, quote_market: &Market) -> NormalResult<()>;
}

/// A venue for tests that fills nothing: every request is refused, and any pair of markets is
/// accepted.
pub struct TestFulfillmentParams {}

impl FulfillmentParams for TestFulfillmentParams {
    fn get_best_bid_and_ask(&self) -> (r: NormalResult<(Option<u64>, Option<u64>)>)
        ensures
            r == Err::<(Option<u64>, Option<u64>), ErrorCode>(ErrorCode::InvalidSpotFulfillmentParams),
    {
        Err(ErrorCode::InvalidSpotFulfillmentParams)
    }

    fn fulfill_order(
        &mut self,
        taker_direction: PositionDirection,
        taker_price: u64,
        taker_base_asset_amount: u64,
        taker_max_quote_asset_amount: u64,
    ) -> (r: NormalResult<ExternalSpotFill>)
        ensures
            r == Err::<ExternalSpotFill, ErrorCode>(ErrorCode::InvalidSpotFulfillmentParams),
    {
        Err(ErrorCode::InvalidSpotFulfillmentParams)
    }

    fn get_order_action_explanation(&self) -> (r: NormalResult<OrderActionExplanation>)
        ensures
            r == Err::<OrderActionExplanation, ErrorCode>(ErrorCode::InvalidSpotFulfillmentParams),
    {
        Err(ErrorCode::InvalidSpotFulfillmentParams)
    }

    fn validate_vault_amounts(&self, base_market: &Market, quote_market: &Market) -> (r: NormalResult<()>)
        ensures
            r == Err::<(), ErrorCode>(ErrorCode::InvalidSpotFulfillmentParams),
    {
        Err(ErrorCode::InvalidSpotFulfillmentParams)
    }

    fn validate_markets(&self, base_market: &Market, quote_market: &Market) -> (r: NormalResult<()>)
        ensures
            r is Ok,
    {
        Ok(())
    }
}

} // verus!
