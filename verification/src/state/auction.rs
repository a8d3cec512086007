use vstd::prelude::*;

verus! {

/// What an auction sells.
#[derive(Clone, Copy, PartialEq, Eq, Debug, Structural)]
pub enum AuctionType {
    /// selling collateral from a Vault liquidation
    Collateral,
    /// selling newly minted tokens to cover Protocol Debt (the deficit from Collateral Auctions)
    Debt,
    /// selling excess synthetic token proceeds over the Insurance Fund max limit for tokens to be burned
    Surplus,
}

impl Default for AuctionType {
    fn default() -> (r: Self)
        ensures
            r == AuctionType::Collateral,
    {
        AuctionType::Collateral
    }
}

/// Where collateral auctions take place.
#[derive(Clone, Copy, PartialEq, Eq, Debug, Structural)]
pub enum AuctionPreference {
    /// a local secondary market
    Private,
    /// an outside exchange
    External,
}

impl Default for AuctionPreference {
    fn default() -> (r: Self)
        ensures
            r == AuctionPreference::Private,
    {
        AuctionPreference::Private
    }
}

/// How auctions are held.
#[derive(Clone, Copy, PartialEq, Eq, Debug, Structural)]
pub struct AuctionConfig {
    /// where collateral auctions should take place
    pub auction_location: AuctionPreference,
    /// Maximum time allowed for the auction to complete.
    pub auction_duration: u16,
    /// How quickly the starting price decreases during the auction if there are no bids.
    pub auction_bid_decrease_rate: u16,
    /// May be capped to prevent overly large auctions that could affect the market price.
    pub max_auction_lot_size: u64,
}

} // verus!
