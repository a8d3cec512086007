use vstd::prelude::*;

use crate::error::{ErrorCode, NormalResult};
use crate::math::arith::is_i64;
use crate::pubkey::{empty_key, keys_equal};
use crate::state::amm::AMM;
use crate::state::fund::{get_index_fund_price as fund_price, WeightingMethod};
use crate::state::insurance::InsuranceClaim;
use crate::state::market::MarketStatus;
use crate::state::oracle::{OraclePriceData, OracleSource};
use crate::state::pyth::{readable_price_update, spec_pull_price, try_read_pull_price};

verus! {

/// How the weights of an index market's assets are chosen.
pub type IndexWeighting = WeightingMethod;

/// Whether an index market can still be changed.
#[derive(Clone, Copy, PartialEq, Eq, Debug, Structural)]
pub enum IndexVisibility {
    /// mutable
    Private,
    /// immutable
    Public,
}

impl Default for IndexVisibility {
    fn default() -> (r: Self)
        ensures
            r == IndexVisibility::Private,
    {
        IndexVisibility::Private
    }
}

/// An asset of an index market.
#[derive(Clone, Copy, Debug)]
pub struct IndexAsset {
    pub mint: [u8; 32],
    pub vault: [u8; 32],
    pub market_index: u16,
    /// The asset's allocation in basis points
    pub weight: u16,
    pub last_updated_ts: i64,
}

/// A market for an index of assets.
#[derive(Clone, Debug)]
pub struct IndexMarket {
    /// The index market's address. It is a pda of the market index
    pub pubkey: [u8; 32],
    /// The owner/authority of the account
    pub authority: [u8; 32],
    /// An address that can control the account on the authority's behalf; can't withdraw
    pub delegate: [u8; 32],
    pub fee_authority: [u8; 32],
    pub whitelist_authority: [u8; 32],
    pub rebalance_authority: [u8; 32],
    pub market_index: u16,
    /// Encoded display name for the market
    pub name: [u8; 32],
    pub status: MarketStatus,
    pub paused_operations: u8,
    pub number_of_users: u32,
    pub oracle: [u8; 32],
    pub oracle_source: OracleSource,
    pub weighting: IndexWeighting,
    /// The assets, each under its key; no key occurs twice
    pub assets: Vec<([u8; 32], IndexAsset)>,
    pub visibility: IndexVisibility,
    /// Accounts allowed to purchase the index
    pub whitelist: Vec<[u8; 32]>,
    pub blacklist: Vec<[u8; 32]>,
    /// Total taker fee paid in basis points
    pub expense_ratio: u64,
    pub revenue_share: u64,
    pub protocol_fee_owed: u64,
    pub manager_fee_owed: u64,
    pub referral_fee_owed: u64,
    pub total_fees: u64,
    pub amm: AMM,
    /// The market's claim on the insurance fund
    pub insurance_claim: InsuranceClaim,
    /// The ts when the market will be expired. Only set if market is in reduce only mode
    pub expiry_ts: i64,
    /// The price at which positions will be settled; precision = PRICE_PRECISION
    pub expiry_price: i64,
    pub min_rebalance_ts: i64,
    pub rebalanced_ts: i64,
    pub updated_ts: i64,
}

/// The sum of the weights of the first `n` assets.
pub open spec fn index_weight_sum(assets: Seq<([u8; 32], IndexAsset)>, n: int) -> int
    decreases n,
{
    if n <= 0 { 0 } else { index_weight_sum(assets, n - 1) + assets[n - 1].1.weight }
}

/// The assets with the weight of the asset under `key` replaced.
pub open spec fn index_assets_with_weight(assets: Seq<([u8; 32], IndexAsset)>, key: [u8; 32], weight: u16) -> Seq<([u8; 32], IndexAsset)> {
    Seq::new(assets.len(), |i: int| if assets[i].0@ == key@ { (assets[i].0, IndexAsset { weight, ..assets[i].1 }) } else { assets[i] })
}

proof fn lemma_index_weight_sum_monotone(assets: Seq<([u8; 32], IndexAsset)>, n: int, m: int)
    requires
        0 <= n <= m,
    ensures
        index_weight_sum(assets, n) <= index_weight_sum(assets, m),
    decreases m - n,
{
    if m > n {
        lemma_index_weight_sum_monotone(assets, n, m - 1);
    }
}

impl Default for IndexMarket {
    fn default() -> (r: Self)
        ensures
            r.pubkey@ == empty_key(),
            r.authority@ == empty_key(),
            r.delegate@ == empty_key(),
            r.fee_authority@ == empty_key(),
            r.whitelist_authority@ == empty_key(),
            r.rebalance_authority@ == empty_key(),
            r.market_index == 0,
            r.name@ == empty_key(),
            r.status == MarketStatus::Initialized,
            r.paused_operations == 0,
            r.number_of_users == 0,
            r.oracle@ == empty_key(),
            r.oracle_source == OracleSource::Pyth,
            r.weighting == WeightingMethod::Equal,
            r.assets@.len() == 0,
            r.visibility == IndexVisibility::Private,
            r.whitelist@.len() == 0,
            r.blacklist@.len() == 0,
            r.expense_ratio == 0,
            r.revenue_share == 0,
            r.protocol_fee_owed == 0,
            r.manager_fee_owed == 0,
            r.referral_fee_owed == 0,
            r.total_fees == 0,
            r.amm.spec_is_default(),
            r.insurance_claim == (InsuranceClaim {
                revenue_withdraw_since_last_settle: 0,
                max_revenue_withdraw_per_period: 0,
                quote_max_insurance: 0,
                quote_settled_insurance: 0,
                last_revenue_withdraw_ts: 0,
            }),
            r.expiry_ts == 0,
            r.expiry_price == 0,
            r.min_rebalance_ts == 0,
            r.rebalanced_ts == 0,
            r.updated_ts == 0,
            r.well_formed(),
    {
        let r = IndexMarket {
            pubkey: [0u8; 32],
            authority: [0u8; 32],
            delegate: [0u8; 32],
            fee_authority: [0u8; 32],
            whitelist_authority: [0u8; 32],
            rebalance_authority: [0u8; 32],
            market_index: 0,
            name: [0u8; 32],
            status: MarketStatus::Initialized,
            paused_operations: 0,
            number_of_users: 0,
            oracle: [0u8; 32],
            oracle_source: OracleSource::Pyth,
            weighting: WeightingMethod::Equal,
            assets: Vec::new(),
            visibility: IndexVisibility::Private,
            whitelist: Vec::new(),
            blacklist: Vec::new(),
            expense_ratio: 0,
            revenue_share: 0,
            protocol_fee_owed: 0,
            manager_fee_owed: 0,
            referral_fee_owed: 0,
            total_fees: 0,
            amm: AMM::default(),
            insurance_claim: InsuranceClaim {
                revenue_withdraw_since_last_settle: 0,
                max_revenue_withdraw_per_period: 0,
                quote_max_insurance: 0,
                quote_settled_insurance: 0,
                last_revenue_withdraw_ts: 0,
            },
            expiry_ts: 0,
            expiry_price: 0,
            min_rebalance_ts: 0,
            rebalanced_ts: 0,
            updated_ts: 0,
        };
        proof {
            assert(r.pubkey@ =~= empty_key());
            assert(r.authority@ =~= empty_key());
            assert(r.delegate@ =~= empty_key());
            assert(r.fee_authority@ =~= empty_key());
            assert(r.whitelist_authority@ =~= empty_key());
            assert(r.rebalance_authority@ =~= empty_key());
            assert(r.name@ =~= empty_key());
            assert(r.oracle@ =~= empty_key());
        }
        r
    }
}

impl IndexMarket {
    /// No key occurs twice among the assets.
    pub open spec fn well_formed(&self) -> bool {
        forall|i: int, j: int| 0 <= i < j < self.assets@.len() ==> #[trigger] self.assets@[i].0@ != #[trigger] self.assets@[j].0@
    }

    /// Only whitelisted accounts may invest.
    pub fn can_invest(&self, account: [u8; 32]) -> (r: bool)
        ensures
            r == (exists|i: int| 0 <= i < self.whitelist@.len() && (#[trigger] self.whitelist@[i])@ == account@),
    {
        let mut i: usize = 0;
        while i < self.whitelist.len()
            invariant
                i <= self.whitelist.len(),
                forall|k: int| 0 <= k < i ==> (#[trigger] self.whitelist@[k])@ != account@,
            decreases self.whitelist.len() - i,
        {
            if keys_equal(&self.whitelist[i], &account) {
                return true;
            }
            i = i + 1;
        }
        false
    }

    pub fn can_rebalance(&self) -> (r: bool)
        ensures
            r == (self.rebalanced_ts > self.min_rebalance_ts),
    {
        self.rebalanced_ts > self.min_rebalance_ts
    }

    /// How long before `now` the market was last rebalanced, negated.
    pub fn time_since_last_rebalance(&self, now: i64) -> (r: NormalResult<i64>)
        ensures
            r == (if is_i64(self.rebalanced_ts - now) { Ok::<i64, ErrorCode>((self.rebalanced_ts - now) as i64) }
                else { Err(ErrorCode::MathError) }),
    {
        match self.rebalanced_ts.checked_sub(now) {
            Some(v) => Ok(v),
            None => Err(ErrorCode::MathError),
        }
    }

    pub fn total_assets(&self) -> (r: usize)
        ensures
            r == self.assets@.len(),
    {
        self.assets.len()
    }

    /// The sum of the assets' weights.
    pub fn get_total_weight(&self) -> (r: NormalResult<u16>)
        ensures
            r == (if index_weight_sum(self.assets@, self.assets@.len() as int) <= u16::MAX {
                Ok::<u16, ErrorCode>(index_weight_sum(self.assets@, self.assets@.len() as int) as u16)
            } else {
                Err(ErrorCode::MathError)
            }),
    {
        let mut total: u16 = 0;
        let mut i: usize = 0;
        while i < self.assets.len()
            invariant
                i <= self.assets.len(),
                total == index_weight_sum(self.assets@, i as int),
            decreases self.assets.len() - i,
        {
            total = match total.checked_add(self.assets[i].1.weight) {
                Some(v) => v,
                None => {
                    proof {
                        lemma_index_weight_sum_monotone(self.assets@, i + 1, self.assets@.len() as int);
                    }
                    return Err(ErrorCode::MathError);
                },
            };
            i = i + 1;
        }
        Ok(total)
    }

    /// Changes the visibility; a public index can no longer be changed. Returns whether it changed.
    pub fn update_visibility(&mut self, new_visibility: IndexVisibility) -> (r: bool)
        ensures
            old(self).visibility == IndexVisibility::Public ==> !r && *final(self) == *old(self),
            old(self).visibility != IndexVisibility::Public ==> r && *final(self) == (IndexMarket { visibility: new_visibility, ..*old(self) }),
    {
        let third_party_investors = true;
        if self.visibility == IndexVisibility::Public && third_party_investors {
            return false;
        }
        self.visibility = new_visibility;
        true
    }

    /// Sets the weight of the asset under `asset`; a public index, or a key with no asset, is
    /// left as it is.
    pub fn update_asset_weight(&mut self, asset: [u8; 32], new_weight: u16) -> (r: NormalResult<()>)
        ensures
            r is Ok,
            old(self).visibility == IndexVisibility::Public ==> *final(self) == *old(self),
            old(self).visibility != IndexVisibility::Public ==> *final(self) == (IndexMarket { assets: final(self).assets, ..*old(self) })
                && final(self).assets@ == index_assets_with_weight(old(self).assets@, asset, new_weight),
            old(self).well_formed() ==> final(self).well_formed(),
    {
        if self.visibility == IndexVisibility::Public {
            return Ok(());
        }
        let mut i: usize = 0;
        while i < self.assets.len()
            invariant
                i <= self.assets.len(),
                self.assets@.len() == old(self).assets@.len(),
                *self == (IndexMarket { assets: self.assets, ..*old(self) }),
                forall|k: int| 0 <= k < i ==> self.assets@[k] == index_assets_with_weight(old(self).assets@, asset, new_weight)[k],
                forall|k: int| i <= k < self.assets@.len() ==> self.assets@[k] == old(self).assets@[k],
            decreases self.assets.len() - i,
        {
            if keys_equal(&self.assets[i].0, &asset) {
                let (key, entry) = self.assets[i];
                self.assets.set(i, (key, IndexAsset { weight: new_weight, ..entry }));
            }
            i = i + 1;
        }
        proof {
            assert(self.assets@ =~= index_assets_with_weight(old(self).assets@, asset, new_weight));
        }
        Ok(())
    }
}

/// The price of an index market from its oracle's price update account (see
/// `fund::get_index_fund_price`).
pub fn get_index_fund_price(price_oracle: &[u8], clock_slot: u64, multiple: u128, is_pull_oracle: bool) -> (r: NormalResult<OraclePriceData>)
    requires
        readable_price_update(price_oracle@),
    ensures
        r == spec_pull_price(price_oracle@, clock_slot, multiple),
{
    fund_price(price_oracle, clock_slot, multiple, is_pull_oracle)
}

/// The price of an index market, or `None` when its oracle account is no readable price update.
pub fn try_get_index_market_price(price_oracle: &[u8], clock_slot: u64, multiple: u128) -> (r: Option<NormalResult<OraclePriceData>>)
    ensures
        readable_price_update(price_oracle@) ==> r == Some(spec_pull_price(price_oracle@, clock_slot, multiple)),
        !readable_price_update(price_oracle@) ==> r is None,
{
    if !try_read_pull_price(price_oracle) {
        return None;
    }
    Some(get_index_fund_price(price_oracle, clock_slot, multiple, true))
}

} // verus!
