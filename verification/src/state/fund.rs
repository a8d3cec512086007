use vstd::prelude::*;

use crate::error::{ErrorCode, NormalResult};
use crate::math::arith::is_i64;
use crate::pubkey::keys_equal;
use crate::state::oracle::{OraclePriceData, OracleSource};
use crate::state::pyth::{get_pyth_price, readable_price_update, spec_pull_price, try_read_pull_price};

verus! {

/// How the weights of an index's assets are chosen.
#[derive(Clone, Copy, PartialEq, Eq, Debug, Structural)]
pub enum WeightingMethod {
    Equal,
    Custom,
    MarketCap,
    SquareRootMarketCap,
}

impl Default for WeightingMethod {
    fn default() -> (r: Self)
        ensures
            r == WeightingMethod::Equal,
    {
        WeightingMethod::Equal
    }
}

/// An asset of an index fund.
#[derive(Clone, Copy, PartialEq, Eq, Debug, Structural)]
pub struct FundAsset {
    /// The index of the market for this asset
    pub market_index: u16,
    /// The asset's allocation in basis points (i.e 10% = 1000)
    pub weight: u16,
}

/// An index fund: a weighted basket of assets, each under its own key.
#[derive(Clone, Debug)]
pub struct Fund {
    /// The address of the market. It is a pda of the market index
    pub pubkey: [u8; 32],
    pub admin: [u8; 32],
    /// The encoded display name for the index fund e.g. Top 10 Index
    pub name: [u8; 32],
    /// The oracle used to price the fund
    pub oracle: [u8; 32],
    pub oracle_source: OracleSource,
    pub weighting_method: WeightingMethod,
    /// The assets, each under its key; no key occurs twice
    pub assets: Vec<([u8; 32], FundAsset)>,
    /// The visibility of the index fund; public = immutable, global; private = mutable, local
    pub public: bool,
    /// precision: QUOTE_PRECISION
    pub manager_fee: u64,
    /// precision: QUOTE_PRECISION
    pub total_manager_fees: u64,
    pub min_rebalance_ts: i64,
    pub rebalanced_ts: i64,
    pub updated_ts: i64,
}

/// The sum of the weights of the first `n` assets.
pub open spec fn fund_weight_sum(assets: Seq<([u8; 32], FundAsset)>, n: int) -> int
    decreases n,
{
    if n <= 0 { 0 } else { fund_weight_sum(assets, n - 1) + assets[n - 1].1.weight }
}

/// The assets with the weight of the asset under `key` replaced.
pub open spec fn fund_assets_with_weight(assets: Seq<([u8; 32], FundAsset)>, key: [u8; 32], weight: u16) -> Seq<([u8; 32], FundAsset)> {
    Seq::new(assets.len(), |i: int| if assets[i].0@ == key@ { (assets[i].0, FundAsset { weight, ..assets[i].1 }) } else { assets[i] })
}

impl Fund {
    /// No key occurs twice among the assets.
    pub open spec fn well_formed(&self) -> bool {
        forall|i: int, j: int| 0 <= i < j < self.assets@.len() ==> #[trigger] self.assets@[i].0@ != #[trigger] self.assets@[j].0@
    }

    pub fn can_rebalance(&self) -> (r: bool)
        ensures
            r == (self.rebalanced_ts > self.min_rebalance_ts),
    {
        self.rebalanced_ts > self.min_rebalance_ts
    }

    /// How long before `now` the fund was last rebalanced, negated.
    pub fn time_since_last_rebalance(&self, now: i64) -> (r: NormalResult<i64>)
        ensures
            r == (if is_i64(self.rebalanced_ts - now) { Ok::<i64, ErrorCode>((self.rebalanced_ts - now) as i64) }
                else { Err(ErrorCode::MathError) }),
    {
        match self.rebalanced_ts.checked_sub(now) {
            Some(v) => Ok(v),
            None => Err(ErrorCode::MathError),
        }
    }

    pub fn total_assets(&self) -> (r: usize)
        ensures
            r == self.assets@.len(),
    {
        self.assets.len()
    }

    /// The sum of the assets' weights.
    pub fn get_total_weight(&self) -> (r: NormalResult<u16>)
        ensures
            r == (if fund_weight_sum(self.assets@, self.assets@.len() as int) <= u16::MAX {
                Ok::<u16, ErrorCode>(fund_weight_sum(self.assets@, self.assets@.len() as int) as u16)
            } else {
                Err(ErrorCode::MathError)
            }),
    {
        let mut total: u16 = 0;
        let mut i: usize = 0;
        while i < self.assets.len()
            invariant
                i <= self.assets.len(),
                total == fund_weight_sum(self.assets@, i as int),
                forall|k: int| 0 <= k <= i ==> fund_weight_sum(self.assets@, k) <= fund_weight_sum(self.assets@, i as int),
            decreases self.assets.len() - i,
        {
            total = match total.checked_add(self.assets[i].1.weight) {
                Some(v) => v,
                None => {
                    proof {
                        lemma_fund_weight_sum_monotone(self.assets@, i + 1, self.assets@.len() as int);
                    }
                    return Err(ErrorCode::MathError);
                },
            };
            i = i + 1;
        }
        Ok(total)
    }

    /// Changes the visibility; a public fund can no longer be changed. Returns whether it changed.
    pub fn update_visibility(&mut self, is_public: bool) -> (r: bool)
        ensures
            old(self).public ==> !r && *final(self) == *old(self),
            !old(self).public ==> r && *final(self) == (Fund { public: is_public, ..*old(self) }),
    {
        let third_party_investors = true;
        if self.public && third_party_investors {
            return false;
        }
        self.public = is_public;
        true
    }

    /// Sets the weight of the asset under `asset`; a public fund, or a key with no asset, is
    /// left as it is.
    pub fn update_asset_weight(&mut self, asset: [u8; 32], new_weight: u16) -> (r: NormalResult<()>)
        ensures
            r is Ok,
            old(self).public ==> *final(self) == *old(self),
            !old(self).public ==> *final(self) == (Fund { assets: final(self).assets, ..*old(self) })
                && final(self).assets@ == fund_assets_with_weight(old(self).assets@, asset, new_weight),
            old(self).well_formed() ==> final(self).well_formed(),
    {
        if self.public {
            return Ok(());
        }
        let mut i: usize = 0;
        while i < self.assets.len()
            invariant
                i <= self.assets.len(),
                self.assets@.len() == old(self).assets@.len(),
                *self == (Fund { assets: self.assets, ..*old(self) }),
                forall|k: int| 0 <= k < i ==> self.assets@[k] == fund_assets_with_weight(old(self).assets@, asset, new_weight)[k],
                forall|k: int| i <= k < self.assets@.len() ==> self.assets@[k] == old(self).assets@[k],
            decreases self.assets.len() - i,
        {
            if keys_equal(&self.assets[i].0, &asset) {
                let (key, entry) = self.assets[i];
                self.assets.set(i, (key, FundAsset { weight: new_weight, ..entry }));
            }
            i = i + 1;
        }
        proof {
            assert(self.assets@ =~= fund_assets_with_weight(old(self).assets@, asset, new_weight));
        }
        Ok(())
    }
}

proof fn lemma_fund_weight_sum_monotone(assets: Seq<([u8; 32], FundAsset)>, n: int, m: int)
    requires
        0 <= n <= m,
    ensures
        fund_weight_sum(assets, n) <= fund_weight_sum(assets, m),
    decreases m - n,
{
    if m > n {
        lemma_fund_weight_sum_monotone(assets, n, m - 1);
    }
}

/// The price of an index fund from its oracle's price update account, scaled to
/// PRICE_PRECISION after dividing the oracle's precision by `multiple`.
pub fn get_index_fund_price(price_oracle: &[u8], clock_slot: u64, multiple: u128, is_pull_oracle: bool) -> (r: NormalResult<OraclePriceData>)
    requires
        readable_price_update(price_oracle@),
    ensures
        r == spec_pull_price(price_oracle@, clock_slot, multiple),
{
    get_pyth_price(price_oracle, clock_slot, multiple)
}

/// The price of an index fund, or `None` when its oracle account is no readable price update.
pub fn try_get_index_fund_price(price_oracle: &[u8], clock_slot: u64, multiple: u128, is_pull_oracle: bool) -> (r: Option<NormalResult<OraclePriceData>>)
    ensures
        readable_price_update(price_oracle@) ==> r == Some(spec_pull_price(price_oracle@, clock_slot, multiple)),
        !readable_price_update(price_oracle@) ==> r is None,
{
    if !try_read_pull_price(price_oracle) {
        return None;
    }
    Some(get_index_fund_price(price_oracle, clock_slot, multiple, is_pull_oracle))
}

} // verus!
