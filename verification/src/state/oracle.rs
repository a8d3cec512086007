use vstd::prelude::*;

use crate::constants::PRICE_PRECISION_I64;
use crate::error::{ErrorCode, NormalResult};

verus! {

/// Oracle observations that the protocol keeps between updates.
#[derive(Clone, Copy, PartialEq, Eq, Debug, Structural)]
pub struct HistoricalOracleData {
    /// precision: PRICE_PRECISION
    pub last_oracle_price: i64,
    /// precision: PRICE_PRECISION
    pub last_oracle_conf: u64,
    /// number of slots since last update
    pub last_oracle_delay: i64,
    /// precision: PRICE_PRECISION
    pub last_oracle_price_twap: i64,
    /// precision: PRICE_PRECISION
    pub last_oracle_price_twap_5min: i64,
    /// unix_timestamp of last snapshot
    pub last_oracle_price_twap_ts: i64,
}

impl Default for HistoricalOracleData {
    fn default() -> (r: Self)
        ensures
            r == HistoricalOracleData::zero(),
    {
        HistoricalOracleData {
            last_oracle_price: 0,
            last_oracle_conf: 0,
            last_oracle_delay: 0,
            last_oracle_price_twap: 0,
            last_oracle_price_twap_5min: 0,
            last_oracle_price_twap_ts: 0,
        }
    }
}

impl HistoricalOracleData {
    pub open spec fn zero() -> HistoricalOracleData {
        HistoricalOracleData {
            last_oracle_price: 0,
            last_oracle_conf: 0,
            last_oracle_delay: 0,
            last_oracle_price_twap: 0,
            last_oracle_price_twap_5min: 0,
            last_oracle_price_twap_ts: 0,
        }
    }

    /// History of the quote asset: priced at one, with no delay.
    pub fn default_quote_oracle() -> (r: Self)
        ensures
            r == (HistoricalOracleData {
                last_oracle_price: PRICE_PRECISION_I64,
                last_oracle_price_twap_5min: PRICE_PRECISION_I64,
                ..HistoricalOracleData::zero()
            }),
    {
        HistoricalOracleData {
            last_oracle_price: PRICE_PRECISION_I64,
            last_oracle_conf: 0,
            last_oracle_delay: 0,
            last_oracle_price_twap_5min: PRICE_PRECISION_I64,
            ..HistoricalOracleData::default()
        }
    }

    /// History seeded with `price`, ten slots old.
    pub fn default_price(price: i64) -> (r: Self)
        ensures
            r == (HistoricalOracleData {
                last_oracle_price: price,
                last_oracle_delay: 10,
                last_oracle_price_twap_5min: price,
                ..HistoricalOracleData::zero()
            }),
    {
        HistoricalOracleData {
            last_oracle_price: price,
            last_oracle_conf: 0,
            last_oracle_delay: 10,
            last_oracle_price_twap_5min: price,
            ..HistoricalOracleData::default()
        }
    }

    /// History seeded with a current oracle reading.
    pub fn default_with_current_oracle(oracle_price_data: OraclePriceData) -> (r: Self)
        ensures
            r == (HistoricalOracleData {
                last_oracle_price: oracle_price_data.price,
                last_oracle_conf: oracle_price_data.confidence,
                last_oracle_delay: oracle_price_data.delay,
                last_oracle_price_twap_5min: oracle_price_data.price,
                ..HistoricalOracleData::zero()
            }),
    {
        HistoricalOracleData {
            last_oracle_price: oracle_price_data.price,
            last_oracle_conf: oracle_price_data.confidence,
            last_oracle_delay: oracle_price_data.delay,
            last_oracle_price_twap_5min: oracle_price_data.price,
            ..HistoricalOracleData::default()
        }
    }
}

/// Provider and scale of an oracle account.
#[derive(Clone, Copy, PartialEq, Eq, Debug, Structural)]
pub enum OracleSource {
    Pyth,
    QuoteAsset,
    Pyth1K,
    Pyth1M,
    PythStableCoin,
    PythPull,
    Pyth1KPull,
    Pyth1MPull,
    PythStableCoinPull,
}

impl Default for OracleSource {
    fn default() -> (r: Self)
        ensures
            r == OracleSource::Pyth,
    {
        OracleSource::Pyth
    }
}

/// One oracle reading, scaled to PRICE_PRECISION.
#[derive(Clone, Copy, PartialEq, Eq, Debug, Structural)]
pub struct OraclePriceData {
    pub price: i64,
    pub confidence: u64,
    pub delay: i64,
    pub has_sufficient_number_of_data_points: bool,
}

impl OraclePriceData {
    /// The reading of the quote asset: one dollar, exactly.
    pub fn default_usd() -> (r: Self)
        ensures
            r == (OraclePriceData {
                price: PRICE_PRECISION_I64,
                confidence: 1,
                delay: 0,
                has_sufficient_number_of_data_points: true,
            }),
    {
        OraclePriceData {
            price: PRICE_PRECISION_I64,
            confidence: 1,
            delay: 0,
            has_sufficient_number_of_data_points: true,
        }
    }
}

/// The current oracle price together with the 5 minute twap when strict pricing is on.
#[derive(Clone, Copy, PartialEq, Eq, Debug, Structural)]
pub struct StrictOraclePrice {
    pub current: i64,
    pub twap_5min: Option<i64>,
}

impl StrictOraclePrice {
    pub open spec fn spec_max(self) -> i64 {
        match self.twap_5min {
            Some(twap) => if self.current >= twap { self.current } else { twap },
            None => self.current,
        }
    }

    pub open spec fn spec_min(self) -> i64 {
        match self.twap_5min {
            Some(twap) => if self.current <= twap { self.current } else { twap },
            None => self.current,
        }
    }

    pub fn new(price: i64, twap_5min: i64, enabled: bool) -> (r: Self)
        ensures
            r.current == price,
            r.twap_5min == (if enabled { Some(twap_5min) } else { None::<i64> }),
    {
        StrictOraclePrice { current: price, twap_5min: if enabled { Some(twap_5min) } else { None } }
    }

    /// The larger of the current price and the twap.
    pub fn max(&self) -> (r: i64)
        ensures
            r == self.spec_max(),
    {
        match self.twap_5min {
            Some(twap) => if self.current >= twap { self.current } else { twap },
            None => self.current,
        }
    }

    /// The smaller of the current price and the twap.
    pub fn min(&self) -> (r: i64)
        ensures
            r == self.spec_min(),
    {
        match self.twap_5min {
            Some(twap) => if self.current <= twap { self.current } else { twap },
            None => self.current,
        }
    }

    /// Accepts the price only when the current price and the twap, if any, are positive.
    pub fn validate(&self) -> (r: NormalResult<()>)
        ensures
            r is Ok <==> (self.current > 0 && (self.twap_5min matches Some(t) ==> t > 0)),
            r is Err ==> r == Err::<(), ErrorCode>(ErrorCode::InvalidOracle),
    {
        if self.current <= 0 {
            return Err(ErrorCode::InvalidOracle);
        }
        if let Some(twap) = self.twap_5min {
            if twap <= 0 {
                return Err(ErrorCode::InvalidOracle);
            }
        }
        Ok(())
    }

    /// A strict price without a twap.
    pub fn test(price: i64) -> (r: Self)
        ensures
            r == (StrictOraclePrice { current: price, twap_5min: None }),
    {
        StrictOraclePrice { current: price, twap_5min: None }
    }
}

/// The smaller strict price never exceeds the larger, and both bracket the current price.
pub proof fn lemma_strict_price_bounds(p: StrictOraclePrice)
    ensures
        p.spec_min() <= p.current <= p.spec_max(),
{
}

} // verus!
