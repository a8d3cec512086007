use vstd::prelude::*;

verus! {

/// Every way an operation of the protocol can be refused.
#[derive(Clone, Copy, PartialEq, Eq, Debug, Structural)]
pub enum ErrorCode {
    /// An arithmetic step overflowed, divided by zero or could not be cast.
    MathError,
    FailedUnwrap,
    DefaultError,
    InvalidOracle,
    UnableToLoadOracle,
    OracleNonPositive,
    OracleTooVolatile,
    OracleTooUncertain,
    OracleInsufficientDataPoints,
    OracleStaleForAMM,
    OracleDeserializeMessageFailed,
    OracleUnsupportedMessageType,
    InvalidAmmLimitPriceOverride,
    ImpossibleFill,
    PriceBandsBreached,
    InvalidOrderFillPrice,
    InvalidTriggerOrderCondition,
    InvalidPositionDelta,
    InvalidIFRebase,
    ProtocolFeeRateMaxExceeded,
    InvalidSpotFulfillmentParams,
    InvalidReferrer,
    ReferrerAndReferrerStatsAuthorityUnequal,
    InvalidUserSubAccountId,
    MaxNumberOfUsers,
    CantPayUserInitFee,
    CantReclaimRent,
    /// The user account may not be closed (sub account 0 of a referrer).
    UserCantBeDeleted,
    LiquidationsOngoing,
    MarketBeingInitialized,
    OracleNotFound,
    InvalidOracleOffset,
    FailedToGetLimitPrice,
    UserHasNoPositionInMarket,
    MarketNotFound,
    VaultNotFound,
    InsufficientCollateral,
    /// An account's data is too short to hold an account discriminator.
    AccountDiscriminatorNotFound,
    /// An account's data starts with the discriminator of another kind of account.
    AccountDiscriminatorMismatch,
    /// An account's data could not be read as the account it should be.
    AccountDidNotDeserialize,
    InvalidTickIndex,
    FullRangeOnlyPool,
    LiquidityZero,
    InvalidMarketAccount,
    MarketWrongMutability,
    CouldNotLoadMarketData,
}

pub type NormalResult<T> = Result<T, ErrorCode>;

} // verus!
