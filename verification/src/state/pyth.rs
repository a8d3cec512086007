use vstd::prelude::*;

use anchor_lang::error::{Error as AnchorError, ErrorCode as AnchorErrorCode};
use anchor_lang::AccountDeserialize;
use pyth_solana_receiver_sdk::price_update::PriceUpdateV2;
use pythnet_sdk::messages::Message;
use pythnet_sdk::wire::from_slice;

use crate::constants::{PRICE_PRECISION, PRICE_PRECISION_I64};
use crate::error::{ErrorCode, NormalResult};
use crate::math::arith::{abs_int, is_i64, is_u64, min_int, pow10, pow10_u128, tdiv};
use crate::state::oracle::{OraclePriceData, OracleSource};
use crate::state::amm::AMM;

verus! {

// ---------------------------------------------------------------------------
// Reading Pyth accounts and messages
// ---------------------------------------------------------------------------

/// What the logic reads of a Pyth price update account.
#[derive(Clone, Copy, PartialEq, Eq, Debug, Structural)]
pub struct PythPriceUpdate {
    pub price: i64,
    pub conf: u64,
    pub exponent: i32,
    pub publish_time: i64,
    pub ema_price: i64,
    /// The slot at which the update was posted
    pub posted_slot: u64,
}

/// The price update that an account's data holds, or why the data is not a price update
/// account: too short for a discriminator, another account's discriminator, or contents that do
/// not decode.
pub uninterp spec fn pyth_price_update_v2(data: Seq<u8>) -> NormalResult<PythPriceUpdate>;

/// Calls `AccountDeserialize::try_deserialize` of `pyth_solana_receiver_sdk`'s `PriceUpdateV2`
/// (discriminator check, then borsh) on the account data, and tells its three errors apart
/// (discriminator not found, discriminator mismatch, anything else: did not deserialize).
/// Claimed: the result depends on the bytes alone and is named `pyth_price_update_v2`; nothing
/// is claimed of which byte strings decode or which error a given string gives.
#[verifier::external_body]
fn read_price_update_v2(data: &[u8]) -> (r: NormalResult<PythPriceUpdate>)
    ensures
        r == pyth_price_update_v2(data@),
{
    let mut buf: &[u8] = data;
    match PriceUpdateV2::try_deserialize(&mut buf) {
        Ok(update) => Ok(PythPriceUpdate {
            price: update.price_message.price,
            conf: update.price_message.conf,
            exponent: update.price_message.exponent,
            publish_time: update.price_message.publish_time,
            ema_price: update.price_message.ema_price,
            posted_slot: update.posted_slot,
        }),
        Err(e) if e == AnchorError::from(AnchorErrorCode::AccountDiscriminatorNotFound) => Err(ErrorCode::AccountDiscriminatorNotFound),
        Err(e) if e == AnchorError::from(AnchorErrorCode::AccountDiscriminatorMismatch) => Err(ErrorCode::AccountDiscriminatorMismatch),
        Err(_) => Err(ErrorCode::AccountDidNotDeserialize),
    }
}

/// The kinds of message of the Pyth wire format.
#[derive(Clone, Copy, PartialEq, Eq, Debug, Structural)]
pub enum PythWireMessage {
    PriceFeed { publish_time: i64 },
    Twap,
    PublisherStakeCaps,
}

/// The message that big endian wire bytes hold, `None` when they hold none.
pub uninterp spec fn pyth_wire_message(data: Seq<u8>) -> Option<PythWireMessage>;

/// Calls `pythnet_sdk::wire::from_slice::<byteorder::BE, Message>` on the bytes. Claimed: the
/// result depends on the bytes alone and is named `pyth_wire_message`; nothing is claimed of
/// which byte strings decode.
#[verifier::external_body]
fn read_wire_message(data: &[u8]) -> (r: Option<PythWireMessage>)
    ensures
        r == pyth_wire_message(data@),
{
    match from_slice::<byteorder::BE, Message>(data) {
        Ok(Message::PriceFeedMessage(m)) => Some(PythWireMessage::PriceFeed { publish_time: m.publish_time }),
        Ok(Message::TwapMessage(_)) => Some(PythWireMessage::Twap),
        Ok(Message::PublisherStakeCapsMessage(_)) => Some(PythWireMessage::PublisherStakeCaps),
        Err(_) => None,
    }
}

/// The publish time of the price update in a price feed account; 0 for an empty account.
pub fn get_timestamp_from_price_feed_account(price_feed_account: &[u8]) -> (r: NormalResult<i64>)
    ensures
        price_feed_account@.len() == 0 ==> r == Ok::<i64, ErrorCode>(0),
        price_feed_account@.len() != 0 ==> r == (match pyth_price_update_v2(price_feed_account@) {
            Ok(update) => Ok::<i64, ErrorCode>(update.publish_time),
            Err(e) => Err(e),
        }),
{
    if price_feed_account.len() == 0 {
        return Ok(0);
    }
    match read_price_update_v2(price_feed_account) {
        Ok(update) => Ok(update.publish_time),
        Err(e) => Err(e),
    }
}

pub open spec fn spec_timestamp_from_message(message: Option<PythWireMessage>) -> NormalResult<i64> {
    match message {
        None => Err(ErrorCode::OracleDeserializeMessageFailed),
        Some(PythWireMessage::PriceFeed { publish_time }) => Ok(publish_time),
        Some(_) => Err(ErrorCode::OracleUnsupportedMessageType),
    }
}

/// The publish time of a price feed message; other messages are refused.
pub fn get_timestamp_from_price_update_message(update_message: &[u8]) -> (r: NormalResult<i64>)
    ensures
        r == spec_timestamp_from_message(pyth_wire_message(update_message@)),
{
    timestamp_from_message(read_wire_message(update_message))
}

/// The publish time that a decoded message gives.
pub fn timestamp_from_message(message: Option<PythWireMessage>) -> (r: NormalResult<i64>)
    ensures
        r == spec_timestamp_from_message(message),
{
    match message {
        None => Err(ErrorCode::OracleDeserializeMessageFailed),
        Some(PythWireMessage::PriceFeed { publish_time }) => Ok(publish_time),
        Some(_) => Err(ErrorCode::OracleUnsupportedMessageType),
    }
}

// ---------------------------------------------------------------------------
// Scaling a Pyth price to PRICE_PRECISION
// ---------------------------------------------------------------------------

/// What the logic reads of a legacy (push) Pyth price account.
#[derive(Clone, Copy, PartialEq, Eq, Debug, Structural)]
pub struct PythPushPrice {
    /// The aggregate price
    pub price: i64,
    /// The aggregate confidence
    pub conf: u64,
    pub expo: i32,
    /// Number of component prices
    pub num: u32,
    /// Number of quoters that make up the aggregate
    pub num_qt: u32,
    pub valid_slot: u64,
    /// The time weighted average price
    pub twap: i64,
}

/// The factor and divisor that bring a value of `precision` to PRICE_PRECISION.
pub open spec fn oracle_scale(precision: int) -> (int, int) {
    if precision > PRICE_PRECISION {
        (1, precision / PRICE_PRECISION as int)
    } else {
        ((PRICE_PRECISION as int) / precision, 1)
    }
}

pub open spec fn exponent_in_range(exponent: i32) -> bool {
    -38 <= exponent <= 38
}

pub open spec fn spec_pyth_price_data(
    price: i64,
    conf: u64,
    exponent: i32,
    published_slot: u64,
    has_sufficient_number_of_data_points: bool,
    clock_slot: u64,
    multiple: u128,
) -> NormalResult<OraclePriceData> {
    let oracle_precision = pow10(abs_int(exponent as int) as nat);
    if oracle_precision <= multiple {
        Err(ErrorCode::InvalidOracle)
    } else if multiple == 0 {
        Err(ErrorCode::MathError)
    } else {
        let scale = oracle_scale(oracle_precision / multiple as int);
        let scaled_price = tdiv(price * scale.0, scale.1);
        let scaled_conf = conf * scale.0 / scale.1;
        let delay = clock_slot - published_slot;
        if !is_i64(scaled_price) || !is_u64(scaled_conf) || clock_slot > i64::MAX || published_slot > i64::MAX || !is_i64(delay) {
            Err(ErrorCode::MathError)
        } else {
            Ok(OraclePriceData {
                price: scaled_price as i64,
                confidence: scaled_conf as u64,
                delay: delay as i64,
                has_sufficient_number_of_data_points,
            })
        }
    }
}

/// `x / d` rounded toward zero, for a positive divisor.
fn div_toward_zero(x: i128, d: u128) -> (r: i128)
    requires
        d > 0,
        x > i128::MIN,
    ensures
        r == tdiv(x as int, d as int),
{
    let ax: u128 = if x < 0 { (-x) as u128 } else { x as u128 };
    let q = ax / d;
    if x < 0 {
        -(q as i128)
    } else {
        q as i128
    }
}

/// A Pyth price, confidence and slot brought to PRICE_PRECISION after dividing the oracle's
/// precision by `multiple`; refused when the oracle's precision is not above `multiple`.
pub fn pyth_oracle_price_data(
    price: i64,
    conf: u64,
    exponent: i32,
    published_slot: u64,
    has_sufficient_number_of_data_points: bool,
    clock_slot: u64,
    multiple: u128,
) -> (r: NormalResult<OraclePriceData>)
    requires
        exponent_in_range(exponent),
    ensures
        r == spec_pyth_price_data(price, conf, exponent, published_slot, has_sufficient_number_of_data_points, clock_slot, multiple),
{
    let e: u32 = if exponent < 0 { (-(exponent as i64)) as u32 } else { exponent as u32 };
    let oracle_precision0 = pow10_u128(e);
    if oracle_precision0 <= multiple {
        return Err(ErrorCode::InvalidOracle);
    }
    if multiple == 0 {
        return Err(ErrorCode::MathError);
    }
    let oracle_precision = oracle_precision0 / multiple;
    proof {
        assert(oracle_precision >= 1) by (nonlinear_arith)
            requires oracle_precision == oracle_precision0 / multiple, oracle_precision0 > multiple, multiple > 0;
    }
    let (oracle_scale_mult, oracle_scale_div): (u128, u128) = if oracle_precision > PRICE_PRECISION {
        (1, oracle_precision / PRICE_PRECISION)
    } else {
        (PRICE_PRECISION / oracle_precision, 1)
    };
    proof {
        assert(oracle_scale_mult <= 1_000_000) by (nonlinear_arith)
            requires oracle_precision >= 1, oracle_scale_mult == 1 || oracle_scale_mult == 1_000_000u128 / oracle_precision;
        assert(oracle_scale_div >= 1) by (nonlinear_arith)
            requires oracle_scale_div == 1 || (oracle_scale_div == oracle_precision / 1_000_000u128 && oracle_precision > 1_000_000);
        assert(price * oracle_scale_mult <= i64::MAX * 1_000_000 && price * oracle_scale_mult >= i64::MIN * 1_000_000) by (nonlinear_arith)
            requires oracle_scale_mult <= 1_000_000, i64::MIN <= price <= i64::MAX;
        assert(conf * oracle_scale_mult <= u64::MAX * 1_000_000) by (nonlinear_arith)
            requires oracle_scale_mult <= 1_000_000, conf <= u64::MAX;
    }
    let scaled_price = div_toward_zero((price as i128) * (oracle_scale_mult as i128), oracle_scale_div);
    if scaled_price < i64::MIN as i128 || scaled_price > i64::MAX as i128 {
        return Err(ErrorCode::MathError);
    }
    let scaled_conf = (conf as u128) * oracle_scale_mult / oracle_scale_div;
    if scaled_conf > u64::MAX as u128 {
        return Err(ErrorCode::MathError);
    }
    if clock_slot > i64::MAX as u64 || published_slot > i64::MAX as u64 {
        return Err(ErrorCode::MathError);
    }
    let delay = match (clock_slot as i64).checked_sub(published_slot as i64) {
        Some(v) => v,
        None => return Err(ErrorCode::MathError),
    };
    Ok(OraclePriceData {
        price: scaled_price as i64,
        confidence: scaled_conf as u64,
        delay,
        has_sufficient_number_of_data_points,
    })
}

// ---------------------------------------------------------------------------
// Oracle prices
// ---------------------------------------------------------------------------

/// Whether a pull oracle account can be read and its exponent can be raised.
pub open spec fn readable_price_update(data: Seq<u8>) -> bool {
    pyth_price_update_v2(data) matches Ok(update) && exponent_in_range(update.exponent)
}

pub open spec fn spec_pull_price(data: Seq<u8>, clock_slot: u64, multiple: u128) -> NormalResult<OraclePriceData> {
    let update = pyth_price_update_v2(data)->Ok_0;
    spec_pyth_price_data(update.price, update.conf, update.exponent, update.posted_slot, true, clock_slot, multiple)
}

/// The price of a Pyth pull oracle account (a price update), scaled to PRICE_PRECISION.
pub fn get_pyth_price(price_oracle: &[u8], clock_slot: u64, multiple: u128) -> (r: NormalResult<OraclePriceData>)
    requires
        readable_price_update(price_oracle@),
    ensures
        r == spec_pull_price(price_oracle@, clock_slot, multiple),
{
    let update = read_price_update_v2(price_oracle).unwrap();
    pyth_oracle_price_data(update.price, update.conf, update.exponent, update.posted_slot, true, clock_slot, multiple)
}

/// Whether a pull oracle account is a price update whose exponent can be raised.
pub fn try_read_pull_price(price_oracle: &[u8]) -> (r: bool)
    ensures
        r == readable_price_update(price_oracle@),
{
    match read_price_update_v2(price_oracle) {
        Ok(update) => -38 <= update.exponent && update.exponent <= 38,
        Err(_) => false,
    }
}

/// The price of a legacy Pyth push price account, scaled to PRICE_PRECISION. This build counts
/// every reading as made of enough publishers.
pub fn get_pyth_push_price(price: &PythPushPrice, clock_slot: u64, multiple: u128) -> (r: NormalResult<OraclePriceData>)
    requires
        exponent_in_range(price.expo),
    ensures
        r == spec_pyth_price_data(price.price, price.conf, price.expo, price.valid_slot, true, clock_slot, multiple),
{
    pyth_oracle_price_data(price.price, price.conf, price.expo, price.valid_slot, true, clock_slot, multiple)
}

/// Five basis points of PRICE_PRECISION.
pub const FIVE_BPS: i64 = 500;

/// A stable coin reading within the smaller of five basis points and its confidence of one
/// dollar counts as exactly one dollar.
pub open spec fn spec_stable_coin_price(data: OraclePriceData) -> NormalResult<OraclePriceData> {
    let gap = data.price - PRICE_PRECISION_I64;
    if !is_i64(gap) || data.confidence > i64::MAX {
        Err(ErrorCode::MathError)
    } else if abs_int(gap) <= min_int(FIVE_BPS as int, data.confidence as int) {
        Ok(OraclePriceData { price: PRICE_PRECISION_I64, ..data })
    } else {
        Ok(data)
    }
}

pub open spec fn stable_coin_price_in_range(data: OraclePriceData) -> bool {
    data.price - PRICE_PRECISION_I64 != i64::MIN
}

/// Pins a stable coin's price to one dollar when it is within its band (see
/// `spec_stable_coin_price`).
pub fn stable_coin_price(oracle_price_data: OraclePriceData) -> (r: NormalResult<OraclePriceData>)
    requires
        stable_coin_price_in_range(oracle_price_data),
    ensures
        r == spec_stable_coin_price(oracle_price_data),
{
    let mut data = oracle_price_data;
    let gap = match data.price.checked_sub(PRICE_PRECISION_I64) {
        Some(v) => v,
        None => return Err(ErrorCode::MathError),
    };
    if data.confidence > i64::MAX as u64 {
        return Err(ErrorCode::MathError);
    }
    let abs_gap: i64 = if gap < 0 { -gap } else { gap };
    let band: i64 = if FIVE_BPS <= data.confidence as i64 { FIVE_BPS } else { data.confidence as i64 };
    if abs_gap <= band {
        data.price = PRICE_PRECISION_I64;
    }
    Ok(data)
}

pub open spec fn readable_stable_coin_update(data: Seq<u8>, clock_slot: u64) -> bool {
    &&& readable_price_update(data)
    &&& (spec_pull_price(data, clock_slot, 1) matches Ok(d) ==> stable_coin_price_in_range(d))
}

/// The price of a stable coin's Pyth pull oracle account, pinned to one dollar within its band.
pub fn get_pyth_stable_coin_price(price_oracle: &[u8], clock_slot: u64) -> (r: NormalResult<OraclePriceData>)
    requires
        readable_stable_coin_update(price_oracle@, clock_slot),
    ensures
        r == (match spec_pull_price(price_oracle@, clock_slot, 1) {
            Err(e) => Err(e),
            Ok(d) => spec_stable_coin_price(d),
        }),
{
    let data = get_pyth_price(price_oracle, clock_slot, 1)?;
    stable_coin_price(data)
}

/// The price of a stable coin's legacy Pyth push price account, pinned within its band.
pub fn get_pyth_push_stable_coin_price(price: &PythPushPrice, clock_slot: u64) -> (r: NormalResult<OraclePriceData>)
    requires
        exponent_in_range(price.expo),
        spec_pyth_price_data(price.price, price.conf, price.expo, price.valid_slot, true, clock_slot, 1) matches Ok(d)
            ==> stable_coin_price_in_range(d),
    ensures
        r == (match spec_pyth_price_data(price.price, price.conf, price.expo, price.valid_slot, true, clock_slot, 1) {
            Err(e) => Err(e),
            Ok(d) => spec_stable_coin_price(d),
        }),
{
    let data = get_pyth_push_price(price, clock_slot, 1)?;
    stable_coin_price(data)
}

pub open spec fn is_pull_source(oracle_source: OracleSource) -> bool {
    oracle_source == OracleSource::PythPull || oracle_source == OracleSource::Pyth1KPull
        || oracle_source == OracleSource::Pyth1MPull || oracle_source == OracleSource::PythStableCoinPull
}

pub open spec fn is_push_source(oracle_source: OracleSource) -> bool {
    oracle_source == OracleSource::Pyth || oracle_source == OracleSource::Pyth1K
        || oracle_source == OracleSource::Pyth1M || oracle_source == OracleSource::PythStableCoin
}

/// The multiple by which a source's oracle precision is divided.
pub open spec fn source_multiple(oracle_source: OracleSource) -> u128 {
    match oracle_source {
        OracleSource::Pyth1K | OracleSource::Pyth1KPull => 1000,
        OracleSource::Pyth1M | OracleSource::Pyth1MPull => 1_000_000,
        _ => 1,
    }
}

/// What an oracle account must hold for its source to be read.
pub open spec fn oracle_account_readable(
    oracle_source: OracleSource,
    price_oracle: Seq<u8>,
    push_price: Option<PythPushPrice>,
    clock_slot: u64,
) -> bool {
    &&& is_pull_source(oracle_source) ==> readable_price_update(price_oracle)
    &&& oracle_source == OracleSource::PythStableCoinPull ==> readable_stable_coin_update(price_oracle, clock_slot)
    &&& is_push_source(oracle_source) ==> (push_price matches Some(p) && exponent_in_range(p.expo)
        && (oracle_source == OracleSource::PythStableCoin ==> (spec_pyth_price_data(p.price, p.conf, p.expo, p.valid_slot, true, clock_slot, 1) matches Ok(d)
            ==> stable_coin_price_in_range(d))))
}

pub open spec fn spec_oracle_price(
    oracle_source: OracleSource,
    price_oracle: Seq<u8>,
    push_price: Option<PythPushPrice>,
    clock_slot: u64,
) -> NormalResult<OraclePriceData> {
    match oracle_source {
        OracleSource::QuoteAsset => Ok(OraclePriceData {
            price: PRICE_PRECISION_I64,
            confidence: 1,
            delay: 0,
            has_sufficient_number_of_data_points: true,
        }),
        OracleSource::PythStableCoinPull => match spec_pull_price(price_oracle, clock_slot, 1) {
            Err(e) => Err(e),
            Ok(d) => spec_stable_coin_price(d),
        },
        OracleSource::PythStableCoin => {
            let p = push_price.unwrap();
            match spec_pyth_price_data(p.price, p.conf, p.expo, p.valid_slot, true, clock_slot, 1) {
                Err(e) => Err(e),
                Ok(d) => spec_stable_coin_price(d),
            }
        },
        _ => if is_pull_source(oracle_source) {
            spec_pull_price(price_oracle, clock_slot, source_multiple(oracle_source))
        } else {
            let p = push_price.unwrap();
            spec_pyth_price_data(p.price, p.conf, p.expo, p.valid_slot, true, clock_slot, source_multiple(oracle_source))
        },
    }
}

/// The price of an oracle account for its source: pull accounts are read from their data, push
/// accounts from `push_price` (their reading as a legacy price account), and the quote asset is
/// worth one.
pub fn get_oracle_price(
    oracle_source: &OracleSource,
    price_oracle: &[u8],
    push_price: Option<PythPushPrice>,
    clock_slot: u64,
) -> (r: NormalResult<OraclePriceData>)
    requires
        oracle_account_readable(*oracle_source, price_oracle@, push_price, clock_slot),
    ensures
        r == spec_oracle_price(*oracle_source, price_oracle@, push_price, clock_slot),
{
    match oracle_source {
        OracleSource::Pyth => get_pyth_push_price(&push_price.unwrap(), clock_slot, 1),
        OracleSource::Pyth1K => get_pyth_push_price(&push_price.unwrap(), clock_slot, 1000),
        OracleSource::Pyth1M => get_pyth_push_price(&push_price.unwrap(), clock_slot, 1000000),
        OracleSource::PythStableCoin => get_pyth_push_stable_coin_price(&push_price.unwrap(), clock_slot),
        OracleSource::QuoteAsset => Ok(OraclePriceData {
            price: PRICE_PRECISION_I64,
            confidence: 1,
            delay: 0,
            has_sufficient_number_of_data_points: true,
        }),
        OracleSource::PythPull => get_pyth_price(price_oracle, clock_slot, 1),
        OracleSource::Pyth1KPull => get_pyth_price(price_oracle, clock_slot, 1000),
        OracleSource::Pyth1MPull => get_pyth_price(price_oracle, clock_slot, 1000000),
        OracleSource::PythStableCoinPull => get_pyth_stable_coin_price(price_oracle, clock_slot),
    }
}

/// The price of an oracle account, or `None` when the account cannot be read for its source
/// (a pull account that is no price update, a push source with no push reading, an exponent out
/// of range, or a stable coin price at the very bottom of the range).
pub fn try_get_oracle_price(
    oracle_source: &OracleSource,
    price_oracle: &[u8],
    push_price: Option<PythPushPrice>,
    clock_slot: u64,
) -> (r: Option<NormalResult<OraclePriceData>>)
    ensures
        oracle_account_readable(*oracle_source, price_oracle@, push_price, clock_slot)
            ==> r == Some(spec_oracle_price(*oracle_source, price_oracle@, push_price, clock_slot)),
        !oracle_account_readable(*oracle_source, price_oracle@, push_price, clock_slot) ==> r is None,
{
    let pull = match oracle_source {
        OracleSource::PythPull | OracleSource::Pyth1KPull | OracleSource::Pyth1MPull | OracleSource::PythStableCoinPull => true,
        _ => false,
    };
    let push = match oracle_source {
        OracleSource::Pyth | OracleSource::Pyth1K | OracleSource::Pyth1M | OracleSource::PythStableCoin => true,
        _ => false,
    };
    if pull {
        let update = match read_price_update_v2(price_oracle) {
            Ok(u) => u,
            Err(_) => return None,
        };
        if update.exponent < -38 || update.exponent > 38 {
            return None;
        }
        match oracle_source {
            OracleSource::PythStableCoinPull => match pyth_oracle_price_data(update.price, update.conf, update.exponent,
                update.posted_slot, true, clock_slot, 1) {
                Ok(d) => if d.price == i64::MIN + PRICE_PRECISION_I64 {
                    return None;
                },
                Err(_) => {},
            },
            _ => {},
        }
    }
    if push {
        let p = match push_price {
            Some(p) => p,
            None => return None,
        };
        if p.expo < -38 || p.expo > 38 {
            return None;
        }
        match oracle_source {
            OracleSource::PythStableCoin => match pyth_oracle_price_data(p.price, p.conf, p.expo, p.valid_slot, true, clock_slot, 1) {
                Ok(d) => if d.price == i64::MIN + PRICE_PRECISION_I64 {
                    return None;
                },
                Err(_) => {},
            },
            _ => {},
        }
    }
    Some(get_oracle_price(oracle_source, price_oracle, push_price, clock_slot))
}

// ---------------------------------------------------------------------------
// Oracle twaps
// ---------------------------------------------------------------------------

/// The twap at PRICE_PRECISION, after dividing the oracle's precision by `multiple`.
pub open spec fn spec_pyth_twap(twap: i64, exponent: i32, multiple: u128) -> NormalResult<i64> {
    let oracle_precision0 = pow10(abs_int(exponent as int) as nat);
    if multiple == 0 {
        Err(ErrorCode::MathError)
    } else {
        let oracle_precision = oracle_precision0 / multiple as int;
        if oracle_precision == 0 {
            Err(ErrorCode::MathError)
        } else {
            let scale = oracle_scale(oracle_precision);
            let scaled = tdiv(twap * scale.0, scale.1);
            if !is_i64(scaled) { Err(ErrorCode::MathError) } else { Ok(scaled as i64) }
        }
    }
}

/// A twap is only read when it is above a tenth of the price.
pub open spec fn twap_reading_sane(price: i64, twap: i64, exponent: i32) -> bool {
    exponent_in_range(exponent) && twap > tdiv(price as int, 10)
}

/// What a pull oracle account must hold for its twap to be read: either it is no price
/// update (which is refused), or its twap reading is sane.
pub open spec fn readable_twap_update(data: Seq<u8>) -> bool {
    pyth_price_update_v2(data) matches Ok(u) ==> twap_reading_sane(u.price, u.ema_price, u.exponent)
}

pub open spec fn spec_pull_twap(data: Seq<u8>, multiple: u128) -> NormalResult<i64> {
    match pyth_price_update_v2(data) {
        Err(_) => Err(ErrorCode::UnableToLoadOracle),
        Ok(u) => spec_pyth_twap(u.ema_price, u.exponent, multiple),
    }
}

/// Scales a twap reading to PRICE_PRECISION.
fn scale_pyth_twap(twap: i64, exponent: i32, multiple: u128) -> (r: NormalResult<i64>)
    requires
        exponent_in_range(exponent),
    ensures
        r == spec_pyth_twap(twap, exponent, multiple),
{
    let e: u32 = if exponent < 0 { (-(exponent as i64)) as u32 } else { exponent as u32 };
    let oracle_precision0 = pow10_u128(e);
    if multiple == 0 {
        return Err(ErrorCode::MathError);
    }
    let oracle_precision = oracle_precision0 / multiple;
    if oracle_precision == 0 {
        return Err(ErrorCode::MathError);
    }
    let (oracle_scale_mult, oracle_scale_div): (u128, u128) = if oracle_precision > PRICE_PRECISION {
        (1, oracle_precision / PRICE_PRECISION)
    } else {
        (PRICE_PRECISION / oracle_precision, 1)
    };
    proof {
        assert(oracle_scale_mult <= 1_000_000) by (nonlinear_arith)
            requires oracle_precision >= 1, oracle_scale_mult == 1 || oracle_scale_mult == 1_000_000u128 / oracle_precision;
        assert(oracle_scale_div >= 1) by (nonlinear_arith)
            requires oracle_scale_div == 1 || (oracle_scale_div == oracle_precision / 1_000_000u128 && oracle_precision > 1_000_000);
        assert(twap * oracle_scale_mult <= i64::MAX * 1_000_000 && twap * oracle_scale_mult >= i64::MIN * 1_000_000) by (nonlinear_arith)
            requires oracle_scale_mult <= 1_000_000, i64::MIN <= twap <= i64::MAX;
    }
    let scaled = div_toward_zero((twap as i128) * (oracle_scale_mult as i128), oracle_scale_div);
    if scaled < i64::MIN as i128 || scaled > i64::MAX as i128 {
        return Err(ErrorCode::MathError);
    }
    Ok(scaled as i64)
}

/// The source's twap reading: the ema price of a pull account, the twap of a push reading.
pub open spec fn spec_oracle_twap(
    oracle_source: OracleSource,
    price_oracle: Seq<u8>,
    push_price: Option<PythPushPrice>,
) -> NormalResult<Option<i64>> {
    if oracle_source == OracleSource::QuoteAsset {
        Err(ErrorCode::DefaultError)
    } else {
        let twap = if is_pull_source(oracle_source) {
            spec_pull_twap(price_oracle, source_multiple(oracle_source))
        } else {
            let p = push_price.unwrap();
            spec_pyth_twap(p.twap, p.expo, source_multiple(oracle_source))
        };
        match twap {
            Err(e) => Err(e),
            Ok(t) => Ok(Some(t)),
        }
    }
}

/// What an oracle account must hold for its source's twap to be read.
pub open spec fn oracle_twap_readable(oracle_source: OracleSource, price_oracle: Seq<u8>, push_price: Option<PythPushPrice>) -> bool {
    &&& is_pull_source(oracle_source) ==> readable_twap_update(price_oracle)
    &&& is_push_source(oracle_source) ==> (push_price matches Some(p) && twap_reading_sane(p.price, p.twap, p.expo))
}

impl AMM {
    /// The twap of a Pyth oracle, scaled to PRICE_PRECISION: from the data of a pull account
    /// (refused when it is no price update), or from a push reading.
    pub fn get_pyth_twap(
        &self,
        price_oracle: &[u8],
        push_price: Option<PythPushPrice>,
        multiple: u128,
        is_pull_oracle: bool,
    ) -> (r: NormalResult<i64>)
        requires
            is_pull_oracle ==> readable_twap_update(price_oracle@),
            !is_pull_oracle ==> (push_price matches Some(p) && twap_reading_sane(p.price, p.twap, p.expo)),
        ensures
            is_pull_oracle ==> r == spec_pull_twap(price_oracle@, multiple),
            !is_pull_oracle ==> r == spec_pyth_twap(push_price.unwrap().twap, push_price.unwrap().expo, multiple),
    {
        if is_pull_oracle {
            match read_price_update_v2(price_oracle) {
                Ok(update) => scale_pyth_twap(update.ema_price, update.exponent, multiple),
                Err(_) => Err(ErrorCode::UnableToLoadOracle),
            }
        } else {
            let p = push_price.unwrap();
            scale_pyth_twap(p.twap, p.expo, multiple)
        }
    }

    /// The twap of the AMM's oracle for its source; the quote asset has none.
    pub fn get_oracle_twap(
        &self,
        price_oracle: &[u8],
        push_price: Option<PythPushPrice>,
        slot: u64,
    ) -> (r: NormalResult<Option<i64>>)
        requires
            oracle_twap_readable(self.oracle_source, price_oracle@, push_price),
        ensures
            r == spec_oracle_twap(self.oracle_source, price_oracle@, push_price),
    {
        match self.oracle_source {
            OracleSource::Pyth | OracleSource::PythStableCoin => Ok(Some(self.get_pyth_twap(price_oracle, push_price, 1, false)?)),
            OracleSource::Pyth1K => Ok(Some(self.get_pyth_twap(price_oracle, push_price, 1000, false)?)),
            OracleSource::Pyth1M => Ok(Some(self.get_pyth_twap(price_oracle, push_price, 1000000, false)?)),
            OracleSource::QuoteAsset => Err(ErrorCode::DefaultError),
            OracleSource::PythPull | OracleSource::PythStableCoinPull => Ok(Some(self.get_pyth_twap(price_oracle, push_price, 1, true)?)),
            OracleSource::Pyth1KPull => Ok(Some(self.get_pyth_twap(price_oracle, push_price, 1000, true)?)),
            OracleSource::Pyth1MPull => Ok(Some(self.get_pyth_twap(price_oracle, push_price, 1000000, true)?)),
        }
    }

    /// The twap of the AMM's oracle, or `None` when the reading cannot be used (no push
    /// reading for a push source, an exponent out of range, or a twap not above a tenth of the
    /// price).
    pub fn try_get_oracle_twap(
        &self,
        price_oracle: &[u8],
        push_price: Option<PythPushPrice>,
        slot: u64,
    ) -> (r: Option<NormalResult<Option<i64>>>)
        ensures
            oracle_twap_readable(self.oracle_source, price_oracle@, push_price)
                ==> r == Some(spec_oracle_twap(self.oracle_source, price_oracle@, push_price)),
            !oracle_twap_readable(self.oracle_source, price_oracle@, push_price) ==> r is None,
    {
        let pull = match self.oracle_source {
            OracleSource::PythPull | OracleSource::Pyth1KPull | OracleSource::Pyth1MPull | OracleSource::PythStableCoinPull => true,
            _ => false,
        };
        let push = match self.oracle_source {
            OracleSource::Pyth | OracleSource::Pyth1K | OracleSource::Pyth1M | OracleSource::PythStableCoin => true,
            _ => false,
        };
        if pull {
            match read_price_update_v2(price_oracle) {
                Ok(u) => if !sane_twap_reading(u.price, u.ema_price, u.exponent) {
                    return None;
                },
                Err(_) => {},
            }
        }
        if push {
            match push_price {
                Some(p) => if !sane_twap_reading(p.price, p.twap, p.expo) {
                    return None;
                },
                None => return None,
            }
        }
        Some(self.get_oracle_twap(price_oracle, push_price, slot))
    }
}

/// Whether a twap reading can be used (see `twap_reading_sane`).
fn sane_twap_reading(price: i64, twap: i64, exponent: i32) -> (r: bool)
    ensures
        r == twap_reading_sane(price, twap, exponent),
{
    if exponent < -38 || exponent > 38 {
        return false;
    }
    let tenth: i64 = if price < 0 { -((-(price as i128) / 10) as i64) } else { price / 10 };
    twap > tenth
}

} // verus!
