use anchor_lang::prelude::{AccountSerialize, Pubkey};
use pyth_solana_receiver_sdk::price_update::{PriceFeedMessage, PriceUpdateV2, VerificationLevel};
use pythnet_sdk::messages::{Message, TwapMessage};

use normal::error::ErrorCode;
use normal::math::oracle::{
    block_operation, calculate_oracle_twap_5min_price_spread_pct, get_oracle_status, is_oracle_mark_too_divergent,
    is_oracle_valid_for_action, oracle_validity, NormalAction, OracleValidity,
};
use normal::state::amm::AMM;
use normal::state::fund::try_get_index_fund_price;
use normal::state::market::Market;
use normal::state::oracle::{OraclePriceData, OracleSource, StrictOraclePrice};
use normal::state::pyth::{
    get_oracle_price, get_pyth_price, get_pyth_push_price, get_timestamp_from_price_feed_account,
    get_timestamp_from_price_update_message, pyth_oracle_price_data, stable_coin_price, try_get_oracle_price,
    PythPushPrice,
};
use normal::state::state::{OracleGuardRails, PriceDivergenceGuardRails, ValidityGuardRails};

const ALL_ACTIONS: [NormalAction; 8] = [
    NormalAction::SettlePnl,
    NormalAction::TriggerOrder,
    NormalAction::FillOrderMatch,
    NormalAction::FillOrderAmm,
    NormalAction::UpdateTwap,
    NormalAction::UpdateAMMCurve,
    NormalAction::OracleOrderPrice,
    NormalAction::MarginCalc,
];

const ALL_VALIDITIES: [OracleValidity; 6] = [
    OracleValidity::NonPositive,
    OracleValidity::TooVolatile,
    OracleValidity::TooUncertain,
    OracleValidity::InsufficientDataPoints,
    OracleValidity::StaleForAMM,
    OracleValidity::Valid,
];

fn price_update_bytes(price: i64, conf: u64, exponent: i32, publish_time: i64, ema_price: i64, posted_slot: u64) -> Vec<u8> {
    let update = PriceUpdateV2 {
        write_authority: Pubkey::default(),
        verification_level: VerificationLevel::Full,
        price_message: PriceFeedMessage {
            feed_id: [7u8; 32],
            price,
            conf,
            exponent,
            publish_time,
            prev_publish_time: publish_time - 1,
            ema_price,
            ema_conf: conf,
        },
        posted_slot,
    };
    let mut data = Vec::new();
    update.try_serialize(&mut data).unwrap();
    data
}

fn guard_rails() -> ValidityGuardRails {
    ValidityGuardRails { slots_before_stale_for_amm: 10, confidence_interval_max_size: 20_000, too_volatile_ratio: 5 }
}

fn reading(price: i64, confidence: u64, delay: i64, enough: bool) -> OraclePriceData {
    OraclePriceData { price, confidence, delay, has_sufficient_number_of_data_points: enough }
}

#[test]
fn validity_of_a_reading() {
    let g = guard_rails();
    assert_eq!(oracle_validity(0, 1_000_000, &reading(1_000_000, 1_000, 0, true), &g, 1, false), Ok(OracleValidity::Valid));
    assert_eq!(oracle_validity(0, 1_000_000, &reading(6_000_000, 1_000, 0, true), &g, 1, false), Ok(OracleValidity::TooVolatile));
    assert_eq!(oracle_validity(0, 1_000_000, &reading(1_000_000, 30_000, 0, true), &g, 1, false), Ok(OracleValidity::TooUncertain));
    assert_eq!(oracle_validity(0, 1_000_000, &reading(1_000_000, 30_000, 0, true), &g, 2, false), Ok(OracleValidity::Valid));
    assert_eq!(oracle_validity(0, 1_000_000, &reading(1_000_000, 1_000, 0, false), &g, 1, false),
        Ok(OracleValidity::InsufficientDataPoints));
    assert_eq!(oracle_validity(0, 1_000_000, &reading(1_000_000, 1_000, 11, true), &g, 1, false), Ok(OracleValidity::StaleForAMM));
    assert_eq!(oracle_validity(0, 1_000_000, &reading(0, 1_000, 0, true), &g, 1, false), Err(ErrorCode::MathError));
}

#[test]
fn valid_oracle_serves_every_action() {
    for action in ALL_ACTIONS {
        assert_eq!(is_oracle_valid_for_action(OracleValidity::Valid, Some(action)), Ok(true));
    }
    assert_eq!(is_oracle_valid_for_action(OracleValidity::Valid, None), Ok(true));
}

#[test]
fn non_positive_oracle_serves_no_action() {
    for action in ALL_ACTIONS {
        assert_eq!(is_oracle_valid_for_action(OracleValidity::NonPositive, Some(action)), Ok(false));
    }
}

#[test]
fn amm_fill_is_the_strictest_action() {
    for v in ALL_VALIDITIES {
        if is_oracle_valid_for_action(v, Some(NormalAction::FillOrderAmm)).unwrap() {
            for action in ALL_ACTIONS {
                assert_eq!(is_oracle_valid_for_action(v, Some(action)), Ok(true));
            }
        }
    }
    assert_eq!(is_oracle_valid_for_action(OracleValidity::StaleForAMM, Some(NormalAction::FillOrderAmm)), Ok(false));
    assert_eq!(is_oracle_valid_for_action(OracleValidity::StaleForAMM, Some(NormalAction::SettlePnl)), Ok(true));
}

#[test]
fn validity_error_codes_and_names() {
    assert_eq!(OracleValidity::TooVolatile.get_error_code(), ErrorCode::OracleTooVolatile);
    assert_eq!(OracleValidity::NonPositive.get_error_code(), ErrorCode::OracleNonPositive);
    assert_eq!(OracleValidity::StaleForAMM.to_string(), "StaleForAMM");
    assert_eq!(OracleValidity::Valid.to_string(), "Valid");
}

#[test]
fn strict_price_bounds() {
    let p = StrictOraclePrice::new(100, 120, true);
    assert_eq!(p.max(), 120);
    assert_eq!(p.min(), 100);
    let q = StrictOraclePrice::new(100, 120, false);
    assert_eq!(q.max(), 100);
    assert_eq!(q.min(), 100);
    assert!(q.min() <= q.max());
    assert_eq!(StrictOraclePrice::new(-1, 5, true).validate(), Err(ErrorCode::InvalidOracle));
    assert_eq!(StrictOraclePrice::new(1, 5, true).validate(), Ok(()));
}

#[test]
fn pyth_price_is_scaled_to_price_precision() {
    // exponent -8: precision 1e8, divided by 100 to reach 1e6
    assert_eq!(pyth_oracle_price_data(150_000_000, 200, -8, 90, true, 100, 1),
        Ok(reading(1_500_000, 2, 10, true)));
    // exponent -4: multiplied by 100
    assert_eq!(pyth_oracle_price_data(15_000, 7, -4, 100, true, 100, 1), Ok(reading(1_500_000, 700, 0, true)));
    // a multiple not below the precision is refused
    assert_eq!(pyth_oracle_price_data(15_000, 7, -2, 100, true, 100, 100), Err(ErrorCode::InvalidOracle));
    // negative prices round toward zero
    assert_eq!(pyth_oracle_price_data(-150, 0, -8, 100, true, 100, 1), Ok(reading(-1, 0, 0, true)));
}

#[test]
fn pull_oracle_account_is_read_through_the_receiver_sdk() {
    let data = price_update_bytes(150_000_000, 200, -8, 1_700_000_000, 149_000_000, 90);
    assert_eq!(get_pyth_price(&data, 100, 1), Ok(reading(1_500_000, 2, 10, true)));
    assert_eq!(get_pyth_price(&data, 100, 1000), Ok(reading(1_500_000_000, 2_000, 10, true)));
    assert_eq!(get_timestamp_from_price_feed_account(&data), Ok(1_700_000_000));
}

#[test]
fn unreadable_accounts() {
    assert_eq!(get_timestamp_from_price_feed_account(&[]), Ok(0));
    assert_eq!(get_timestamp_from_price_feed_account(&[1, 2, 3]), Err(ErrorCode::AccountDiscriminatorNotFound));
    assert_eq!(get_timestamp_from_price_feed_account(&[0u8; 40]), Err(ErrorCode::AccountDiscriminatorMismatch));
    // the right discriminator, then too little to decode
    let data = price_update_bytes(150_000_000, 200, -8, 1_700_000_000, 149_000_000, 90);
    assert_eq!(get_timestamp_from_price_feed_account(&data[..12]), Err(ErrorCode::AccountDidNotDeserialize));
    assert_eq!(try_get_oracle_price(&OracleSource::PythPull, &[1, 2, 3], None, 100), None);
    assert_eq!(try_get_index_fund_price(&[1, 2, 3], 100, 1, true), None);
}

#[test]
fn oracle_price_by_source() {
    let data = price_update_bytes(150_000_000, 200, -8, 1_700_000_000, 149_000_000, 90);
    assert_eq!(get_oracle_price(&OracleSource::PythPull, &data, None, 100), Ok(reading(1_500_000, 2, 10, true)));
    assert_eq!(get_oracle_price(&OracleSource::QuoteAsset, &[], None, 100), Ok(reading(1_000_000, 1, 0, true)));
    let push = PythPushPrice { price: 1_500, conf: 3, expo: -3, num: 5, num_qt: 4, valid_slot: 95, twap: 1_400 };
    assert_eq!(get_oracle_price(&OracleSource::Pyth, &[], Some(push), 100), Ok(reading(1_500_000, 3_000, 5, true)));
    assert_eq!(get_pyth_push_price(&push, 100, 1), Ok(reading(1_500_000, 3_000, 5, true)));
    assert_eq!(try_get_oracle_price(&OracleSource::Pyth, &[], None, 100), None);
    assert_eq!(try_get_oracle_price(&OracleSource::PythPull, &data, None, 100), Some(Ok(reading(1_500_000, 2, 10, true))));
}

#[test]
fn stable_coin_is_pinned_within_its_band() {
    assert_eq!(stable_coin_price(reading(1_000_300, 400, 0, true)), Ok(reading(1_000_000, 400, 0, true)));
    assert_eq!(stable_coin_price(reading(1_000_300, 200, 0, true)), Ok(reading(1_000_300, 200, 0, true)));
    assert_eq!(stable_coin_price(reading(1_000_600, 1_000, 0, true)), Ok(reading(1_000_600, 1_000, 0, true)));
    let data = price_update_bytes(100_030_000, 40_000, -8, 1, 100_000_000, 100);
    assert_eq!(get_oracle_price(&OracleSource::PythStableCoinPull, &data, None, 100), Ok(reading(1_000_000, 400, 0, true)));
}

#[test]
fn oracle_twap_by_source() {
    let data = price_update_bytes(150_000_000, 200, -8, 1, 149_000_000, 90);
    let mut amm = AMM::default();
    amm.oracle_source = OracleSource::PythPull;
    assert_eq!(amm.get_oracle_twap(&data, None, 100), Ok(Some(1_490_000)));
    amm.oracle_source = OracleSource::QuoteAsset;
    assert_eq!(amm.get_oracle_twap(&data, None, 100), Err(ErrorCode::DefaultError));
    amm.oracle_source = OracleSource::Pyth1K;
    let push = PythPushPrice { price: 1_500, conf: 3, expo: -6, num: 5, num_qt: 4, valid_slot: 95, twap: 1_400_000 };
    assert_eq!(amm.get_oracle_twap(&[], Some(push), 100), Ok(Some(1_400_000_000)));
    amm.oracle_source = OracleSource::PythPull;
    assert_eq!(amm.get_pyth_twap(&[9, 9], None, 1, true), Err(ErrorCode::UnableToLoadOracle));
    // a twap at a tenth of the price or below is not read
    let low = price_update_bytes(150_000_000, 200, -8, 1, 15_000_000, 90);
    assert_eq!(amm.try_get_oracle_twap(&low, None, 100), None);
}

#[test]
fn timestamp_of_wire_messages() {
    let price = Message::PriceFeedMessage(PriceFeedMessage {
        feed_id: [1u8; 32],
        price: 1,
        conf: 1,
        exponent: -8,
        publish_time: 1_234,
        prev_publish_time: 1_233,
        ema_price: 1,
        ema_conf: 1,
    });
    let bytes = pythnet_sdk::wire::to_vec::<_, byteorder::BE>(&price).unwrap();
    assert_eq!(get_timestamp_from_price_update_message(&bytes), Ok(1_234));
    let twap = Message::TwapMessage(TwapMessage {
        feed_id: [1u8; 32],
        cumulative_price: 1,
        cumulative_conf: 1,
        num_down_slots: 0,
        exponent: -8,
        publish_time: 5,
        prev_publish_time: 4,
        publish_slot: 3,
    });
    let bytes = pythnet_sdk::wire::to_vec::<_, byteorder::BE>(&twap).unwrap();
    assert_eq!(get_timestamp_from_price_update_message(&bytes), Err(ErrorCode::OracleUnsupportedMessageType));
    assert_eq!(get_timestamp_from_price_update_message(&[]), Err(ErrorCode::OracleDeserializeMessageFailed));
}

#[test]
fn oracle_status_and_blocking() {
    let mut market = Market::default();
    market.amm.historical_oracle_data.last_oracle_price_twap = 1_000_000;
    market.amm.historical_oracle_data.last_oracle_price_twap_5min = 1_000_000;
    let rails = OracleGuardRails::default();
    assert_eq!(calculate_oracle_twap_5min_price_spread_pct(&market.amm, 1_200_000), Ok(166_666));
    assert_eq!(calculate_oracle_twap_5min_price_spread_pct(&market.amm, 800_000), Ok(-250_000));
    let pd = PriceDivergenceGuardRails { mark_oracle_percent_divergence: 0, oracle_twap_5min_percent_divergence: 0 };
    assert_eq!(is_oracle_mark_too_divergent(100_001, &pd), Ok(true));
    assert_eq!(is_oracle_mark_too_divergent(-100_000, &pd), Ok(false));
    let status = get_oracle_status(&market, &reading(1_000_000, 1_000, 0, true), &rails, 1_050_000).unwrap();
    assert_eq!(status.oracle_validity, OracleValidity::Valid);
    assert_eq!(status.oracle_reserve_price_spread_pct, 47_619);
    assert!(!status.mark_too_divergent);
    assert_eq!(block_operation(&market, &reading(1_000_000, 1_000, 0, true), &rails, 1_200_000, 0), Ok(true));
    assert_eq!(block_operation(&market, &reading(1_000_000, 1_000, 0, true), &rails, 1_050_000, 0), Ok(false));
}
