use std::collections::BTreeSet;

use normal::error::ErrorCode;
use normal::instructions::user::{
    handle_delete_user, handle_initialize_referrer_name, handle_initialize_user, handle_initialize_user_stats,
    handle_reclaim_rent, handle_update_user_reduce_only,
};
use normal::instructions::vault::{handle_initialize_vault, validate_vault_deposit_amount};
use normal::math::index_fund::equal_weight;
use normal::math::margin::{calculate_size_premium_liability_weight, calculate_user_equity, EquityPosition, MarginRequirementType};
use normal::math::oracle::OracleValidity;
use normal::math::position::{get_new_position_amounts, PositionDelta};
use normal::math::spot_balance::{get_spot_balance, get_token_amount, get_token_value};
use normal::state::account_map::{AccountView, MarketMap, VaultMap, MARKET_ACCOUNT_SIZE, MARKET_INDEX_OFFSET, VAULT_INDEX_OFFSET};
use normal::state::amm::{truncating_div_i64, AMMRewardInfo, AMM};
use normal::state::collateral_position::CollateralPosition;
use normal::state::fund::{Fund, FundAsset, WeightingMethod};
use normal::state::index_market::{IndexAsset, IndexMarket, IndexVisibility};
use normal::state::liquidity_position::{LiquidityPosition, LiquidityPositionRewardInfo};
use normal::state::market::{AssetTier, Market, MarketStatus, Tier};
use normal::state::market_set::{get_market_set_from_list, get_writable_market_set, get_writable_market_set_from_many, get_writable_vault_set_from_vec};
use normal::state::oracle::OracleSource;
use normal::state::order_params::{get_auction_duration, OrderSide, PlaceOrderOptions};
use normal::state::schedule::OrderDirection;
use normal::state::state::{ExchangeStatus, OracleGuardRails, State};
use normal::state::tick::{check_is_usable_tick, full_range_indexes};
use normal::state::user::{PerpPosition, User, UserStatus};
use normal::state::user_stats::UserStats;
use normal::state::vault_config::VaultsConfig;
use normal::state::auction::AuctionPreference;

const MARKET_DISCRIMINATOR: [u8; 8] = [1, 2, 3, 4, 5, 6, 7, 8];

fn state(max_initialize_user_fee: u16, max_number_of_sub_accounts: u16, number_of_sub_accounts: u64) -> State {
    State {
        admin: [0u8; 32],
        signer: [0u8; 32],
        signer_nonce: 0,
        oracle_guard_rails: OracleGuardRails::default(),
        emergency_oracles: vec![],
        exchange_status: 0,
        number_of_markets: 0,
        number_of_index_markets: 0,
        default_index_oracle: [0u8; 32],
        max_index_assets: 0,
        protocol_index_fee: 0,
        protocol_index_fee_vault: [0u8; 32],
        insurance_fund: [0u8; 32],
        total_debt_ceiling: 0,
        max_initialize_user_fee,
        number_of_authorities: 0,
        number_of_sub_accounts,
        max_number_of_sub_accounts,
        liquidation_margin_buffer_ratio: 0,
        liquidation_duration: 0,
        initial_pct_to_liquidate: 0,
        min_auction_duration: 0,
    }
}

fn user(authority: u8, sub_account_id: u16) -> User {
    User {
        authority: [authority; 32],
        delegate: [0u8; 32],
        name: [0u8; 32],
        total_deposits: 0,
        total_withdraws: 0,
        total_social_loss: 0,
        cumulative_swap_fees: 0,
        liquidation_margin_freed: 0,
        last_active_slot: 0,
        max_margin_ratio: 0,
        next_liquidation_id: 1,
        sub_account_id,
        status: 0,
        idle: false,
        orders: vec![],
        positions: vec![],
    }
}

fn market_account(index: u16, writable: bool) -> AccountView {
    let mut data = vec![0u8; MARKET_ACCOUNT_SIZE];
    data[..8].copy_from_slice(&MARKET_DISCRIMINATOR);
    data[MARKET_INDEX_OFFSET..MARKET_INDEX_OFFSET + 2].copy_from_slice(&index.to_le_bytes());
    AccountView { data, is_writable: writable, loads: true }
}

fn vault_account(index: u16, writable: bool) -> AccountView {
    let mut data = vec![0u8; VAULT_INDEX_OFFSET + 2];
    data[..8].copy_from_slice(&MARKET_DISCRIMINATOR);
    data[VAULT_INDEX_OFFSET..VAULT_INDEX_OFFSET + 2].copy_from_slice(&index.to_le_bytes());
    AccountView { data, is_writable: writable, loads: true }
}

#[test]
fn margin_ratio_grows_with_size() {
    assert_eq!(calculate_size_premium_liability_weight(10_000_000_000_000, 1000, 2000, 10_000), Ok(2600));
    assert_eq!(calculate_size_premium_liability_weight(10_000_000_000_000, 0, 2000, 10_000), Ok(2000));
    assert_eq!(calculate_size_premium_liability_weight(1, 1000, 2000, 10_000), Ok(2000));
    let mut m = Market::default();
    m.status = MarketStatus::Active;
    m.margin_ratio_initial = 2000;
    m.margin_ratio_maintenance = 500;
    m.imf_factor = 1000;
    assert_eq!(m.get_margin_ratio(10_000_000_000_000, MarginRequirementType::Initial), Ok(2600));
    assert_eq!(m.get_margin_ratio(0, MarginRequirementType::Maintenance), Ok(500));
    // a larger position never needs a smaller margin ratio
    let small = m.get_margin_ratio(1_000_000_000, MarginRequirementType::Initial).unwrap();
    let large = m.get_margin_ratio(100_000_000_000_000, MarginRequirementType::Initial).unwrap();
    assert!(small <= large);
    assert_eq!(large, 1600 + 3162);
    m.status = MarketStatus::Settlement;
    assert_eq!(m.get_margin_ratio(10_000_000_000_000, MarginRequirementType::Initial), Ok(0));
}

#[test]
fn liquidation_fee_is_capped_by_maintenance_margin() {
    let mut m = Market::default();
    m.liquidator_fee = 10_000;
    m.margin_ratio_maintenance = 500;
    assert_eq!(m.get_max_liquidation_fee(), Ok(50_000));
    m.liquidator_fee = 20_000;
    assert_eq!(m.get_max_liquidation_fee(), Ok(50_000));
    m.liquidator_fee = 1_000;
    assert_eq!(m.get_max_liquidation_fee(), Ok(5_000));
    assert_eq!(m.update_liquidation_penalty(3_000), Err(ErrorCode::ProtocolFeeRateMaxExceeded));
    assert_eq!(m.liquidation_penalty, 0);
    assert_eq!(m.update_liquidation_penalty(2_000), Ok(()));
    assert_eq!(m.liquidation_penalty, 2_000);
}

#[test]
fn tiers_are_ordered_by_safety() {
    assert!(Tier::A.is_as_safe_as_contract(&Tier::B));
    assert!(!Tier::B.is_as_safe_as_contract(&Tier::A));
    assert!(Tier::C.is_as_safe_as_asset(&AssetTier::Cross));
    assert!(!Tier::Speculative.is_as_safe_as_asset(&AssetTier::Cross));
    assert!(Tier::Isolated.is_as_safe_as_asset(&AssetTier::Unlisted));
}

#[test]
fn oracle_confidence_decays_slowly() {
    let mut amm = AMM::default();
    amm.last_oracle_conf_pct = 1000;
    assert_eq!(amm.get_new_oracle_conf_pct(100, 1_000_000, 10), Ok(910));
    assert_eq!(amm.get_new_oracle_conf_pct(5_000, 1_000_000, 10), Ok(5_000));
    assert_eq!(amm.get_new_oracle_conf_pct(100, 1_000_000, 0), Ok(1000));
    assert_eq!(amm.get_new_oracle_conf_pct(100, 0, 10), Err(ErrorCode::MathError));
}

#[test]
fn price_divergence_limits_by_tier() {
    let mut amm = AMM::default();
    amm.synthetic_tier = Tier::A;
    amm.historical_oracle_data.last_oracle_price_twap_5min = 1_000_000;
    assert_eq!(amm.is_price_divergence_ok(1_004_000), Ok(true));
    assert_eq!(amm.is_price_divergence_ok(1_006_000), Ok(false));
    amm.synthetic_tier = Tier::Speculative;
    assert_eq!(amm.is_price_divergence_ok(1_006_000), Ok(true));
    amm.oracle_std = 100_000;
    assert_eq!(amm.is_price_divergence_ok(1_006_000), Ok(false));
    assert_eq!(amm.get_max_confidence_interval_multiplier(), Ok(10));
    assert_eq!(amm.get_sanitize_clamp_denominator(), Ok(None));
    amm.synthetic_tier = Tier::B;
    assert_eq!(amm.get_sanitize_clamp_denominator(), Ok(Some(5)));
}

#[test]
fn division_rounds_toward_zero() {
    assert_eq!(truncating_div_i64(-7, 2), Some(-3));
    assert_eq!(truncating_div_i64(7, -2), Some(-3));
    assert_eq!(truncating_div_i64(i64::MIN, -1), None);
    assert_eq!(truncating_div_i64(1, 0), None);
}

#[test]
fn swap_fees_accrue_in_the_fee_token() {
    let mut amm = AMM::default();
    let rewards = [AMMRewardInfo::new([9u8; 32]); 3];
    amm.update_after_swap(5, -3, 77, 11, rewards, 40, true, 123);
    amm.update_after_swap(5, -3, 77, 12, rewards, 2, true, 124);
    assert_eq!(amm.protocol_fee_owed_synthetic, 42);
    assert_eq!(amm.protocol_fee_owed_quote, 0);
    assert_eq!(amm.fee_growth_global_synthetic, 12);
    assert_eq!(amm.tick_current_index, -3);
    assert_eq!(amm.reward_last_updated_timestamp, 124);
    amm.reset_protocol_fees_owed();
    assert_eq!(amm.protocol_fee_owed_synthetic, 0);
    assert_eq!(amm.input_token_mint(true), amm.token_mint_synthetic);
    assert_eq!(AMMRewardInfo::to_reward_growths(&rewards), [0, 0, 0]);
}

#[test]
fn reward_is_initialized_once_its_mint_is_set() {
    let mut reward = AMMRewardInfo::new([9u8; 32]);
    assert!(!reward.initialized());
    reward.mint[31] = 1;
    assert!(reward.initialized());
}

#[test]
fn market_sets() {
    assert_eq!(get_writable_market_set(3), BTreeSet::from([3]));
    assert_eq!(get_writable_market_set_from_many(vec![1, 2, 2]), BTreeSet::from([1, 2]));
    assert_eq!(get_writable_vault_set_from_vec(&[4, 4]), BTreeSet::from([4]));
    assert_eq!(get_market_set_from_list([1, 100, 3, 100, 5]), BTreeSet::from([1, 3, 5]));
}

#[test]
fn market_accounts_are_read_until_another_kind() {
    let mut other = market_account(9, true);
    other.data[0] = 0;
    let accounts = vec![market_account(1, true), market_account(0, false), other, market_account(5, true)];
    let (map, next) = MarketMap::load(&BTreeSet::from([1]), &accounts, 0, &MARKET_DISCRIMINATOR).unwrap();
    assert_eq!(next, 2);
    assert_eq!(map.get_ref(&1), Ok(0));
    assert_eq!(map.get_quote_market(), Ok(1));
    assert_eq!(map.get_ref(&5), Err(ErrorCode::MarketNotFound));
    assert_eq!(map.get_ref_mut(&1), Ok(0));
    assert_eq!(map.get_quote_market_mut(), Err(ErrorCode::MarketWrongMutability));
}

#[test]
fn market_accounts_are_refused() {
    let twice = vec![market_account(1, true), market_account(1, true)];
    assert!(matches!(MarketMap::load(&BTreeSet::new(), &twice, 0, &MARKET_DISCRIMINATOR), Err(ErrorCode::InvalidMarketAccount)));
    let read_only = vec![market_account(1, false)];
    assert!(matches!(MarketMap::load(&BTreeSet::from([1]), &read_only, 0, &MARKET_DISCRIMINATOR), Err(ErrorCode::MarketWrongMutability)));
    let mut foreign = market_account(2, true);
    foreign.loads = false;
    assert!(matches!(MarketMap::load(&BTreeSet::new(), &vec![foreign.clone()], 0, &MARKET_DISCRIMINATOR), Err(ErrorCode::InvalidMarketAccount)));
    assert!(matches!(MarketMap::load_one(&market_account(2, true), false, &MARKET_DISCRIMINATOR), Err(ErrorCode::MarketWrongMutability)));
    let one = MarketMap::load_one(&market_account(2, true), true, &MARKET_DISCRIMINATOR).unwrap();
    assert_eq!(one.get_ref_mut(&2), Ok(0));
    let mut short = market_account(2, true);
    short.data.truncate(100);
    assert!(matches!(MarketMap::load_multiple(&vec![market_account(3, true), short], true, &MARKET_DISCRIMINATOR),
        Err(ErrorCode::CouldNotLoadMarketData)));
    let many = MarketMap::load_multiple(&vec![market_account(3, true), market_account(4, true)], true, &MARKET_DISCRIMINATOR).unwrap();
    assert_eq!(many.get_ref_mut(&4), Ok(1));
}

#[test]
fn vault_accounts() {
    let accounts = vec![vault_account(7, true), vault_account(8, false)];
    let (map, next) = VaultMap::load(&BTreeSet::new(), &accounts, 0, &MARKET_DISCRIMINATOR).unwrap();
    assert_eq!(next, 2);
    assert_eq!(map.get_ref(&8), Ok(1));
    assert_eq!(map.get_ref(&9), Err(ErrorCode::VaultNotFound));
    let mut foreign = vault_account(8, false);
    foreign.loads = false;
    // a vault's mutability is checked before it is loaded
    assert!(matches!(VaultMap::load(&BTreeSet::from([8]), &vec![foreign], 0, &MARKET_DISCRIMINATOR), Err(ErrorCode::MarketWrongMutability)));
}

#[test]
fn sub_account_limits_and_fees() {
    assert_eq!(state(0, 5, 0).max_number_of_sub_accounts(), 5);
    assert_eq!(state(0, 6, 0).max_number_of_sub_accounts(), 600);
    assert_eq!(state(100, 10, 900).get_init_user_fee(), Ok(500_000_000));
    assert_eq!(state(100, 10, 800).get_init_user_fee(), Ok(0));
    assert_eq!(state(100, 10, 1000).get_init_user_fee(), Ok(1_000_000_000));
    assert_eq!(ExchangeStatus::active(), 0);
    let mut s = state(0, 0, 0);
    s.exchange_status = ExchangeStatus::AmmPaused.bit() | ExchangeStatus::LiqPaused.bit();
    assert_eq!(s.get_exchange_status(), Ok(24));
    s.exchange_status = 0b0100_0000;
    assert_eq!(s.get_exchange_status(), Err(ErrorCode::FailedUnwrap));
}

#[test]
fn first_sub_account_records_its_referrer() {
    let mut new_user = user(2, 0);
    let mut stats = UserStats::new([2u8; 32]);
    let mut st = state(0, 0, 0);
    let referrer = user(7, 0);
    let mut referrer_stats = Some(UserStats::new([7u8; 32]));
    let fee = handle_initialize_user(&mut new_user, &mut stats, &mut st, Some(&referrer), &mut referrer_stats,
        [2u8; 32], 0, [5u8; 32], 0);
    assert_eq!(fee, Ok(0));
    assert_eq!(stats.referrer, [7u8; 32]);
    assert!(stats.has_referrer());
    assert!(referrer_stats.unwrap().is_referrer);
    assert_eq!(stats.number_of_sub_accounts, 1);
    assert_eq!(stats.number_of_sub_accounts_created, 1);
    assert_eq!(st.number_of_sub_accounts, 1);
    assert_eq!(new_user.name, [5u8; 32]);
    // the next sub account must be number 1
    let mut second = user(2, 0);
    assert_eq!(handle_initialize_user(&mut second, &mut stats, &mut st, None, &mut None, [2u8; 32], 3, [0u8; 32], 0),
        Err(ErrorCode::InvalidUserSubAccountId));
    assert_eq!(handle_initialize_user(&mut second, &mut stats, &mut st, None, &mut None, [2u8; 32], 1, [0u8; 32], 0), Ok(0));
    assert_eq!(stats.number_of_sub_accounts_created, 2);
    assert_eq!(stats.referrer, [7u8; 32]);
}

#[test]
fn referrer_must_be_a_first_sub_account_of_its_authority() {
    let mut stats = UserStats::new([2u8; 32]);
    let mut st = state(0, 0, 0);
    let mut referrer_stats = Some(UserStats::new([7u8; 32]));
    assert_eq!(handle_initialize_user(&mut user(2, 0), &mut stats, &mut st, Some(&user(7, 1)), &mut referrer_stats,
        [2u8; 32], 0, [0u8; 32], 0), Err(ErrorCode::InvalidReferrer));
    assert_eq!(handle_initialize_user(&mut user(2, 0), &mut stats, &mut st, Some(&user(8, 0)), &mut referrer_stats,
        [2u8; 32], 0, [0u8; 32], 0), Err(ErrorCode::ReferrerAndReferrerStatsAuthorityUnequal));
    assert_eq!(stats.number_of_sub_accounts, 0);
    assert_eq!(st.number_of_sub_accounts, 0);
}

#[test]
fn creating_a_user_costs_the_fee() {
    let mut stats = UserStats::new([2u8; 32]);
    let mut st = state(100, 10, 899);
    assert_eq!(handle_initialize_user(&mut user(2, 0), &mut stats, &mut st, None, &mut None, [2u8; 32], 0, [0u8; 32], 100_000_000),
        Err(ErrorCode::CantPayUserInitFee));
    assert_eq!(st.number_of_sub_accounts, 899);
    assert_eq!(handle_initialize_user(&mut user(2, 0), &mut stats, &mut st, None, &mut None, [2u8; 32], 0, [0u8; 32], 500_000_000),
        Ok(500_000_000));
    let mut full = state(0, 1, 100);
    assert_eq!(handle_initialize_user(&mut user(2, 0), &mut UserStats::new([3u8; 32]), &mut full, None, &mut None, [3u8; 32], 0,
        [0u8; 32], 0), Err(ErrorCode::MaxNumberOfUsers));
}

#[test]
fn user_stats_accounts_are_counted() {
    let mut st = state(0, 0, 0);
    let stats = handle_initialize_user_stats(&mut st, [4u8; 32]).unwrap();
    assert_eq!(stats.authority, [4u8; 32]);
    assert_eq!(st.number_of_authorities, 1);
    let mut limited = state(0, 1, 0);
    limited.number_of_authorities = 1;
    assert!(matches!(handle_initialize_user_stats(&mut limited, [4u8; 32]), Err(ErrorCode::MaxNumberOfUsers)));
}

#[test]
fn deleting_and_reclaiming() {
    let mut stats = UserStats::new([2u8; 32]);
    let mut st = state(0, 0, 0);
    assert_eq!(handle_delete_user(&user(2, 1), &mut stats, &mut st), Err(ErrorCode::MathError));
    stats.number_of_sub_accounts = 2;
    st.number_of_sub_accounts = 5;
    assert_eq!(handle_delete_user(&user(2, 1), &mut stats, &mut st), Ok(()));
    assert_eq!((stats.number_of_sub_accounts, st.number_of_sub_accounts), (1, 4));
    stats.is_referrer = true;
    assert_eq!(handle_delete_user(&user(2, 0), &mut stats, &mut st), Err(ErrorCode::UserCantBeDeleted));
    assert_eq!((stats.number_of_sub_accounts, st.number_of_sub_accounts), (1, 4));
    assert_eq!(handle_delete_user(&user(2, 1), &mut stats, &mut st), Ok(()));
    assert_eq!((stats.number_of_sub_accounts, st.number_of_sub_accounts), (0, 3));
    stats.is_referrer = false;
    assert_eq!(handle_reclaim_rent(2_000, 1_500, &state(0, 0, 0), &stats, 0), Ok(500));
    assert_eq!(handle_reclaim_rent(1_000, 1_500, &state(0, 0, 0), &stats, 0), Err(ErrorCode::CantReclaimRent));
    assert_eq!(handle_reclaim_rent(2_000, 1_500, &state(0, 3, 0), &stats, 100), Err(ErrorCode::CantReclaimRent));
    assert_eq!(handle_reclaim_rent(2_000, 1_500, &state(0, 3, 0), &stats, 2_000_000), Ok(500));
}

#[test]
fn reduce_only_and_referrer_names() {
    let mut u = user(1, 0);
    assert_eq!(handle_update_user_reduce_only(&mut u, true), Ok(()));
    assert!(u.is_reduce_only());
    u.add_user_status(UserStatus::BeingLiquidated);
    assert_eq!(handle_update_user_reduce_only(&mut u, false), Err(ErrorCode::LiquidationsOngoing));
    assert!(u.is_reduce_only());
    assert!(matches!(handle_initialize_referrer_name(&user(1, 1), [1u8; 32], [2u8; 32], [3u8; 32], [4u8; 32]),
        Err(ErrorCode::InvalidReferrer)));
    let name = handle_initialize_referrer_name(&user(1, 0), [1u8; 32], [2u8; 32], [3u8; 32], [4u8; 32]).unwrap();
    assert_eq!(name.user_stats, [3u8; 32]);
}

#[test]
fn vaults_open_in_live_markets() {
    let mut m = Market::default();
    m.market_index = 6;
    assert!(matches!(handle_initialize_vault(&m, [1u8; 32], 2, [3u8; 32]), Err(ErrorCode::MarketBeingInitialized)));
    m.status = MarketStatus::Active;
    let v = handle_initialize_vault(&m, [1u8; 32], 2, [3u8; 32]).unwrap();
    assert_eq!((v.vault_index, v.market_index, v.status), (2, 6, 0));
    assert_eq!(v.vault, [3u8; 32]);
}

#[test]
fn vault_config_bounds_fee_rates() {
    let mut c = VaultsConfig {
        mint: [0u8; 32],
        oracle: [0u8; 32],
        amm: [0u8; 32],
        collateral_type: [0u8; 32],
        min_collateral_ratio: 0,
        debt_ceiling: 0,
        default_liquidity_utilization: 0,
        max_liquidity_utilization: 0,
        auction_preference: AuctionPreference::Private,
        start_price: 0,
        duration: 0,
        bid_decrease_rate: 0,
        lot_size: 0,
        max_lot_size: 0,
        liquidation_penalty: 0,
        fee_authority: [0u8; 32],
        collect_protocol_fees_authority: [0u8; 32],
        reward_emissions_super_authority: [0u8; 32],
        default_protocol_fee_rate: 0,
    };
    assert_eq!(c.initialize([1u8; 32], [2u8; 32], [3u8; 32], 3_000), Err(ErrorCode::ProtocolFeeRateMaxExceeded));
    assert_eq!(c.fee_authority, [0u8; 32]);
    assert_eq!(c.initialize([1u8; 32], [2u8; 32], [3u8; 32], 300), Ok(()));
    assert_eq!(c.default_protocol_fee_rate, 300);
    assert_eq!(c.update_liquidation_penalty(2_501), Err(ErrorCode::ProtocolFeeRateMaxExceeded));
}

#[test]
fn index_market_assets() {
    let mut im = IndexMarket::default();
    assert_eq!(im.visibility, IndexVisibility::Private);
    let asset = IndexAsset { mint: [1u8; 32], vault: [2u8; 32], market_index: 1, weight: 3000, last_updated_ts: 0 };
    im.assets.push(([1u8; 32], asset));
    im.assets.push(([2u8; 32], IndexAsset { weight: 7000, ..asset }));
    assert_eq!(im.get_total_weight(), Ok(10_000));
    im.update_asset_weight([2u8; 32], 5000).unwrap();
    assert_eq!(im.get_total_weight(), Ok(8_000));
    im.whitelist.push([9u8; 32]);
    assert!(im.can_invest([9u8; 32]));
    assert!(!im.can_invest([8u8; 32]));
    assert!(im.update_visibility(IndexVisibility::Public));
    assert!(!im.update_visibility(IndexVisibility::Private));
    im.update_asset_weight([1u8; 32], 1).unwrap();
    assert_eq!(im.get_total_weight(), Ok(8_000));
    assert_eq!(im.total_assets(), 2);
}

#[test]
fn fund_weights() {
    let mut f = Fund {
        pubkey: [0u8; 32],
        admin: [0u8; 32],
        name: [0u8; 32],
        oracle: [0u8; 32],
        oracle_source: OracleSource::PythPull,
        weighting_method: WeightingMethod::Custom,
        assets: vec![([1u8; 32], FundAsset { market_index: 1, weight: 60_000 }), ([2u8; 32], FundAsset { market_index: 2, weight: 6_000 })],
        public: false,
        manager_fee: 0,
        total_manager_fees: 0,
        min_rebalance_ts: 5,
        rebalanced_ts: 10,
        updated_ts: 0,
    };
    assert_eq!(f.get_total_weight(), Err(ErrorCode::MathError));
    f.update_asset_weight([1u8; 32], 4_000).unwrap();
    assert_eq!(f.get_total_weight(), Ok(10_000));
    assert!(f.can_rebalance());
    assert_eq!(f.time_since_last_rebalance(15), Ok(-5));
}

#[test]
fn ticks_and_positions() {
    assert!(check_is_usable_tick(-128, 64));
    assert!(!check_is_usable_tick(-100, 64));
    assert!(!check_is_usable_tick(443_700, 1));
    assert_eq!(full_range_indexes(32768), (-425_984, 425_984));
    let mut m = Market::default();
    m.pubkey = [5u8; 32];
    m.amm.tick_spacing = 64;
    let empty_reward = LiquidityPositionRewardInfo { growth_inside_checkpoint: 0, amount_owed: 0 };
    let mut p = LiquidityPosition {
        market: [0u8; 32],
        position_mint: [0u8; 32],
        liquidity: 0,
        tick_lower_index: 0,
        tick_upper_index: 0,
        fee_growth_checkpoint_a: 0,
        fee_owed_a: 0,
        fee_growth_checkpoint_b: 0,
        fee_owed_b: 0,
        reward_infos: [empty_reward; 3],
    };
    assert!(LiquidityPosition::is_position_empty(&p));
    assert_eq!(p.open_position(&m, [6u8; 32], 128, -128), Err(ErrorCode::InvalidTickIndex));
    assert_eq!(p.open_position(&m, [6u8; 32], -128, 128), Ok(()));
    assert_eq!(p.market, [5u8; 32]);
    p.update_reward_owed(2, 9);
    assert!(!LiquidityPosition::is_position_empty(&p));
    m.amm.tick_spacing = 32768;
    assert_eq!(p.open_position(&m, [6u8; 32], -32768, 32768), Err(ErrorCode::FullRangeOnlyPool));
    assert_eq!(p.open_position(&m, [6u8; 32], -425_984, 425_984), Ok(()));
}

#[test]
fn collateral_positions() {
    let mut c = CollateralPosition { scaled_balance: 0, cumulative_deposits: 0, market_index: 3 };
    assert!(c.is_available());
    assert!(!c.is_for(3));
    c.increase_balance(10_000_000_000_000).unwrap();
    assert!(c.is_for(3));
    let mut m = Market::default();
    m.decimals = 6;
    assert_eq!(c.get_token_amount(&m), Ok(1));
    assert_eq!(c.get_signed_token_amount(&m), Ok(1));
    assert_eq!(c.decrease_balance(10_000_000_000_001), Err(ErrorCode::MathError));
    assert_eq!(c.increase_balance(u64::MAX as u128), Err(ErrorCode::MathError));
}

#[test]
fn balances_give_back_their_token_amount() {
    let mut m = Market::default();
    m.decimals = 6;
    let balance = get_spot_balance(5, &m, false).unwrap();
    assert_eq!(balance, 50_000_000_000_000);
    assert_eq!(get_token_amount(balance, &m), Ok(5));
    assert_eq!(get_spot_balance(5, &m, true), Ok(50_000_000_000_001));
}

#[test]
fn equity_adds_token_values_and_pnl() {
    assert_eq!(get_token_value(2_000_000_000, 9, 1_500_000), Ok(3_000_000));
    assert_eq!(get_token_value(-1, 6, 1_500_000), Ok(-2));
    let good = EquityPosition {
        token_amount: 2_000_000_000,
        decimals: 9,
        oracle_price: 1_500_000,
        oracle_validity: OracleValidity::Valid,
        unrealized_pnl: 1_000_000,
        quote_oracle_price: 1_000_000,
    };
    assert_eq!(calculate_user_equity(&vec![good]), Ok((4_000_000, true)));
    let shaky = EquityPosition { oracle_validity: OracleValidity::TooVolatile, unrealized_pnl: -3, quote_oracle_price: 500_000, ..good };
    assert_eq!(calculate_user_equity(&vec![good, shaky]), Ok((7_000_000 - 1, false)));
    assert_eq!(calculate_user_equity(&vec![]), Ok((0, true)));
}

#[test]
fn settled_remainders_keep_the_total() {
    let mut m = Market::default();
    m.amm.order_step_size = 10;
    let position = PerpPosition {
        base_asset_amount: 100,
        quote_asset_amount: 0,
        remainder_base_asset_amount: 7,
        open_bids: 0,
        open_asks: 0,
        market_index: 0,
    };
    let delta = PositionDelta { quote_asset_amount: 0, base_asset_amount: 20, remainder_base_asset_amount: Some(5) };
    let (base, settled, remainder) = get_new_position_amounts(&position, &delta, &m).unwrap();
    assert_eq!((base, settled, remainder), (130, 30, 2));
    assert_eq!(base + remainder, 100 + 7 + 20 + 5);
}

#[test]
fn directions_turn_around() {
    assert_eq!(OrderDirection::Buy.opposite(), OrderDirection::Sell);
    assert_eq!(OrderDirection::Sell.opposite().opposite(), OrderDirection::Sell);
    assert_eq!(OrderSide::Buy.opposite().opposite(), OrderSide::Buy);
}

#[test]
fn order_slot_is_the_earlier_one() {
    let mut options = PlaceOrderOptions::default();
    assert_eq!(options.get_order_slot(50), 50);
    options.set_order_slot(40);
    assert_eq!(options.get_order_slot(50), 40);
    assert_eq!(options.get_order_slot(30), 30);
    options.update_risk_increasing(true);
    options.update_risk_increasing(false);
    assert!(options.risk_increasing);
}

#[test]
fn equal_weights_share_the_whole_fund() {
    assert_eq!(equal_weight(1), 10000);
    assert_eq!(equal_weight(3), 3333);
    assert_eq!(equal_weight(4), 2500);
    assert_eq!(equal_weight(10001), 0);
}

#[test]
fn vault_deposits_need_an_amount() {
    assert_eq!(validate_vault_deposit_amount(0), Err(ErrorCode::LiquidityZero));
    assert_eq!(validate_vault_deposit_amount(1), Ok(()));
}

#[test]
fn auction_duration_scales_with_the_price_move() {
    assert_eq!(get_auction_duration(1_000, 1_000_000, Tier::A), Ok(10));
    assert_eq!(get_auction_duration(20_000, 1_000_000, Tier::C), Ok(120));
    assert_eq!(get_auction_duration(50_000, 1_000_000, Tier::A), Ok(180));
    // the scaled move overflows before the price divides it, even a zero price
    assert_eq!(get_auction_duration(u64::MAX, 0, Tier::A), Err(ErrorCode::MathError));
    assert_eq!(get_auction_duration(u64::MAX, 1_000_000, Tier::A), Err(ErrorCode::MathError));
}
