use normal::constants::THIRTY_DAY;
use normal::error::ErrorCode;
use normal::state::insurance::{InsuranceFund, InsuranceFundStake};
use normal::state::paused_operations::{InsuranceFundOperation, MarketOperation};
use normal::state::user::{User, UserStatus};
use normal::state::user_stats::{calculate_rolling_sum, UserStats};
use normal::state::vault::{Vault, VaultStatus};

fn user() -> User {
    User {
        authority: [1u8; 32],
        delegate: [0u8; 32],
        name: [0u8; 32],
        total_deposits: 0,
        total_withdraws: 0,
        total_social_loss: 0,
        cumulative_swap_fees: 0,
        liquidation_margin_freed: 0,
        last_active_slot: 0,
        max_margin_ratio: 0,
        next_liquidation_id: 1,
        sub_account_id: 0,
        status: 0,
        idle: false,
        orders: vec![],
        positions: vec![],
    }
}

fn vault() -> Vault {
    Vault {
        pubkey: [2u8; 32],
        authority: [1u8; 32],
        delegate: [0u8; 32],
        config: [0u8; 32],
        vault: [3u8; 32],
        vault_index: 4,
        market_index: 1,
        status: 0,
        last_active_slot: 0,
        idle: false,
        liquidity_balance: 0,
        collateralization_ratio: 0,
        synthetic_tokens_minted: 0,
        liquidation_margin_freed: 0,
        next_liquidation_id: 1,
        token_program: 0,
    }
}

fn fund(shares_base: u128) -> InsuranceFund {
    InsuranceFund {
        authority: [0u8; 32],
        vault: [0u8; 32],
        total_shares: 0,
        user_shares: 0,
        shares_base,
        unstaking_period: 0,
        last_revenue_settle_ts: 0,
        revenue_settle_period: 0,
        total_factor: 0,
        user_factor: 0,
        max_insurance: 0,
        paused_operations: 0b0000_0100,
    }
}

#[test]
fn status_flags_are_independent() {
    let mut u = user();
    u.add_user_status(UserStatus::ReduceOnly);
    assert!(u.is_reduce_only());
    assert!(!u.is_being_liquidated());
    u.add_user_status(UserStatus::BeingLiquidated);
    assert!(u.is_being_liquidated());
    assert!(u.is_reduce_only());
    u.remove_user_status(UserStatus::ReduceOnly);
    assert!(!u.is_reduce_only());
    assert!(u.is_being_liquidated());
}

#[test]
fn liquidation_hands_out_ids_once() {
    let mut u = user();
    u.liquidation_margin_freed = 7;
    assert_eq!(u.enter_liquidation(50), Ok(1));
    assert!(u.is_being_liquidated());
    assert_eq!(u.liquidation_margin_freed, 0);
    assert_eq!(u.last_active_slot, 50);
    // a user already being liquidated keeps its liquidation id
    assert_eq!(u.enter_liquidation(60), Ok(1));
    assert_eq!(u.next_liquidation_id, 2);
    u.enter_bankruptcy();
    assert!(u.is_bankrupt());
    assert!(u.is_being_liquidated());
    u.exit_bankruptcy();
    assert!(!u.is_bankrupt());
    assert!(!u.is_being_liquidated());
}

#[test]
fn liquidation_id_wraps_past_the_top() {
    let mut u = user();
    u.next_liquidation_id = u16::MAX;
    assert_eq!(u.enter_liquidation(1), Ok(u16::MAX));
    assert_eq!(u.next_liquidation_id, 1);
}

#[test]
fn exit_liquidation_keeps_reduce_only() {
    let mut u = user();
    u.update_reduce_only_status(true).unwrap();
    u.enter_liquidation(3).unwrap();
    u.increment_margin_freed(10).unwrap();
    assert_eq!(u.liquidation_margin_freed, 10);
    u.exit_liquidation();
    assert!(!u.is_being_liquidated());
    assert!(u.is_reduce_only());
    assert_eq!(u.liquidation_margin_freed, 0);
}

#[test]
fn active_slot_is_frozen_during_liquidation() {
    let mut u = user();
    u.idle = true;
    u.update_last_active_slot(5);
    assert_eq!(u.last_active_slot, 5);
    assert!(!u.idle);
    u.enter_liquidation(6).unwrap();
    u.update_last_active_slot(9);
    assert_eq!(u.last_active_slot, 6);
}

#[test]
fn deposits_are_counted_at_their_value() {
    let mut u = user();
    u.increment_total_deposits(2_000_000_000, 1_500_000, 1_000_000_000).unwrap();
    assert_eq!(u.total_deposits, 3_000_000);
    u.increment_total_withdraws(1_000_000_000, 1_000_000, 1_000_000_000).unwrap();
    assert_eq!(u.total_withdraws, 1_000_000);
    assert_eq!(u.increment_total_deposits(1, -1, 1), Err(ErrorCode::MathError));
    u.update_cumulative_swap_fees(-5).unwrap();
    assert_eq!(u.cumulative_swap_fees, -5);
}

#[test]
fn vault_follows_the_same_status_rules() {
    let mut v = vault();
    assert_eq!(v.enter_liquidation(11), Ok(1));
    assert!(v.is_being_liquidated());
    assert_eq!(v.enter_liquidation(12), Ok(1));
    v.exit_liquidation();
    assert!(!v.is_being_liquidated());
    v.update_reduce_only_status(true).unwrap();
    assert!(v.is_reduce_only());
    v.add_user_status(VaultStatus::Bankrupt);
    assert!(v.is_bankrupt());
}

#[test]
fn rolling_sum_decays_with_elapsed_time() {
    assert_eq!(calculate_rolling_sum(1000, 10, THIRTY_DAY / 2, THIRTY_DAY), Ok(510));
    assert_eq!(calculate_rolling_sum(1000, 10, THIRTY_DAY * 2, THIRTY_DAY), Ok(10));
    assert_eq!(calculate_rolling_sum(1000, 10, 0, THIRTY_DAY), Ok(1010));
    assert_eq!(calculate_rolling_sum(1000, 10, 0, 0), Err(ErrorCode::MathError));
}

#[test]
fn maker_and_taker_volume() {
    let mut s = UserStats::new([1u8; 32]);
    s.update_maker_volume_30d(1_000, 100).unwrap();
    assert_eq!(s.maker_volume_30d, 1_000);
    assert_eq!(s.last_maker_volume_30d_ts, 100);
    s.update_taker_volume_30d(500, 100).unwrap();
    assert_eq!(s.get_total_30d_volume(), Ok(1_500));
    assert!(!s.has_referrer());
    assert_eq!(s.get_age_ts(200), 200);
}

#[test]
fn insurance_shares_need_the_current_base() {
    let f = fund(0);
    let mut stake = InsuranceFundStake::new([1u8; 32], 10);
    stake.increase_if_shares(100, &f).unwrap();
    assert_eq!(stake.checked_if_shares(&f), Ok(100));
    stake.decrease_if_shares(40, &f).unwrap();
    assert_eq!(stake.unchecked_if_shares(), 60);
    assert_eq!(stake.decrease_if_shares(61, &f), Err(ErrorCode::MathError));
    let rebased = fund(1);
    assert_eq!(stake.checked_if_shares(&rebased), Err(ErrorCode::InvalidIFRebase));
    assert_eq!(stake.increase_if_shares(1, &rebased), Err(ErrorCode::InvalidIFRebase));
    assert_eq!(stake.unchecked_if_shares(), 60);
}

#[test]
fn increasing_then_decreasing_shares_gives_them_back() {
    let f = fund(0);
    let mut stake = InsuranceFundStake::new([1u8; 32], 10);
    stake.update_if_shares(77, &f).unwrap();
    stake.increase_if_shares(23, &f).unwrap();
    stake.decrease_if_shares(23, &f).unwrap();
    assert_eq!(stake.unchecked_if_shares(), 77);
}

#[test]
fn paused_operations_by_bit() {
    assert!(MarketOperation::is_operation_paused(0b0000_0010, MarketOperation::Deposit));
    assert!(!MarketOperation::is_operation_paused(0b0000_0010, MarketOperation::Withdraw));
    assert_eq!(MarketOperation::paused_operations(0), vec![]);
    assert!(fund(0).is_operation_paused(InsuranceFundOperation::RequestRemove));
    assert!(!fund(0).is_operation_paused(InsuranceFundOperation::Add));
    assert!(InsuranceFundOperation::is_operation_paused(0b1000, InsuranceFundOperation::Remove));
}
