use normal::error::ErrorCode;
use normal::math::auction::{calculate_auction_price, is_auction_complete};
use normal::math::order_book::{
    find_bids_and_asks_from_users, find_maker_orders, get_price_for_order, should_expire_order,
    should_expire_order_before_fill, validate_fill_possible, BOOK_SIDE_CAPACITY,
};
use normal::math::orders::{
    calculate_fill_price, estimate_price_from_side, is_multiple_of_step_size, is_new_order_risk_increasing,
    order_satisfies_trigger_condition, should_cancel_reduce_only_order, standardize_base_asset_amount,
    standardize_base_asset_amount_ceil, standardize_base_asset_amount_with_remainder_i128, standardize_price,
    validate_fill_price, Level,
};
use normal::state::amm::AMM;
use normal::state::fill_mode::FillMode;
use normal::state::market::Market;
use normal::state::oracle::OraclePriceData;
use normal::state::order_params::{OrderSide, PostOnlyParam};
use normal::state::state::{MarketType, OracleGuardRails, State};
use normal::state::user::{Order, OrderStatus, OrderTriggerCondition, OrderType, PerpPosition, User};

fn order(side: OrderSide, order_type: OrderType, price: u64, base: u64) -> Order {
    Order {
        status: OrderStatus::Open,
        order_type,
        market_type: MarketType::Synth,
        slot: 0,
        max_ts: 0,
        price,
        base_asset_amount: base,
        base_asset_amount_filled: 0,
        trigger_price: 0,
        auction_start_price: 0,
        auction_end_price: 0,
        market_index: 0,
        side,
        reduce_only: false,
        post_only: false,
        immediate_or_cancel: false,
        trigger_condition: OrderTriggerCondition::Above,
        auction_duration: 0,
        oracle_price_offset: 0,
    }
}

fn user_with(orders: Vec<Order>) -> User {
    User {
        authority: [1u8; 32],
        delegate: [0u8; 32],
        name: [0u8; 32],
        total_deposits: 0,
        total_withdraws: 0,
        total_social_loss: 0,
        cumulative_swap_fees: 0,
        liquidation_margin_freed: 0,
        last_active_slot: 0,
        max_margin_ratio: 0,
        next_liquidation_id: 1,
        sub_account_id: 0,
        status: 0,
        idle: false,
        orders,
        positions: vec![PerpPosition {
            base_asset_amount: 0,
            quote_asset_amount: 0,
            remainder_base_asset_amount: 0,
            open_bids: 0,
            open_asks: 0,
            market_index: 0,
        }],
    }
}

fn market() -> Market {
    let mut m = Market::default();
    m.amm.order_tick_size = 1;
    m.amm.order_step_size = 1;
    m
}

fn oracle(price: i64) -> OraclePriceData {
    OraclePriceData { price, confidence: 1, delay: 0, has_sufficient_number_of_data_points: true }
}

#[test]
fn standardize_rounds_down_to_step() {
    assert_eq!(standardize_base_asset_amount(100, 30), Ok(90));
    assert_eq!(standardize_base_asset_amount(90, 30), Ok(90));
    assert_eq!(standardize_base_asset_amount(100, 0), Err(ErrorCode::MathError));
}

#[test]
fn standardize_ceil_rounds_up_to_step() {
    assert_eq!(standardize_base_asset_amount_ceil(100, 30), Ok(120));
    assert_eq!(standardize_base_asset_amount_ceil(90, 30), Ok(90));
}

#[test]
fn standardized_amount_is_a_multiple_of_the_step() {
    let a = standardize_base_asset_amount(12345, 100).unwrap();
    assert_eq!(is_multiple_of_step_size(a, 100), Ok(true));
    assert_eq!(is_multiple_of_step_size(12345, 100), Ok(false));
}

#[test]
fn remainder_keeps_the_sign_of_the_amount() {
    assert_eq!(standardize_base_asset_amount_with_remainder_i128(-100, 30), Ok((-90, -10)));
    assert_eq!(standardize_base_asset_amount_with_remainder_i128(100, 30), Ok((90, 10)));
    let (whole, rem) = standardize_base_asset_amount_with_remainder_i128(-77, 10).unwrap();
    assert_eq!(whole + rem, -77);
}

#[test]
fn prices_round_toward_the_side() {
    assert_eq!(standardize_price(105, 10, OrderSide::Buy), Ok(100));
    assert_eq!(standardize_price(105, 10, OrderSide::Sell), Ok(110));
    assert_eq!(standardize_price(0, 10, OrderSide::Sell), Ok(0));
    assert_eq!(standardize_price(105, 0, OrderSide::Sell), Err(ErrorCode::MathError));
}

#[test]
fn standardizing_a_price_twice_changes_nothing() {
    let once = standardize_price(123_457, 100, OrderSide::Sell).unwrap();
    assert_eq!(standardize_price(once, 100, OrderSide::Sell), Ok(once));
}

#[test]
fn fill_price_is_quote_per_base() {
    assert_eq!(calculate_fill_price(1_000_000, 2_000_000_000, 1_000_000_000), Ok(500_000));
    assert_eq!(calculate_fill_price(1, 0, 1), Err(ErrorCode::MathError));
}

#[test]
fn fill_price_beyond_the_limit_is_refused() {
    assert_eq!(validate_fill_price(2_000_000, 1_000_000_000, 1_000_000_000, OrderSide::Buy, 1_000_000, false),
        Err(ErrorCode::InvalidOrderFillPrice));
    assert_eq!(validate_fill_price(1_000_000, 1_000_000_000, 1_000_000_000, OrderSide::Buy, 1_000_000, false), Ok(()));
    assert_eq!(validate_fill_price(1_000_000, 1_000_000_000, 1_000_000_000, OrderSide::Sell, 2_000_000, false),
        Err(ErrorCode::InvalidOrderFillPrice));
}

#[test]
fn depth_price_averages_the_levels_taken() {
    let side = vec![Level { price: 100, base_asset_amount: 10 }, Level { price: 90, base_asset_amount: 10 }];
    assert_eq!(estimate_price_from_side(&side, 15), Ok(Some(96)));
    assert_eq!(estimate_price_from_side(&side, 10), Ok(Some(100)));
    assert_eq!(estimate_price_from_side(&side, 25), Ok(None));
}

#[test]
fn trigger_conditions() {
    let mut o = order(OrderSide::Buy, OrderType::TriggerMarket, 0, 10);
    o.trigger_price = 100;
    assert_eq!(order_satisfies_trigger_condition(&o, 101), Ok(true));
    assert_eq!(order_satisfies_trigger_condition(&o, 100), Ok(false));
    o.trigger_condition = OrderTriggerCondition::Below;
    assert_eq!(order_satisfies_trigger_condition(&o, 99), Ok(true));
    o.trigger_condition = OrderTriggerCondition::TriggeredAbove;
    assert_eq!(order_satisfies_trigger_condition(&o, 99), Err(ErrorCode::InvalidTriggerOrderCondition));
}

#[test]
fn risk_increase_of_a_new_order() {
    let buy = order(OrderSide::Buy, OrderType::Limit, 100, 10);
    assert_eq!(is_new_order_risk_increasing(&buy, 5, 0, 0), Ok(true));
    assert_eq!(is_new_order_risk_increasing(&buy, -20, 0, 0), Ok(false));
    assert_eq!(is_new_order_risk_increasing(&buy, -20, 15, 0), Ok(true));
    let mut reduce = buy;
    reduce.reduce_only = true;
    assert_eq!(is_new_order_risk_increasing(&reduce, 5, 0, 0), Ok(false));
    // the most negative position: answered for reduce only orders, sells, and overflowing bids
    assert_eq!(is_new_order_risk_increasing(&reduce, i64::MIN, 0, 0), Ok(false));
    let sell = order(OrderSide::Sell, OrderType::Limit, 100, 10);
    assert_eq!(is_new_order_risk_increasing(&sell, i64::MIN, 0, 0), Ok(true));
    assert_eq!(is_new_order_risk_increasing(&buy, i64::MIN, i64::MAX, 0), Err(ErrorCode::MathError));
}

#[test]
fn reduce_only_order_below_a_step_is_cancelled() {
    let mut o = order(OrderSide::Sell, OrderType::Limit, 100, 10);
    o.reduce_only = true;
    assert_eq!(should_cancel_reduce_only_order(&o, 5, 10), Ok(true));
    assert_eq!(should_cancel_reduce_only_order(&o, 50, 10), Ok(false));
}

#[test]
fn auction_completes_after_its_duration() {
    assert_eq!(is_auction_complete(10, 5, 15), Ok(false));
    assert_eq!(is_auction_complete(10, 5, 16), Ok(true));
    assert_eq!(is_auction_complete(10, 0, 0), Ok(true));
    assert_eq!(is_auction_complete(10, 5, 9), Err(ErrorCode::MathError));
    // once complete, it stays complete
    assert_eq!(is_auction_complete(10, 5, 1000), Ok(true));
}

#[test]
fn auction_price_moves_from_start_to_end() {
    let mut o = order(OrderSide::Buy, OrderType::Market, 0, 10);
    o.slot = 100;
    o.auction_duration = 10;
    o.auction_start_price = 1000;
    o.auction_end_price = 2000;
    assert_eq!(calculate_auction_price(&o, 100, 1, None), Ok(1000));
    assert_eq!(calculate_auction_price(&o, 105, 1, None), Ok(1500));
    assert_eq!(calculate_auction_price(&o, 200, 1, None), Ok(2000));
}

#[test]
fn sell_auction_price_only_falls_toward_the_end() {
    let mut o = order(OrderSide::Sell, OrderType::Market, 0, 10);
    o.slot = 50;
    o.auction_duration = 4;
    o.auction_start_price = 1000;
    o.auction_end_price = 900;
    let prices: Vec<u64> = (50..60u64).map(|s| calculate_auction_price(&o, s, 10, None).unwrap()).collect();
    assert_eq!(prices, vec![1000, 980, 950, 930, 900, 900, 900, 900, 900, 900]);
    assert!(prices.windows(2).all(|w| w[0] >= w[1]));
    let mut b = order(OrderSide::Buy, OrderType::Market, 0, 10);
    b.slot = 50;
    b.auction_duration = 4;
    b.auction_start_price = 900;
    b.auction_end_price = 1000;
    let prices: Vec<u64> = (50..60u64).map(|s| calculate_auction_price(&b, s, 10, None).unwrap()).collect();
    assert_eq!(prices, vec![900, 920, 950, 970, 1000, 1000, 1000, 1000, 1000, 1000]);
    // without a duration the end price holds at once
    b.auction_duration = 0;
    assert_eq!(calculate_auction_price(&b, 50, 10, None), Ok(1000));
}

#[test]
fn book_sides_are_sorted_best_first() {
    let u1 = user_with(vec![
        order(OrderSide::Buy, OrderType::Limit, 100, 5),
        order(OrderSide::Sell, OrderType::Limit, 120, 7),
        order(OrderSide::Buy, OrderType::Limit, 105, 3),
    ]);
    let u2 = user_with(vec![
        order(OrderSide::Sell, OrderType::Limit, 110, 2),
        order(OrderSide::Buy, OrderType::Limit, 101, 1),
    ]);
    let (bids, asks) = find_bids_and_asks_from_users(&market(), &oracle(100), &vec![u1, u2], 10, 0).unwrap();
    let bid_prices: Vec<u64> = bids.iter().map(|l| l.price).collect();
    let ask_prices: Vec<u64> = asks.iter().map(|l| l.price).collect();
    assert_eq!(bid_prices, vec![105, 101, 100]);
    assert_eq!(ask_prices, vec![110, 120]);
    assert_eq!(bids[0].base_asset_amount, 3);
    assert_eq!(asks[1].base_asset_amount, 7);
}

#[test]
fn book_skips_orders_that_do_not_rest() {
    let mut expired = order(OrderSide::Buy, OrderType::Limit, 99, 5);
    expired.max_ts = 5;
    let mut market_order = order(OrderSide::Buy, OrderType::Market, 98, 5);
    market_order.slot = 0;
    let mut other_market = order(OrderSide::Buy, OrderType::Limit, 97, 5);
    other_market.market_index = 3;
    let mut canceled = order(OrderSide::Buy, OrderType::Limit, 96, 5);
    canceled.status = OrderStatus::Canceled;
    let u = user_with(vec![expired, market_order, other_market, canceled, order(OrderSide::Buy, OrderType::Limit, 95, 4)]);
    let (bids, asks) = find_bids_and_asks_from_users(&market(), &oracle(100), &vec![u], 10, 10).unwrap();
    assert_eq!(bids, vec![Level { price: 95, base_asset_amount: 4 }]);
    assert!(asks.is_empty());
}

#[test]
fn book_keeps_only_the_best_levels() {
    let mut orders = Vec::new();
    for p in 0..40u64 {
        orders.push(order(OrderSide::Sell, OrderType::Limit, 1000 + p, 1));
    }
    let (_, asks) = find_bids_and_asks_from_users(&market(), &oracle(100), &vec![user_with(orders)], 10, 0).unwrap();
    assert_eq!(asks.len(), BOOK_SIDE_CAPACITY);
    assert_eq!(asks[0].price, 1000);
    assert_eq!(asks[BOOK_SIDE_CAPACITY - 1].price, 1031);
}

#[test]
fn book_needs_a_position_in_the_market() {
    let mut u = user_with(vec![order(OrderSide::Buy, OrderType::Limit, 95, 4)]);
    u.positions.clear();
    assert_eq!(find_bids_and_asks_from_users(&market(), &oracle(100), &vec![u], 10, 0),
        Err(ErrorCode::UserHasNoPositionInMarket));
}

#[test]
fn maker_orders_of_a_side() {
    let u = user_with(vec![
        order(OrderSide::Buy, OrderType::Limit, 100, 5),
        order(OrderSide::Sell, OrderType::Limit, 120, 7),
        order(OrderSide::Buy, OrderType::Market, 101, 5),
        order(OrderSide::Buy, OrderType::Limit, 102, 5),
    ]);
    let found = find_maker_orders(&u, &OrderSide::Buy, &MarketType::Synth, 0, None, 10, 1).unwrap();
    assert_eq!(found, vec![(0, 100), (3, 102)]);
}

#[test]
fn maker_order_priced_off_the_oracle() {
    let mut o = order(OrderSide::Buy, OrderType::Limit, 0, 5);
    o.oracle_price_offset = -10;
    let u = user_with(vec![o]);
    assert_eq!(find_maker_orders(&u, &OrderSide::Buy, &MarketType::Synth, 0, Some(100), 10, 1), Ok(vec![(0, 90)]));
    assert_eq!(find_maker_orders(&u, &OrderSide::Buy, &MarketType::Synth, 0, None, 10, 1), Err(ErrorCode::OracleNotFound));
}

#[test]
fn sliding_post_only_order_stays_inside_the_amm() {
    let mut amm = AMM::default();
    amm.order_tick_size = 10;
    amm.ask_price = 200;
    amm.bid_price = 100;
    assert_eq!(get_price_for_order(205, OrderSide::Buy, PostOnlyParam::Slide, &amm), Ok(190));
    assert_eq!(get_price_for_order(205, OrderSide::Buy, PostOnlyParam::Disabled, &amm), Ok(200));
    assert_eq!(get_price_for_order(95, OrderSide::Sell, PostOnlyParam::Slide, &amm), Ok(110));
}

#[test]
fn expiry_of_orders() {
    let mut o = order(OrderSide::Buy, OrderType::Limit, 100, 5);
    o.max_ts = 100;
    let u = user_with(vec![o]);
    assert_eq!(should_expire_order(&u, 0, 101), Ok(true));
    assert_eq!(should_expire_order(&u, 0, 100), Ok(false));
    assert_eq!(should_expire_order_before_fill(&u, 0, 110), Err(ErrorCode::ImpossibleFill));
    assert_eq!(should_expire_order_before_fill(&u, 0, 116), Ok(true));
}

#[test]
fn limit_order_with_no_liquidity_cannot_fill() {
    let mut o = order(OrderSide::Buy, OrderType::Limit, 100, 5);
    o.slot = 10;
    let u = user_with(vec![o]);
    let state = State {
        admin: [0u8; 32],
        signer: [0u8; 32],
        signer_nonce: 0,
        oracle_guard_rails: OracleGuardRails::default(),
        emergency_oracles: vec![],
        exchange_status: 0,
        number_of_markets: 0,
        number_of_index_markets: 0,
        default_index_oracle: [0u8; 32],
        max_index_assets: 0,
        protocol_index_fee: 0,
        protocol_index_fee_vault: [0u8; 32],
        insurance_fund: [0u8; 32],
        total_debt_ceiling: 0,
        max_initialize_user_fee: 0,
        number_of_authorities: 0,
        number_of_sub_accounts: 0,
        max_number_of_sub_accounts: 0,
        liquidation_margin_buffer_ratio: 0,
        liquidation_duration: 0,
        initial_pct_to_liquidate: 0,
        min_auction_duration: 10,
    };
    assert_eq!(validate_fill_possible(&state, &u, 0, 15, 0, FillMode::Fill), Err(ErrorCode::ImpossibleFill));
    assert_eq!(validate_fill_possible(&state, &u, 0, 15, 1, FillMode::Fill), Ok(()));
    assert_eq!(validate_fill_possible(&state, &u, 0, 21, 0, FillMode::Fill), Ok(()));
}
