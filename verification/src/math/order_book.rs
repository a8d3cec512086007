use vstd::prelude::*;

use crate::error::{ErrorCode, NormalResult};
use crate::math::arith::is_i64;
use crate::math::auction::{calculate_auction_price, is_auction_complete, spec_fixed_auction_price, spec_is_auction_complete};
use crate::math::orders::{spec_standardize_price, standardize_price, Level};
use crate::state::fill_mode::FillMode;
use crate::state::market::Market;
use crate::state::oracle::OraclePriceData;
use crate::state::order_params::{OrderSide, PostOnlyParam};
use crate::state::amm::AMM;
use crate::state::state::{MarketType, State};
use crate::state::user::{Order, OrderStatus, PerpPosition, User};
use crate::math::auction::is_amm_available_liquidity_source;

verus! {

// ---------------------------------------------------------------------------
// Limit prices of resting orders
// ---------------------------------------------------------------------------

impl Order {
    pub open spec fn spec_has_auction_price(self, order_slot: u64, auction_duration: u8, slot: u64) -> NormalResult<bool> {
        match spec_is_auction_complete(order_slot, auction_duration, slot) {
            Err(e) => Err(e),
            Ok(complete) => Ok(!complete && (self.auction_start_price != 0 || self.auction_end_price != 0)),
        }
    }

    /// Whether the order's price still comes from its auction.
    pub fn has_auction_price(&self, order_slot: u64, auction_duration: u8, slot: u64) -> (r: NormalResult<bool>)
        ensures
            r == self.spec_has_auction_price(order_slot, auction_duration, slot),
    {
        let auction_complete = is_auction_complete(order_slot, auction_duration, slot)?;
        let has_auction_prices = self.auction_start_price != 0 || self.auction_end_price != 0;
        Ok(!auction_complete && has_auction_prices)
    }

    pub open spec fn spec_is_resting_limit_order(self, slot: u64) -> NormalResult<bool> {
        if !self.spec_is_limit_order() {
            Ok(false)
        } else if self.post_only {
            Ok(true)
        } else {
            spec_is_auction_complete(self.slot, self.auction_duration, slot)
        }
    }

    /// A limit order rests on the book when it is post only or its auction is over.
    pub fn is_resting_limit_order(&self, slot: u64) -> (r: NormalResult<bool>)
        ensures
            r == self.spec_is_resting_limit_order(slot),
    {
        if !self.is_limit_order() {
            return Ok(false);
        }
        if self.post_only {
            return Ok(true);
        }
        is_auction_complete(self.slot, self.auction_duration, slot)
    }

    pub open spec fn spec_limit_price(
        self,
        valid_oracle_price: Option<i64>,
        fallback_price: Option<u64>,
        slot: u64,
        tick_size: u64,
    ) -> NormalResult<Option<u64>> {
        match self.spec_has_auction_price(self.slot, self.auction_duration, slot) {
            Err(e) => Err(e),
            Ok(true) => match spec_fixed_auction_price(self, slot, tick_size) {
                Err(e) => Err(e),
                Ok(p) => Ok(Some(p)),
            },
            Ok(false) => if self.oracle_price_offset != 0 {
                match valid_oracle_price {
                    None => Err(ErrorCode::OracleNotFound),
                    Some(oracle_price) => {
                        let limit_price = oracle_price + self.oracle_price_offset;
                        if !is_i64(limit_price) {
                            Err(ErrorCode::MathError)
                        } else if limit_price <= 0 {
                            Err(ErrorCode::InvalidOracleOffset)
                        } else {
                            match spec_standardize_price(limit_price as u64, tick_size, self.side) {
                                Err(e) => Err(e),
                                Ok(p) => Ok(Some(p)),
                            }
                        }
                    },
                }
            } else if self.price == 0 {
                match fallback_price {
                    None => Ok(None),
                    Some(price) => match spec_standardize_price(price, tick_size, self.side) {
                        Err(e) => Err(e),
                        Ok(p) => Ok(Some(p)),
                    },
                }
            } else {
                Ok(Some(self.price))
            },
        }
    }

    /// The order's limit price: its auction price while the auction runs, else the oracle price
    /// moved by the order's offset, else its own price, else the fallback; `None` when it has none.
    pub fn get_limit_price(
        &self,
        valid_oracle_price: Option<i64>,
        fallback_price: Option<u64>,
        slot: u64,
        tick_size: u64,
    ) -> (r: NormalResult<Option<u64>>)
        ensures
            r == self.spec_limit_price(valid_oracle_price, fallback_price, slot, tick_size),
    {
        if self.has_auction_price(self.slot, self.auction_duration, slot)? {
            let p = calculate_auction_price(self, slot, tick_size, valid_oracle_price)?;
            Ok(Some(p))
        } else if self.oracle_price_offset != 0 {
            let oracle_price = match valid_oracle_price {
                Some(p) => p,
                None => return Err(ErrorCode::OracleNotFound),
            };
            let limit_price = match oracle_price.checked_add(self.oracle_price_offset as i64) {
                Some(v) => v,
                None => return Err(ErrorCode::MathError),
            };
            if limit_price <= 0 {
                return Err(ErrorCode::InvalidOracleOffset);
            }
            let p = standardize_price(limit_price as u64, tick_size, self.side)?;
            Ok(Some(p))
        } else if self.price == 0 {
            match fallback_price {
                Some(price) => {
                    let p = standardize_price(price, tick_size, self.side)?;
                    Ok(Some(p))
                },
                None => Ok(None),
            }
        } else {
            Ok(Some(self.price))
        }
    }

    pub open spec fn spec_force_limit_price(
        self,
        valid_oracle_price: Option<i64>,
        fallback_price: Option<u64>,
        slot: u64,
        tick_size: u64,
    ) -> NormalResult<u64> {
        match self.spec_limit_price(valid_oracle_price, fallback_price, slot, tick_size) {
            Err(e) => Err(e),
            Ok(None) => Err(ErrorCode::FailedToGetLimitPrice),
            Ok(Some(p)) => Ok(p),
        }
    }

    /// The limit price, refused when the order has none.
    pub fn force_get_limit_price(
        &self,
        valid_oracle_price: Option<i64>,
        fallback_price: Option<u64>,
        slot: u64,
        tick_size: u64,
    ) -> (r: NormalResult<u64>)
        ensures
            r == self.spec_force_limit_price(valid_oracle_price, fallback_price, slot, tick_size),
    {
        match self.get_limit_price(valid_oracle_price, fallback_price, slot, tick_size)? {
            Some(price) => Ok(price),
            None => Err(ErrorCode::FailedToGetLimitPrice),
        }
    }
}

/// The first position of a list that is in the given market.
pub open spec fn spec_get_position(positions: Seq<PerpPosition>, market_index: u16) -> NormalResult<PerpPosition>
    decreases positions.len(),
{
    if positions.len() == 0 {
        Err(ErrorCode::UserHasNoPositionInMarket)
    } else if positions[0].market_index == market_index {
        Ok(positions[0])
    } else {
        spec_get_position(positions.drop_first(), market_index)
    }
}

impl User {
    /// The user's position in a market.
    pub fn get_position(&self, market_index: u16) -> (r: NormalResult<&PerpPosition>)
        ensures
            match spec_get_position(self.positions@, market_index) {
                Ok(p) => r matches Ok(q) && *q == p,
                Err(e) => r == Err::<&PerpPosition, ErrorCode>(e),
            },
    {
        let mut i: usize = 0;
        proof {
            assert(self.positions@.skip(0) =~= self.positions@);
        }
        while i < self.positions.len()
            invariant
                i <= self.positions.len(),
                spec_get_position(self.positions@, market_index) == spec_get_position(self.positions@.skip(i as int), market_index),
            decreases self.positions.len() - i,
        {
            proof {
                assert(self.positions@.skip(i as int).drop_first() =~= self.positions@.skip(i as int + 1));
            }
            if self.positions[i].market_index == market_index {
                return Ok(&self.positions[i]);
            }
            i = i + 1;
        }
        Err(ErrorCode::UserHasNoPositionInMarket)
    }
}

// ---------------------------------------------------------------------------
// Expiry and fill checks
// ---------------------------------------------------------------------------

pub open spec fn spec_should_expire(order: Order, now: i64) -> bool {
    order.status == OrderStatus::Open && order.max_ts != 0 && !order.spec_must_be_triggered() && now > order.max_ts
}

/// An open order with a deadline (and no trigger) expires once `now` passes the deadline.
pub fn should_expire_order(user: &User, user_order_index: usize, now: i64) -> (r: NormalResult<bool>)
    requires
        user_order_index < user.orders.len(),
    ensures
        r == Ok::<bool, ErrorCode>(spec_should_expire(user.orders@[user_order_index as int], now)),
{
    let order = &user.orders[user_order_index];
    if order.status != OrderStatus::Open || order.max_ts == 0 || order.must_be_triggered() {
        return Ok(false);
    }
    Ok(now > order.max_ts)
}

/// Seconds a limit order stays fillable past its deadline before a fill may expire it.
pub const LIMIT_ORDER_EXPIRY_BUFFER: i64 = 15;

pub open spec fn spec_should_expire_order_before_fill(order: Order, now: i64) -> NormalResult<bool> {
    let expired = spec_should_expire(order, now);
    if expired && order.spec_is_limit_order() {
        if now - LIMIT_ORDER_EXPIRY_BUFFER < i64::MIN {
            Err(ErrorCode::MathError)
        } else if !spec_should_expire(order, (now - LIMIT_ORDER_EXPIRY_BUFFER) as i64) {
            Err(ErrorCode::ImpossibleFill)
        } else {
            Ok(true)
        }
    } else {
        Ok(expired)
    }
}

/// Whether a fill should expire the order instead; a limit order can only be force expired
/// once its deadline is fifteen seconds past.
pub fn should_expire_order_before_fill(user: &User, order_index: usize, now: i64) -> (r: NormalResult<bool>)
    requires
        order_index < user.orders.len(),
    ensures
        r == spec_should_expire_order_before_fill(user.orders@[order_index as int], now),
{
    let should_order_be_expired = should_expire_order(user, order_index, now)?;
    if should_order_be_expired && user.orders[order_index].is_limit_order() {
        let now_sub_buffer = match now.checked_sub(LIMIT_ORDER_EXPIRY_BUFFER) {
            Some(v) => v,
            None => return Err(ErrorCode::MathError),
        };
        if !should_expire_order(user, order_index, now_sub_buffer)? {
            return Err(ErrorCode::ImpossibleFill);
        }
    }
    Ok(should_order_be_expired)
}

pub open spec fn spec_validate_fill_possible(
    order: Order,
    min_auction_duration: u8,
    slot: u64,
    num_makers: usize,
    fill_mode: FillMode,
) -> NormalResult<()> {
    match spec_is_auction_complete(order.slot, min_auction_duration, slot) {
        Err(e) => Err(e),
        Ok(amm_available) => if !amm_available && num_makers == 0 && order.spec_is_limit_order() {
            Err(ErrorCode::ImpossibleFill)
        } else {
            Ok(())
        },
    }
}

/// A fill is impossible for a limit order that neither the AMM nor any maker can fill.
pub fn validate_fill_possible(
    state: &State,
    user: &User,
    order_index: usize,
    slot: u64,
    num_makers: usize,
    fill_mode: FillMode,
) -> (r: NormalResult<()>)
    requires
        order_index < user.orders.len(),
    ensures
        r == spec_validate_fill_possible(user.orders@[order_index as int], state.min_auction_duration, slot, num_makers, fill_mode),
{
    let amm_available = is_amm_available_liquidity_source(&user.orders[order_index], state.min_auction_duration, slot, fill_mode)?;
    if !amm_available && num_makers == 0 && user.orders[order_index].is_limit_order() {
        return Err(ErrorCode::ImpossibleFill);
    }
    Ok(())
}

// ---------------------------------------------------------------------------
// Maker orders
// ---------------------------------------------------------------------------

pub open spec fn spec_is_maker_candidate(order: Order, side: OrderSide, market_type: MarketType, market_index: u16) -> bool {
    &&& order.status == OrderStatus::Open
    &&& order.side == side
    &&& order.market_type == market_type
    &&& order.market_index == market_index
    &&& order.spec_is_limit_order()
    &&& !(order.spec_must_be_triggered() && !order.spec_triggered())
}

/// The maker orders among the first `n` orders: the index and limit price of each open limit
/// order on the given side of the given market whose trigger (if any) has fired.
pub open spec fn spec_maker_orders(
    orders: Seq<Order>,
    n: int,
    side: OrderSide,
    market_type: MarketType,
    market_index: u16,
    valid_oracle_price: Option<i64>,
    slot: u64,
    tick_size: u64,
) -> NormalResult<Seq<(usize, u64)>>
    decreases n,
{
    if n <= 0 {
        Ok(Seq::empty())
    } else {
        match spec_maker_orders(orders, n - 1, side, market_type, market_index, valid_oracle_price, slot, tick_size) {
            Err(e) => Err(e),
            Ok(acc) => if spec_is_maker_candidate(orders[n - 1], side, market_type, market_index) {
                match orders[n - 1].spec_force_limit_price(valid_oracle_price, None, slot, tick_size) {
                    Err(e) => Err(e),
                    Ok(price) => Ok(acc.push(((n - 1) as usize, price))),
                }
            } else {
                Ok(acc)
            },
        }
    }
}

proof fn lemma_maker_orders_err(
    orders: Seq<Order>,
    n: int,
    m: int,
    side: OrderSide,
    market_type: MarketType,
    market_index: u16,
    valid_oracle_price: Option<i64>,
    slot: u64,
    tick_size: u64,
)
    requires
        0 <= n <= m,
        spec_maker_orders(orders, n, side, market_type, market_index, valid_oracle_price, slot, tick_size) is Err,
    ensures
        spec_maker_orders(orders, m, side, market_type, market_index, valid_oracle_price, slot, tick_size)
            == spec_maker_orders(orders, n, side, market_type, market_index, valid_oracle_price, slot, tick_size),
    decreases m - n,
{
    if m > n {
        lemma_maker_orders_err(orders, n, m - 1, side, market_type, market_index, valid_oracle_price, slot, tick_size);
    }
}

/// The user's resting maker orders on one side of a market, with their limit prices, in the
/// order the user holds them.
pub fn find_maker_orders(
    user: &User,
    side: &OrderSide,
    market_type: &MarketType,
    market_index: u16,
    valid_oracle_price: Option<i64>,
    slot: u64,
    tick_size: u64,
) -> (r: NormalResult<Vec<(usize, u64)>>)
    ensures
        match spec_maker_orders(user.orders@, user.orders@.len() as int, *side, *market_type, market_index, valid_oracle_price, slot, tick_size) {
            Ok(found) => r matches Ok(v) && v@ == found,
            Err(e) => r == Err::<Vec<(usize, u64)>, ErrorCode>(e),
        },
{
    let mut orders: Vec<(usize, u64)> = Vec::new();
    let mut i: usize = 0;
    while i < user.orders.len()
        invariant
            i <= user.orders.len(),
            spec_maker_orders(user.orders@, i as int, *side, *market_type, market_index, valid_oracle_price, slot, tick_size)
                == Ok::<Seq<(usize, u64)>, ErrorCode>(orders@),
        decreases user.orders.len() - i,
    {
        let order = user.orders[i];
        let candidate = order.status == OrderStatus::Open && order.side == *side && order.market_type == *market_type
            && order.market_index == market_index && order.is_limit_order()
            && !(order.must_be_triggered() && !order.triggered());
        if candidate {
            let limit_price = match order.force_get_limit_price(valid_oracle_price, None, slot, tick_size) {
                Ok(p) => p,
                Err(e) => {
                    proof {
                        lemma_maker_orders_err(user.orders@, i + 1, user.orders@.len() as int, *side, *market_type,
                            market_index, valid_oracle_price, slot, tick_size);
                    }
                    return Err(e);
                },
            };
            orders.push((i, limit_price));
        }
        i = i + 1;
    }
    Ok(orders)
}

// ---------------------------------------------------------------------------
// The order book built from the users' resting orders
// ---------------------------------------------------------------------------

/// How many levels each side of a book built from users' orders keeps.
pub const BOOK_SIDE_CAPACITY: usize = 32;

/// Whether price `a` is strictly better than `b` for the side: higher for bids, lower for asks.
pub open spec fn better_price(side: OrderSide, a: u64, b: u64) -> bool {
    match side {
        OrderSide::Buy => a > b,
        OrderSide::Sell => a < b,
    }
}

/// Whether price `a` is strictly better than `b` for the side.
pub fn is_better_price(side: OrderSide, a: u64, b: u64) -> (r: bool)
    ensures
        r == better_price(side, a, b),
{
    match side {
        OrderSide::Buy => a > b,
        OrderSide::Sell => a < b,
    }
}

/// The levels are best first.
pub open spec fn levels_sorted(levels: Seq<Level>, side: OrderSide) -> bool {
    forall|i: int, j: int| 0 <= i < j < levels.len() ==> !better_price(side, #[trigger] levels[j].price, #[trigger] levels[i].price)
}

/// Where a new price goes: after every level with a strictly better price.
pub open spec fn insertion_index(levels: Seq<Level>, price: u64, side: OrderSide) -> int
    decreases levels.len(),
{
    if levels.len() == 0 {
        0
    } else if better_price(side, levels[0].price, price) {
        1 + insertion_index(levels.drop_first(), price, side)
    } else {
        0
    }
}

/// A side of the book after adding a level: it goes in at its place when that place is among
/// the first `BOOK_SIDE_CAPACITY`, and the worst level drops out if the side was full.
pub open spec fn insert_level(levels: Seq<Level>, level: Level, side: OrderSide) -> Seq<Level> {
    let index = insertion_index(levels, level.price, side);
    if index < BOOK_SIDE_CAPACITY {
        let kept = if levels.len() == BOOK_SIDE_CAPACITY { levels.drop_last() } else { levels };
        kept.insert(index, level)
    } else {
        levels
    }
}

proof fn lemma_insertion_index(levels: Seq<Level>, price: u64, side: OrderSide)
    ensures
        0 <= insertion_index(levels, price, side) <= levels.len(),
        forall|k: int| 0 <= k < insertion_index(levels, price, side) ==> better_price(side, #[trigger] levels[k].price, price),
        insertion_index(levels, price, side) < levels.len()
            ==> !better_price(side, levels[insertion_index(levels, price, side)].price, price),
    decreases levels.len(),
{
    if levels.len() > 0 && better_price(side, levels[0].price, price) {
        lemma_insertion_index(levels.drop_first(), price, side);
        assert forall|k: int| 0 <= k < insertion_index(levels, price, side) implies better_price(side, #[trigger] levels[k].price, price) by {
            if k > 0 {
                assert(levels[k] == levels.drop_first()[k - 1]);
            }
        }
    }
}

/// Adding a level keeps a side best first and within its capacity.
pub proof fn lemma_insert_level_keeps_book_sorted(levels: Seq<Level>, level: Level, side: OrderSide)
    requires
        levels_sorted(levels, side),
        levels.len() <= BOOK_SIDE_CAPACITY,
    ensures
        levels_sorted(insert_level(levels, level, side), side),
        insert_level(levels, level, side).len() <= BOOK_SIDE_CAPACITY,
{
    lemma_insertion_index(levels, level.price, side);
    let index = insertion_index(levels, level.price, side);
    if index < BOOK_SIDE_CAPACITY {
        let kept = if levels.len() == BOOK_SIDE_CAPACITY { levels.drop_last() } else { levels };
        assert(levels_sorted(kept, side));
        let t = kept.insert(index, level);
        assert forall|i: int, j: int| 0 <= i < j < t.len() implies !better_price(side, #[trigger] t[j].price, #[trigger] t[i].price) by {
            if j < index {
                assert(t[i] == kept[i] && t[j] == kept[j]);
            } else if j == index {
                assert(t[i] == levels[i]);
            } else if i == index {
                assert(t[j] == kept[j - 1]);
                assert(kept[index] == levels[index]);
                if j - 1 > index {
                    assert(!better_price(side, kept[j - 1].price, kept[index].price));
                }
            } else if i < index {
                assert(t[i] == levels[i]);
                assert(t[j] == kept[j - 1]);
                assert(kept[index] == levels[index]);
                assert(!better_price(side, kept[j - 1].price, kept[index].price) || j - 1 == index);
            } else {
                assert(t[i] == kept[i - 1] && t[j] == kept[j - 1]);
            }
        }
    }
}

pub open spec fn book_well_formed(book: (Seq<Level>, Seq<Level>)) -> bool {
    &&& levels_sorted(book.0, OrderSide::Buy)
    &&& levels_sorted(book.1, OrderSide::Sell)
    &&& book.0.len() <= BOOK_SIDE_CAPACITY
    &&& book.1.len() <= BOOK_SIDE_CAPACITY
}

/// Whether an order rests on the book of the market: an open, untriggered-or-triggered limit
/// order of the synthetic market, resting and not past its deadline.
pub open spec fn spec_book_candidate(order: Order, market_index: u16, slot: u64, now: i64) -> NormalResult<bool> {
    if order.status != OrderStatus::Open {
        Ok(false)
    } else if order.market_type != MarketType::Synth || order.market_index != market_index {
        Ok(false)
    } else if !order.spec_is_limit_order() || (order.spec_must_be_triggered() && !order.spec_triggered()) {
        Ok(false)
    } else {
        match order.spec_is_resting_limit_order(slot) {
            Err(e) => Err(e),
            Ok(resting) => Ok(resting && !(now > order.max_ts && order.max_ts != 0)),
        }
    }
}

/// The book after one order of a user is considered.
pub open spec fn spec_book_order_step(
    book: (Seq<Level>, Seq<Level>),
    user: User,
    order: Order,
    market_index: u16,
    tick_size: u64,
    oracle_price: i64,
    slot: u64,
    now: i64,
) -> NormalResult<(Seq<Level>, Seq<Level>)> {
    match spec_book_candidate(order, market_index, slot, now) {
        Err(e) => Err(e),
        Ok(false) => Ok(book),
        Ok(true) => match spec_get_position(user.positions@, market_index) {
            Err(e) => Err(e),
            Ok(position) => match order.spec_base_asset_amount_unfilled(Some(position.base_asset_amount)) {
                Err(e) => Err(e),
                Ok(base) => match order.spec_force_limit_price(Some(oracle_price), None, slot, tick_size) {
                    Err(e) => Err(e),
                    Ok(price) => {
                        let level = Level { price, base_asset_amount: base };
                        if order.side == OrderSide::Buy {
                            Ok((insert_level(book.0, level, OrderSide::Buy), book.1))
                        } else {
                            Ok((book.0, insert_level(book.1, level, OrderSide::Sell)))
                        }
                    },
                },
            },
        },
    }
}

/// The book after the first `n` orders of a user are considered.
pub open spec fn spec_book_user(
    book: (Seq<Level>, Seq<Level>),
    user: User,
    n: int,
    market_index: u16,
    tick_size: u64,
    oracle_price: i64,
    slot: u64,
    now: i64,
) -> NormalResult<(Seq<Level>, Seq<Level>)>
    decreases n,
{
    if n <= 0 {
        Ok(book)
    } else {
        match spec_book_user(book, user, n - 1, market_index, tick_size, oracle_price, slot, now) {
            Err(e) => Err(e),
            Ok(b) => spec_book_order_step(b, user, user.orders@[n - 1], market_index, tick_size, oracle_price, slot, now),
        }
    }
}

/// The book built from the orders of the first `n` users.
pub open spec fn spec_book(
    users: Seq<User>,
    n: int,
    market_index: u16,
    tick_size: u64,
    oracle_price: i64,
    slot: u64,
    now: i64,
) -> NormalResult<(Seq<Level>, Seq<Level>)>
    decreases n,
{
    if n <= 0 {
        Ok((Seq::empty(), Seq::empty()))
    } else {
        match spec_book(users, n - 1, market_index, tick_size, oracle_price, slot, now) {
            Err(e) => Err(e),
            Ok(b) => spec_book_user(b, users[n - 1], users[n - 1].orders@.len() as int, market_index, tick_size, oracle_price, slot, now),
        }
    }
}

proof fn lemma_book_user_err(
    book: (Seq<Level>, Seq<Level>),
    user: User,
    n: int,
    m: int,
    market_index: u16,
    tick_size: u64,
    oracle_price: i64,
    slot: u64,
    now: i64,
)
    requires
        0 <= n <= m,
        spec_book_user(book, user, n, market_index, tick_size, oracle_price, slot, now) is Err,
    ensures
        spec_book_user(book, user, m, market_index, tick_size, oracle_price, slot, now)
            == spec_book_user(book, user, n, market_index, tick_size, oracle_price, slot, now),
    decreases m - n,
{
    if m > n {
        lemma_book_user_err(book, user, n, m - 1, market_index, tick_size, oracle_price, slot, now);
    }
}

proof fn lemma_book_err(
    users: Seq<User>,
    n: int,
    m: int,
    market_index: u16,
    tick_size: u64,
    oracle_price: i64,
    slot: u64,
    now: i64,
)
    requires
        0 <= n <= m,
        spec_book(users, n, market_index, tick_size, oracle_price, slot, now) is Err,
    ensures
        spec_book(users, m, market_index, tick_size, oracle_price, slot, now)
            == spec_book(users, n, market_index, tick_size, oracle_price, slot, now),
    decreases m - n,
{
    if m > n {
        lemma_book_err(users, n, m - 1, market_index, tick_size, oracle_price, slot, now);
    }
}

/// Puts a level into a side of the book at its place (see `insert_level`).
fn insert_into_side(levels: &mut Vec<Level>, level: Level, side: OrderSide)
    requires
        old(levels)@.len() <= BOOK_SIDE_CAPACITY,
    ensures
        final(levels)@ == insert_level(old(levels)@, level, side),
{
    let mut index: usize = 0;
    proof {
        assert(levels@.skip(0) =~= levels@);
    }
    while index < levels.len() && is_better_price(side, levels[index].price, level.price)
        invariant
            index <= levels.len(),
            levels@ == old(levels)@,
            insertion_index(levels@, level.price, side) == index + insertion_index(levels@.skip(index as int), level.price, side),
        decreases levels.len() - index,
    {
        proof {
            assert(levels@.skip(index as int).drop_first() =~= levels@.skip(index as int + 1));
            assert(levels@.skip(index as int)[0] == levels@[index as int]);
        }
        index = index + 1;
    }
    proof {
        if index < levels.len() {
            assert(levels@.skip(index as int)[0] == levels@[index as int]);
        }
    }
    if index < BOOK_SIDE_CAPACITY {
        if levels.len() == BOOK_SIDE_CAPACITY {
            levels.pop();
        }
        levels.insert(index, level);
    }
}

/// Considers one order of a user for the book.
fn book_order_step(
    bids: &mut Vec<Level>,
    asks: &mut Vec<Level>,
    user: &User,
    order: &Order,
    market_index: u16,
    tick_size: u64,
    oracle_price: i64,
    slot: u64,
    now: i64,
) -> (r: NormalResult<()>)
    requires
        book_well_formed((old(bids)@, old(asks)@)),
    ensures
        match spec_book_order_step((old(bids)@, old(asks)@), *user, *order, market_index, tick_size, oracle_price, slot, now) {
            Ok(b) => r is Ok && final(bids)@ == b.0 && final(asks)@ == b.1,
            Err(e) => r == Err::<(), ErrorCode>(e),
        },
        r is Ok ==> book_well_formed((final(bids)@, final(asks)@)),
{
    if order.status != OrderStatus::Open {
        return Ok(());
    }
    if order.market_type != MarketType::Synth || order.market_index != market_index {
        return Ok(());
    }
    if !order.is_limit_order() || (order.must_be_triggered() && !order.triggered()) {
        return Ok(());
    }
    if !order.is_resting_limit_order(slot)? {
        return Ok(());
    }
    if now > order.max_ts && order.max_ts != 0 {
        return Ok(());
    }
    let existing_position = user.get_position(market_index)?.base_asset_amount;
    let base_amount = order.get_base_asset_amount_unfilled(Some(existing_position))?;
    let limit_price = order.force_get_limit_price(Some(oracle_price), None, slot, tick_size)?;
    let level = Level { price: limit_price, base_asset_amount: base_amount };
    proof {
        lemma_insert_level_keeps_book_sorted(bids@, level, OrderSide::Buy);
        lemma_insert_level_keeps_book_sorted(asks@, level, OrderSide::Sell);
    }
    match order.side {
        OrderSide::Buy => insert_into_side(bids, level, OrderSide::Buy),
        OrderSide::Sell => insert_into_side(asks, level, OrderSide::Sell),
    }
    Ok(())
}

/// The bids and asks of a market's book, built from the users' resting limit orders, each
/// side best first and holding at most `BOOK_SIDE_CAPACITY` levels.
pub fn find_bids_and_asks_from_users(
    market: &Market,
    oracle_price_data: &OraclePriceData,
    users: &Vec<User>,
    slot: u64,
    now: i64,
) -> (r: NormalResult<(Vec<Level>, Vec<Level>)>)
    ensures
        match spec_book(users@, users@.len() as int, market.market_index, market.amm.order_tick_size,
            oracle_price_data.price, slot, now) {
            Ok(b) => r matches Ok((bids, asks)) && bids@ == b.0 && asks@ == b.1,
            Err(e) => r == Err::<(Vec<Level>, Vec<Level>), ErrorCode>(e),
        },
        r matches Ok((bids, asks)) ==> book_well_formed((bids@, asks@)),
{
    let mut bids: Vec<Level> = Vec::new();
    let mut asks: Vec<Level> = Vec::new();
    let market_index = market.market_index;
    let tick_size = market.amm.order_tick_size;
    let oracle_price = oracle_price_data.price;
    let mut i: usize = 0;
    while i < users.len()
        invariant
            i <= users.len(),
            market_index == market.market_index,
            tick_size == market.amm.order_tick_size,
            oracle_price == oracle_price_data.price,
            spec_book(users@, i as int, market_index, tick_size, oracle_price, slot, now)
                == Ok::<(Seq<Level>, Seq<Level>), ErrorCode>((bids@, asks@)),
            book_well_formed((bids@, asks@)),
        decreases users.len() - i,
    {
        let user = &users[i];
        let ghost start = (bids@, asks@);
        let mut j: usize = 0;
        while j < user.orders.len()
            invariant
                i < users.len(),
                *user == users@[i as int],
                market_index == market.market_index,
                tick_size == market.amm.order_tick_size,
                oracle_price == oracle_price_data.price,
                j <= user.orders.len(),
                spec_book(users@, i as int, market_index, tick_size, oracle_price, slot, now)
                    == Ok::<(Seq<Level>, Seq<Level>), ErrorCode>(start),
                spec_book_user(start, *user, j as int, market_index, tick_size, oracle_price, slot, now)
                    == Ok::<(Seq<Level>, Seq<Level>), ErrorCode>((bids@, asks@)),
                book_well_formed((bids@, asks@)),
            decreases user.orders.len() - j,
        {
            let order = user.orders[j];
            let ghost before = (bids@, asks@);
            match book_order_step(&mut bids, &mut asks, user, &order, market_index, tick_size, oracle_price, slot, now) {
                Ok(()) => {},
                Err(e) => {
                    proof {
                        assert(order == user.orders@[j as int]);
                        assert(spec_book_order_step(before, *user, order, market_index, tick_size, oracle_price, slot, now)
                            == Err::<(Seq<Level>, Seq<Level>), ErrorCode>(e));
                        assert(spec_book_user(start, *user, j + 1, market_index, tick_size, oracle_price, slot, now)
                            == Err::<(Seq<Level>, Seq<Level>), ErrorCode>(e));
                        lemma_book_user_err(start, *user, j + 1, user.orders@.len() as int, market_index, tick_size,
                            oracle_price, slot, now);
                        assert(spec_book(users@, i + 1, market_index, tick_size, oracle_price, slot, now)
                            == Err::<(Seq<Level>, Seq<Level>), ErrorCode>(e));
                        lemma_book_err(users@, i + 1, users@.len() as int, market_index, tick_size, oracle_price, slot, now);
                    }
                    return Err(e);
                },
            }
            j = j + 1;
        }
        i = i + 1;
    }
    Ok((bids, asks))
}

// ---------------------------------------------------------------------------
// Price of a new order
// ---------------------------------------------------------------------------

pub open spec fn spec_price_for_order(price: u64, side: OrderSide, post_only: PostOnlyParam, amm: AMM) -> NormalResult<u64> {
    match spec_standardize_price(price, amm.order_tick_size, side) {
        Err(e) => Err(e),
        Ok(limit_price) => if post_only != PostOnlyParam::Slide {
            Ok(limit_price)
        } else {
            match side {
                OrderSide::Buy => if limit_price >= amm.ask_price {
                    if amm.ask_price < amm.order_tick_size { Err(ErrorCode::MathError) }
                    else { Ok((amm.ask_price - amm.order_tick_size) as u64) }
                } else {
                    Ok(limit_price)
                },
                OrderSide::Sell => if limit_price <= amm.bid_price {
                    if amm.bid_price + amm.order_tick_size > u64::MAX { Err(ErrorCode::MathError) }
                    else { Ok((amm.bid_price + amm.order_tick_size) as u64) }
                } else {
                    Ok(limit_price)
                },
            }
        },
    }
}

/// The price of a new order rounded to the tick (down for bids, up for asks); a sliding post
/// only order is moved one tick inside the AMM's quote when it would cross it.
pub fn get_price_for_order(price: u64, side: OrderSide, post_only: PostOnlyParam, amm: &AMM) -> (r: NormalResult<u64>)
    ensures
        r == spec_price_for_order(price, side, post_only, *amm),
        post_only == PostOnlyParam::Slide && amm.order_tick_size > 0 ==> (r matches Ok(p) ==> (side == OrderSide::Buy ==> p < amm.ask_price)
            && (side == OrderSide::Sell ==> p > amm.bid_price)),
{
    let mut limit_price = standardize_price(price, amm.order_tick_size, side)?;
    if post_only == PostOnlyParam::Slide {
        match side {
            OrderSide::Buy => {
                if limit_price >= amm.ask_price {
                    limit_price = match amm.ask_price.checked_sub(amm.order_tick_size) {
                        Some(v) => v,
                        None => return Err(ErrorCode::MathError),
                    };
                }
            },
            OrderSide::Sell => {
                if limit_price <= amm.bid_price {
                    limit_price = match amm.bid_price.checked_add(amm.order_tick_size) {
                        Some(v) => v,
                        None => return Err(ErrorCode::MathError),
                    };
                }
            },
        }
    }
    Ok(limit_price)
}

} // verus!
