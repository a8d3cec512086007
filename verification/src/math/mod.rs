pub mod arith;
pub mod auction;
pub mod index_fund;
pub mod margin;
pub mod oracle;
pub mod order_book;
pub mod orders;
pub mod position;
pub mod spot_balance;
