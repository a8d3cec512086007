pub mod user;
pub mod vault;
