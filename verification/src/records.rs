//! Rows of the exchange's store, with identifiers as the 128-bit values of
//! their UUIDs and instants as microseconds since the Unix epoch (UTC).
use vstd::prelude::*;

verus! {

#[verifier::external_type_specification]
#[verifier::external_body]
pub struct ExDecimal(rust_decimal::Decimal);

/// An instant, in microseconds since the Unix epoch (UTC).
#[derive(Clone, Copy, Debug, PartialEq, Eq, Structural)]
pub struct Timestamp {
    pub micros: i64,
}

/// A registered account.
pub struct User {
    pub id: u128,
    pub username: String,
    pub email: String,
    /// The password as stored: a PHC string.
    pub password: String,
    pub created_at: Timestamp,
    pub updated_at: Timestamp,
}

/// An asset of the registry (a row of `assets`).
pub struct Assets {
    pub id: u128,
    pub name: String,
    pub symbol: String,
    pub decimals: i32,
    pub created_at: Timestamp,
    pub updated_at: Timestamp,
}

/// One account's holding of one asset (a row of `user_assets`).
pub struct UserAssets {
    pub id: u128,
    pub user_id: u128,
    pub asset_id: u128,
    pub available: rust_decimal::Decimal,
    pub locked: rust_decimal::Decimal,
    pub created_at: Timestamp,
    pub updated_at: Timestamp,
}

/// One account's collateral balance (a row of the former `user_balances`).
pub struct UserBalances {
    pub id: u128,
    pub user_id: u128,
    pub available: rust_decimal::Decimal,
    pub locked: rust_decimal::Decimal,
    pub created_at: Timestamp,
    pub updated_at: Timestamp,
}

/// Funds available for and locked by open orders.
pub struct Collateral {
    pub available: rust_decimal::Decimal,
    pub locked: rust_decimal::Decimal,
}

/// A trade between a maker and a taker.
pub struct Fill {
    pub market: String,
    pub maker: u128,
    pub taker: u128,
    pub long: u128,
    pub short: u128,
    pub qty: rust_decimal::Decimal,
    pub price: rust_decimal::Decimal,
}

/// The direction of a position.
#[derive(Clone, Copy, Debug, PartialEq, Eq, Structural)]
pub enum Side {
    Long,
    Short,
}

/// An account's position in one market.
pub struct Position {
    pub market: String,
    pub side: Side,
    pub qty: rust_decimal::Decimal,
    pub margin: rust_decimal::Decimal,
    pub average_price: rust_decimal::Decimal,
    pub liquidation_price: rust_decimal::Decimal,
    pub pnl: rust_decimal::Decimal,
    pub user_id: u128,
}

} // verus!
