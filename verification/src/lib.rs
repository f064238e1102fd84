//! Decision logic of a small exchange API: authentication, bearer tokens,
//! deposits and the replies that the HTTP layer sends back.

pub mod ids;
pub mod outcome;
pub mod records;
pub mod deposit;
pub mod password;
pub mod payload;
pub mod token;
pub mod auth;
pub mod account;
pub mod legacy;
