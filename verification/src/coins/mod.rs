//! The coin economy of the bot: balances, transactions, and the daily
//! allowance.
pub mod ledger;
pub mod transaction;
pub mod daily;
