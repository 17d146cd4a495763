//! Requests to the bank: who asks, where, and for what.
use vstd::prelude::*;

verus! {

/// A request to the bank.
#[derive(Debug, Clone, Copy, PartialEq, Eq, Structural)]
pub struct Transaction {
    pub from_user: u64,
    pub server_id: u64,
    pub channel_id: u64,
    pub operation: Operation,
}

/// What a request asks the bank to do.
#[derive(Debug, Clone, Copy, PartialEq, Eq, Structural)]
pub enum Operation {
    Transfer { to_user: u64, amount: i64 },
    GetUserBalance,
    /// list every item
    GetAllItems,
}

/// How a request ended.
#[derive(Debug, Clone, Copy, PartialEq, Eq, Structural)]
pub enum TransactionStatus {
    Complete,
}

} // verus!
