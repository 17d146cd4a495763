//! Errors of the coin economy's database.
use vstd::prelude::*;

use crate::text::IntErrorKind;

verus! {

/// Why a database operation failed.
#[derive(Debug, Clone, PartialEq)]
pub enum DbError {
    /// an amount does not fit the database's 32-bit balances
    CoinOverflow,
    NotFound(String),
    Unexpected(String),
    /// the database failed; its message
    Db(String),
    /// a stored id is not a number
    IdParse(IntErrorKind),
    /// an id does not fit the database's 32-bit ids
    BadId,
    /// the database location is not configured; the lookup's message
    Env(String),
    /// the database cannot be reached; the driver's message
    Connection(String),
    RecordExists,
    InsufficientFunds,
    /// a user tried to tip themselves
    SelfTip,
    /// work could not be done; why
    Work(String),
}

impl From<IntErrorKind> for DbError {
    fn from(e: IntErrorKind) -> (r: Self) {
        DbError::IdParse(e)
    }
}

impl vstd::std_specs::convert::FromSpecImpl<IntErrorKind> for DbError {
    open spec fn obeys_from_spec() -> bool {
        true
    }

    open spec fn from_spec(e: IntErrorKind) -> Self {
        DbError::IdParse(e)
    }
}

} // verus!
