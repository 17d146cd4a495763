//! The rules the database operations follow around their queries: which
//! amounts fit, which results count as success and which as an error.
use vstd::prelude::*;

use crate::db::error::DbError;
use crate::db::model::BankAccount;
use crate::text::{decimal, nat_digits, string_of};
use crate::db::ids::id_text;

verus! {

/// The item id of the member card.
pub const ID_MEMBER_CARD: i32 = 1;

/// The item id of the beggar's cup.
pub const ID_BEGGAR_CUP: i32 = 2;

/// Coins the tipping user gets for a tip.
pub const TIP_FROM_AMOUNT: i32 = 1;

/// Coins the tipped user gets for a tip.
pub const TIP_TO_AMOUNT: i32 = 2;

/// Coins a beggar gets from the richest user of the server.
pub const BEG_AMOUNT: i32 = 5;

/// The balance above which a beggar loses the beggar's cup.
pub const MAX_BEGGAR_BALANCE: i32 = 100;

/// Whether an amount fits the database's 32-bit balances.
pub open spec fn fits_i32(amount: int) -> bool {
    i32::MIN <= amount <= i32::MAX
}

/// An amount as a database balance.
pub fn coin_amount(amount: i64) -> (r: Result<i32, DbError>)
    ensures
        fits_i32(amount as int) ==> r == Ok::<i32, DbError>(amount as i32),
        !fits_i32(amount as int) ==> r == Err::<i32, DbError>(DbError::CoinOverflow),
{
    if i32::MIN as i64 <= amount && amount <= i32::MAX as i64 {
        Ok(amount as i32)
    } else {
        Err(DbError::CoinOverflow)
    }
}

/// The balance changes of a transfer of `amount`: what the sender's and
/// the receiver's balances change by.
pub fn transfer_amounts(amount: i64) -> (r: Result<(i32, i32), DbError>)
    requires
        amount != i32::MIN,
    ensures
        fits_i32(amount as int) ==> r == Ok::<(i32, i32), DbError>(
            ((-amount) as i32, amount as i32),
        ),
        !fits_i32(amount as int) ==> r == Err::<(i32, i32), DbError>(DbError::CoinOverflow),
{
    let to_amount = coin_amount(amount)?;
    let from_amount: i32 = -to_amount;
    Ok((from_amount, to_amount))
}

/// The one account a lookup found: none is not found, more than one is
/// unexpected.
pub fn single_account(accounts: Vec<BankAccount>, server: u64, user: u64) -> (r: Result<
    BankAccount,
    DbError,
>)
    ensures
        accounts.len() == 1 ==> r == Ok::<BankAccount, DbError>(accounts@[0]),
        accounts.len() == 0 ==> (r matches Err(DbError::NotFound(m)) && m@
            == "unable to find user account: #s"@ + nat_digits(server as nat) + " #u"@
            + nat_digits(user as nat)),
        accounts.len() > 1 ==> (r matches Err(DbError::Unexpected(m)) && m@
            == "too many records returned"@),
{
    let n = accounts.len();
    if n == 1 {
        let mut accounts = accounts;
        Ok(accounts.remove(0))
    } else if n == 0 {
        let mut m = String::from_str("unable to find user account: #s");
        m.append(id_text(server).as_str());
        m.append(" #u");
        m.append(id_text(user).as_str());
        Err(DbError::NotFound(m))
    } else {
        Err(DbError::Unexpected(String::from_str("too many records returned")))
    }
}

/// A tip needs two different users.
pub fn check_tip(from_user: u64, to_user: u64) -> (r: Result<(), DbError>)
    ensures
        from_user == to_user ==> r == Err::<(), DbError>(DbError::SelfTip),
        from_user != to_user ==> r == Ok::<(), DbError>(()),
{
    if from_user == to_user {
        Err(DbError::SelfTip)
    } else {
        Ok(())
    }
}

/// `n` in decimal.
fn count_text(n: usize) -> (r: String)
    ensures
        r@ == nat_digits(n as nat),
{
    string_of(&crate::text::format_u64(n as u64))
}

/// A tip changes exactly the two accounts.
pub fn check_tip_records(num_records: usize) -> (r: Result<(), DbError>)
    ensures
        num_records == 2 ==> r == Ok::<(), DbError>(()),
        num_records != 2 ==> (r matches Err(DbError::Unexpected(m)) && m@
            == "unexpected number of records affected: "@ + nat_digits(num_records as nat)),
{
    if num_records == 2 {
        Ok(())
    } else {
        let mut m = String::from_str("unexpected number of records affected: ");
        m.append(count_text(num_records).as_str());
        Err(DbError::Unexpected(m))
    }
}

/// A transfer changes exactly the two accounts.
pub fn check_transfer_records(num_records: usize) -> (r: Result<(), DbError>)
    ensures
        num_records == 2 ==> r == Ok::<(), DbError>(()),
        num_records != 2 ==> (r matches Err(DbError::Unexpected(m)) && m@
            == "wrong number of changed records: "@ + nat_digits(num_records as nat)),
{
    if num_records == 2 {
        Ok(())
    } else {
        let mut m = String::from_str("wrong number of changed records: ");
        m.append(count_text(num_records).as_str());
        Err(DbError::Unexpected(m))
    }
}

/// The balance after buying an item: a user can only buy what they can
/// afford.
pub fn purchase(balance: i32, price: i32) -> (r: Result<i64, DbError>)
    ensures
        balance >= price ==> r == Ok::<i64, DbError>((balance - price) as i64),
        balance < price ==> r == Err::<i64, DbError>(DbError::InsufficientFunds),
{
    if balance >= price {
        Ok(balance as i64 - price as i64)
    } else {
        Err(DbError::InsufficientFunds)
    }
}

/// Adding an item to an inventory changes one record; none means the
/// user already has it.
pub fn check_inventory_insert(num_records: usize) -> (r: Result<(), DbError>)
    ensures
        num_records == 0 ==> r == Err::<(), DbError>(DbError::RecordExists),
        num_records == 1 ==> r == Ok::<(), DbError>(()),
        num_records > 1 ==> (r matches Err(DbError::Unexpected(m)) && m@
            == "unexpected number of records changed: "@ + nat_digits(num_records as nat)),
{
    if num_records == 0 {
        Err(DbError::RecordExists)
    } else if num_records == 1 {
        Ok(())
    } else {
        let mut m = String::from_str("unexpected number of records changed: ");
        m.append(count_text(num_records).as_str());
        Err(DbError::Unexpected(m))
    }
}

/// Creating an item that changes nothing means it exists already.
pub fn check_item_created(num_records: usize) -> (r: Result<(), DbError>)
    ensures
        num_records == 0 ==> r == Err::<(), DbError>(DbError::RecordExists),
        num_records != 0 ==> r == Ok::<(), DbError>(()),
{
    if num_records == 0 {
        Err(DbError::RecordExists)
    } else {
        Ok(())
    }
}

/// Updating an item that changes nothing means there is no such item.
pub fn check_item_updated(num_records: usize) -> (r: Result<(), DbError>)
    ensures
        num_records == 0 ==> (r matches Err(DbError::NotFound(m)) && m@ == "item not found"@),
        num_records != 0 ==> r == Ok::<(), DbError>(()),
{
    if num_records == 0 {
        Err(DbError::NotFound(String::from_str("item not found")))
    } else {
        Ok(())
    }
}

/// The outcome of deleting an item: success when no record changed, and
/// not found otherwise.
pub fn check_item_deleted(num_records: usize) -> (r: Result<(), DbError>)
    ensures
        num_records == 0 ==> r == Ok::<(), DbError>(()),
        num_records != 0 ==> (r matches Err(DbError::NotFound(m)) && m@ == "no item found"@),
{
    if num_records == 0 {
        Ok(())
    } else {
        Err(DbError::NotFound(String::from_str("no item found")))
    }
}

/// A user cannot beg when they are the richest user of the server.
pub fn check_beg(richest: &BankAccount, beggar: &BankAccount) -> (r: Result<(), DbError>)
    ensures
        (richest.server_text() == beggar.server_text() && richest.user_text()
            == beggar.user_text() && richest.balance == beggar.balance) ==> (r matches Err(
            DbError::Work(m),
        ) && m@ == "Cannot beg. User has the most coins in the server"@),
        !(richest.server_text() == beggar.server_text() && richest.user_text()
            == beggar.user_text() && richest.balance == beggar.balance) ==> r == Ok::<
            (),
            DbError,
        >(()),
{
    if beggar.same_as(richest) {
        Err(DbError::Work(String::from_str("Cannot beg. User has the most coins in the server")))
    } else {
        Ok(())
    }
}

/// Whether a beggar keeps the beggar's cup after begging: only while the
/// begged coins leave them at most at the beggar's limit.
pub fn keeps_beggar_cup(balance: i32) -> (r: bool)
    ensures
        r == (balance + BEG_AMOUNT <= MAX_BEGGAR_BALANCE),
{
    balance as i64 + BEG_AMOUNT as i64 <= MAX_BEGGAR_BALANCE as i64
}

/// Why an account's balance cannot be adjusted.
#[derive(Debug, Clone, Copy, PartialEq, Eq, Structural)]
pub enum AdjustError {
    /// the amount, or the new balance, does not fit 32 bits
    CoinOverflow(i64),
}

/// The balance of an account after adding `amount`: an existing account
/// (whose balance may be unset, counting as zero) gets the amount added,
/// a new account starts with it; amounts and balances must fit 32 bits.
pub open spec fn adjust_spec(current: Option<Option<i32>>, amount: i64) -> Result<i32, AdjustError> {
    if !fits_i32(amount as int) {
        Err(AdjustError::CoinOverflow(amount))
    } else {
        match current {
            None => Ok(amount as i32),
            Some(b) => {
                let old: int = match b {
                    Some(v) => v as int,
                    None => 0,
                };
                if fits_i32(old + amount) {
                    Ok((old + amount) as i32)
                } else {
                    Err(AdjustError::CoinOverflow(amount))
                }
            },
        }
    }
}

/// The balance of an account after adding `amount`.
pub fn adjusted_balance(current: Option<Option<i32>>, amount: i64) -> (r: Result<i32, AdjustError>)
    ensures
        r == adjust_spec(current, amount),
{
    if !(i32::MIN as i64 <= amount && amount <= i32::MAX as i64) {
        return Err(AdjustError::CoinOverflow(amount));
    }
    let amount32 = amount as i32;
    match current {
        None => Ok(amount32),
        Some(b) => {
            let old: i32 = match b {
                Some(v) => v,
                None => 0,
            };
            match old.checked_add(amount32) {
                Some(v) => Ok(v),
                None => Err(AdjustError::CoinOverflow(amount)),
            }
        },
    }
}

/// Adjusting a balance and adjusting it back restores it (an unset
/// balance comes back as zero). The smallest 32-bit amount cannot be
/// taken back: its opposite does not fit.
pub proof fn lemma_adjust_undo(current: Option<i32>, amount: i64)
    requires
        adjust_spec(Some(current), amount) is Ok,
        amount != i32::MIN,
    ensures
        adjust_spec(Some(Some(adjust_spec(Some(current), amount)->Ok_0)), (-amount) as i64) == Ok::<
            i32,
            AdjustError,
        >(
            match current {
                Some(v) => v,
                None => 0,
            },
        ),
{
}

/// The balance an account shows: an unset balance counts as zero.
pub open spec fn shown_balance(b: Option<i32>) -> int {
    match b {
        Some(v) => v as int,
        None => 0,
    }
}

/// Untipping after a tip between two accounts gives both their balances
/// back: the tipper's `+1` and the tipped user's `+2` are taken off again.
pub proof fn lemma_untip_undoes_tip(from_balance: Option<i32>, to_balance: Option<i32>)
    requires
        adjust_spec(Some(from_balance), TIP_FROM_AMOUNT as i64) is Ok,
        adjust_spec(Some(to_balance), TIP_TO_AMOUNT as i64) is Ok,
    ensures
        adjust_spec(
            Some(Some(adjust_spec(Some(from_balance), TIP_FROM_AMOUNT as i64)->Ok_0)),
            -TIP_FROM_AMOUNT as i64,
        ) == Ok::<i32, AdjustError>(shown_balance(from_balance) as i32),
        adjust_spec(
            Some(Some(adjust_spec(Some(to_balance), TIP_TO_AMOUNT as i64)->Ok_0)),
            -TIP_TO_AMOUNT as i64,
        ) == Ok::<i32, AdjustError>(shown_balance(to_balance) as i32),
{
    lemma_adjust_undo(from_balance, TIP_FROM_AMOUNT as i64);
    lemma_adjust_undo(to_balance, TIP_TO_AMOUNT as i64);
}

/// A transfer between two accounts takes the amount from the sender and
/// gives it to the receiver: the two balances together stay the same.
pub proof fn lemma_transfer_adjustments_conserve(
    from_balance: Option<i32>,
    to_balance: Option<i32>,
    amount: i64,
)
    requires
        adjust_spec(Some(from_balance), (-amount) as i64) is Ok,
        adjust_spec(Some(to_balance), amount) is Ok,
    ensures
        adjust_spec(Some(from_balance), (-amount) as i64)->Ok_0 == shown_balance(from_balance)
            - amount,
        adjust_spec(Some(to_balance), amount)->Ok_0 == shown_balance(to_balance) + amount,
        adjust_spec(Some(from_balance), (-amount) as i64)->Ok_0 + adjust_spec(
            Some(to_balance),
            amount,
        )->Ok_0 == shown_balance(from_balance) + shown_balance(to_balance),
{
}

} // verus!
