//! The rows of the coin economy's database. Ids are stored as decimal
//! text, balances and item ids as 32-bit numbers.
use vstd::prelude::*;

use crate::db::error::DbError;
use crate::db::ids::{id_parse_matches, id_text, parse_id};
use crate::text::{nat_digits, parse_u64_spec};

verus! {

/// An item of the shop.
#[derive(Debug, Clone, PartialEq)]
pub struct Item {
    pub id: i32,
    pub name: String,
    pub description: String,
    pub emoji: String,
    pub price: i32,
    pub available: i32,
}

/// A change to an item: the fields that are set replace the item's.
#[derive(Debug, Clone, PartialEq)]
pub struct UpdateItem {
    pub id: i32,
    pub name: Option<String>,
    pub description: Option<String>,
    pub emoji: Option<String>,
    pub price: Option<i32>,
    pub available: Option<i32>,
}

/// A user seen in a channel of a server.
#[derive(Debug, Clone, PartialEq)]
pub struct ChannelUser {
    pub server_id: String,
    pub channel_id: String,
    pub user_id: String,
}

impl ChannelUser {
    pub open spec fn server_text(&self) -> Seq<char> {
        self.server_id@
    }

    pub open spec fn channel_text(&self) -> Seq<char> {
        self.channel_id@
    }

    pub open spec fn user_text(&self) -> Seq<char> {
        self.user_id@
    }

    /// The row for a user of a channel.
    pub fn new(server: &u64, channel: &u64, user: &u64) -> (r: Self)
        ensures
            r.server_text() == nat_digits(*server as nat),
            r.channel_text() == nat_digits(*channel as nat),
            r.user_text() == nat_digits(*user as nat),
    {
        ChannelUser {
            server_id: id_text(*server),
            channel_id: id_text(*channel),
            user_id: id_text(*user),
        }
    }

    /// A row as read from the database.
    pub fn from_columns(server_id: String, channel_id: String, user_id: String) -> (r: Self)
        ensures
            r.server_text() == server_id@,
            r.channel_text() == channel_id@,
            r.user_text() == user_id@,
    {
        ChannelUser { server_id, channel_id, user_id }
    }

    pub fn server_id(&self) -> (r: Result<u64, DbError>)
        ensures
            id_parse_matches(r, self.server_text()),
    {
        parse_id(self.server_id.as_str())
    }

    pub fn channel_id(&self) -> (r: Result<u64, DbError>)
        ensures
            id_parse_matches(r, self.channel_text()),
    {
        parse_id(self.channel_id.as_str())
    }

    pub fn user_id(&self) -> (r: Result<u64, DbError>)
        ensures
            id_parse_matches(r, self.user_text()),
    {
        parse_id(self.user_id.as_str())
    }
}

/// A user's coins on a server.
#[derive(Debug, Clone, PartialEq)]
pub struct BankAccount {
    pub server_id: String,
    pub user_id: String,
    pub balance: i32,
}

impl BankAccount {
    pub open spec fn server_text(&self) -> Seq<char> {
        self.server_id@
    }

    pub open spec fn user_text(&self) -> Seq<char> {
        self.user_id@
    }

    /// The user id of the account, when its text is a number.
    pub open spec fn user_id_spec(&self) -> Option<u64> {
        match parse_u64_spec(self.user_text()) {
            Ok(v) => Some(v as u64),
            Err(_) => None,
        }
    }

    /// The account of a user on a server with the given balance.
    pub fn new(server: &u64, user: &u64, balance: &i32) -> (r: BankAccount)
        ensures
            r.server_text() == nat_digits(*server as nat),
            r.user_text() == nat_digits(*user as nat),
            r.balance == *balance,
    {
        BankAccount { server_id: id_text(*server), user_id: id_text(*user), balance: *balance }
    }

    /// An account as read from the database.
    pub fn from_columns(server_id: String, user_id: String, balance: i32) -> (r: Self)
        ensures
            r.server_text() == server_id@,
            r.user_text() == user_id@,
            r.balance == balance,
    {
        BankAccount { server_id, user_id, balance }
    }

    pub fn user_id(&self) -> (r: Result<u64, DbError>)
        ensures
            id_parse_matches(r, self.user_text()),
    {
        parse_id(self.user_id.as_str())
    }

    pub fn server_id(&self) -> (r: Result<u64, DbError>)
        ensures
            id_parse_matches(r, self.server_text()),
    {
        parse_id(self.server_id.as_str())
    }

    /// Whether two rows are the same account with the same balance.
    pub fn same_as(&self, other: &BankAccount) -> (r: bool)
        ensures
            r == (self.server_text() == other.server_text() && self.user_text()
                == other.user_text() && self.balance == other.balance),
    {
        let a = crate::text::chars_of(self.server_id.as_str());
        let b = crate::text::chars_of(other.server_id.as_str());
        let c = crate::text::chars_of(self.user_id.as_str());
        let d = crate::text::chars_of(other.user_id.as_str());
        crate::text::chars_eq(&a, &b) && crate::text::chars_eq(&c, &d) && self.balance
            == other.balance
    }
}

/// The two accounts of a transfer, after it.
#[derive(Debug, Clone, PartialEq)]
pub struct TransferResult {
    pub to_account: BankAccount,
    pub from_account: BankAccount,
}

/// An item a user owns on a server.
#[derive(Debug, Clone, PartialEq)]
pub struct InventoryItem {
    pub server_id: String,
    pub user_id: String,
    pub item_id: i32,
}

impl InventoryItem {
    pub open spec fn server_text(&self) -> Seq<char> {
        self.server_id@
    }

    pub open spec fn user_text(&self) -> Seq<char> {
        self.user_id@
    }

    /// The record of a user owning an item; it is always made.
    pub fn new(server: &u64, user: &u64, item_id: &i32) -> (r: Result<InventoryItem, DbError>)
        ensures
            r matches Ok(it) && {
                &&& it.server_text() == nat_digits(*server as nat)
                &&& it.user_text() == nat_digits(*user as nat)
                &&& it.item_id == *item_id
            },
    {
        Ok(InventoryItem { server_id: id_text(*server), user_id: id_text(*user), item_id: *item_id })
    }

    /// A record as read from the database.
    pub fn from_columns(server_id: String, user_id: String, item_id: i32) -> (r: Self)
        ensures
            r.server_text() == server_id@,
            r.user_text() == user_id@,
            r.item_id == item_id,
    {
        InventoryItem { server_id, user_id, item_id }
    }

    pub fn user_id(&self) -> (r: Result<u64, DbError>)
        ensures
            id_parse_matches(r, self.user_text()),
    {
        parse_id(self.user_id.as_str())
    }

    pub fn server_id(&self) -> (r: Result<u64, DbError>)
        ensures
            id_parse_matches(r, self.server_text()),
    {
        parse_id(self.server_id.as_str())
    }
}

/// An account made for a server and a user gives those ids back.
pub proof fn lemma_bank_account_ids(account: BankAccount, server: u64, user: u64)
    requires
        account.server_text() == nat_digits(server as nat),
        account.user_text() == nat_digits(user as nat),
    ensures
        id_parse_matches(Ok(server), account.server_text()),
        id_parse_matches(Ok(user), account.user_text()),
{
    crate::text::lemma_parse_format_u64(server);
    crate::text::lemma_parse_format_u64(user);
}

/// An inventory record made for a server and a user gives those ids
/// back.
pub proof fn lemma_inventory_item_ids(item: InventoryItem, server: u64, user: u64)
    requires
        item.server_text() == nat_digits(server as nat),
        item.user_text() == nat_digits(user as nat),
    ensures
        id_parse_matches(Ok(server), item.server_text()),
        id_parse_matches(Ok(user), item.user_text()),
{
    crate::text::lemma_parse_format_u64(server);
    crate::text::lemma_parse_format_u64(user);
}

/// A channel user made for a server, channel and user gives those ids
/// back.
pub proof fn lemma_channel_user_ids(row: ChannelUser, server: u64, channel: u64, user: u64)
    requires
        row.server_text() == nat_digits(server as nat),
        row.channel_text() == nat_digits(channel as nat),
        row.user_text() == nat_digits(user as nat),
    ensures
        id_parse_matches(Ok(server), row.server_text()),
        id_parse_matches(Ok(channel), row.channel_text()),
        id_parse_matches(Ok(user), row.user_text()),
{
    crate::text::lemma_parse_format_u64(server);
    crate::text::lemma_parse_format_u64(channel);
    crate::text::lemma_parse_format_u64(user);
}

} // verus!
