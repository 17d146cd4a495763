//! Records as the database administration tool takes them from its
//! command line, and the database rows they become.
use vstd::prelude::*;

use crate::db::error::DbError;
use crate::db::model;
use crate::db::ids::id_text;
use crate::text::{decimal, nat_digits, parse_u64_spec, IntErrorKind};

verus! {

/// An item as entered: every field but the id may be left out.
#[derive(Debug, Clone, PartialEq)]
pub struct Item {
    pub id: u16,
    pub name: Option<String>,
    pub description: Option<String>,
    pub emoji: Option<String>,
    pub price: Option<i32>,
    pub available: Option<i32>,
}

/// The first field an item to create leaves out, as the message the tool
/// reports; `None` when every field is given.
pub open spec fn missing_item_field(item: Item) -> Option<Seq<char>> {
    if item.name is None {
        Some("name cannot be null"@)
    } else if item.description is None {
        Some("description cannot be null"@)
    } else if item.emoji is None {
        Some("emoji cannot be null"@)
    } else if item.price is None {
        Some("price cannot be null"@)
    } else if item.available is None {
        Some("availability cannot be null"@)
    } else {
        None
    }
}

impl Item {
    /// The item as a database row; every field must be given.
    pub fn to_db_item(self) -> (r: Result<model::Item, String>)
        ensures
            missing_item_field(self) matches Some(m) ==> (r matches Err(e) && e@ == m),
            missing_item_field(self) is None ==> (r matches Ok(it) && {
                &&& it.id == self.id as i32
                &&& Some(it.name) == self.name
                &&& Some(it.description) == self.description
                &&& Some(it.emoji) == self.emoji
                &&& Some(it.price) == self.price
                &&& Some(it.available) == self.available
            }),
    {
        let name = match self.name {
            Some(v) => v,
            None => return Err(String::from_str("name cannot be null")),
        };
        let description = match self.description {
            Some(v) => v,
            None => return Err(String::from_str("description cannot be null")),
        };
        let emoji = match self.emoji {
            Some(v) => v,
            None => return Err(String::from_str("emoji cannot be null")),
        };
        let price = match self.price {
            Some(v) => v,
            None => return Err(String::from_str("price cannot be null")),
        };
        let available = match self.available {
            Some(v) => v,
            None => return Err(String::from_str("availability cannot be null")),
        };
        Ok(model::Item { id: self.id as i32, name, description, emoji, price, available })
    }

    /// The item as a change to the stored item: the given fields replace
    /// the stored ones.
    pub fn to_db_update_item(self) -> (r: model::UpdateItem)
        ensures
            r == (model::UpdateItem {
                id: self.id as i32,
                name: self.name,
                description: self.description,
                emoji: self.emoji,
                price: self.price,
                available: self.available,
            }),
    {
        model::UpdateItem {
            id: self.id as i32,
            name: self.name,
            description: self.description,
            emoji: self.emoji,
            price: self.price,
            available: self.available,
        }
    }
}

/// An item in a user's inventory as entered.
#[derive(Debug, Clone, Copy, PartialEq, Eq, Structural)]
pub struct InventoryItem {
    pub server_id: u64,
    pub user_id: u64,
    pub item_id: u64,
}

impl InventoryItem {
    /// The inventory record; the item id must fit the database's 32-bit
    /// ids.
    pub fn to_db_item(self) -> (r: Result<model::InventoryItem, DbError>)
        ensures
            self.item_id > i32::MAX ==> r == Err::<model::InventoryItem, DbError>(DbError::BadId),
            self.item_id <= i32::MAX ==> (r matches Ok(it) && {
                &&& it.server_text() == nat_digits(self.server_id as nat)
                &&& it.user_text() == nat_digits(self.user_id as nat)
                &&& it.item_id == self.item_id as i32
            }),
    {
        if self.item_id > i32::MAX as u64 {
            return Err(DbError::BadId);
        }
        let item_id: i32 = self.item_id as i32;
        model::InventoryItem::new(&self.server_id, &self.user_id, &item_id)
    }
}

/// A number in decimal.
fn number(n: i64) -> (r: String)
    ensures
        r@ == decimal(n as int),
{
    crate::text::string_of(&crate::text::format_i64(n))
}

/// How the tool lists an account: `#s<server> #u<user> $<balance>`.
pub fn account_text(server_id: u64, user_id: u64, balance: i32) -> (r: String)
    ensures
        r@ == "#s"@ + nat_digits(server_id as nat) + " #u"@ + nat_digits(user_id as nat) + " $"@
            + decimal(balance as int),
{
    let mut r = String::from_str("#s");
    r.append(id_text(server_id).as_str());
    r.append(" #u");
    r.append(id_text(user_id).as_str());
    r.append(" $");
    r.append(number(balance as i64).as_str());
    r
}

/// What the tool reports after creating an account:
/// `balance created: #<server> #<user> $<balance>`.
pub fn balance_created_text(server_id: u64, user_id: u64, balance: i64) -> (r: String)
    ensures
        r@ == "balance created: #"@ + nat_digits(server_id as nat) + " #"@ + nat_digits(
            user_id as nat,
        ) + " $"@ + decimal(balance as int),
{
    let mut r = String::from_str("balance created: #");
    r.append(id_text(server_id).as_str());
    r.append(" #");
    r.append(id_text(user_id).as_str());
    r.append(" $");
    r.append(number(balance).as_str());
    r
}

/// What the tool reports after adding a user to a channel:
/// `user inserted: #s<server> #c<channel> #u<user>`.
pub fn user_inserted_text(server_id: u64, channel_id: u64, user_id: u64) -> (r: String)
    ensures
        r@ == "user inserted: #s"@ + nat_digits(server_id as nat) + " #c"@ + nat_digits(
            channel_id as nat,
        ) + " #u"@ + nat_digits(user_id as nat),
{
    let mut r = String::from_str("user inserted: #s");
    r.append(id_text(server_id).as_str());
    r.append(" #c");
    r.append(id_text(channel_id).as_str());
    r.append(" #u");
    r.append(id_text(user_id).as_str());
    r
}

/// What the tool reports after setting a balance:
/// `updated <records> record to $<balance>`.
pub fn balance_updated_text(records: usize, balance: i64) -> (r: String)
    ensures
        r@ == "updated "@ + nat_digits(records as nat) + " record to $"@ + decimal(balance as int),
{
    let mut r = String::from_str("updated ");
    r.append(crate::text::string_of(&crate::text::format_u64(records as u64)).as_str());
    r.append(" record to $");
    r.append(number(balance).as_str());
    r
}

/// How the tool lists a channel user: `s#<server> c#<channel> u#<user>`.
pub fn channel_user_text(server_id: u64, channel_id: u64, user_id: u64) -> (r: String)
    ensures
        r@ == "s#"@ + nat_digits(server_id as nat) + " c#"@ + nat_digits(channel_id as nat)
            + " u#"@ + nat_digits(user_id as nat),
{
    let mut r = String::from_str("s#");
    r.append(id_text(server_id).as_str());
    r.append(" c#");
    r.append(id_text(channel_id).as_str());
    r.append(" u#");
    r.append(id_text(user_id).as_str());
    r
}

/// How the tool lists an inventory record: `s#<server> u#<user> i#<item>`.
pub fn inventory_text(server_id: u64, user_id: u64, item_id: i32) -> (r: String)
    ensures
        r@ == "s#"@ + nat_digits(server_id as nat) + " u#"@ + nat_digits(user_id as nat) + " i#"@
            + decimal(item_id as int),
{
    let mut r = String::from_str("s#");
    r.append(id_text(server_id).as_str());
    r.append(" u#");
    r.append(id_text(user_id).as_str());
    r.append(" i#");
    r.append(number(item_id as i64).as_str());
    r
}

/// How the tool lists an item: id, emoji, name and price, then its
/// availability and description on lines of their own.
pub fn item_text(item: &model::Item) -> (r: String)
    ensures
        r@ == "#"@ + decimal(item.id as int) + " - "@ + item.emoji@ + " "@ + item.name@ + " "@
            + decimal(item.price as int) + "🪙:\navailable: "@ + decimal(item.available as int)
            + "\n"@ + item.description@,
{
    let mut r = String::from_str("#");
    r.append(number(item.id as i64).as_str());
    r.append(" - ");
    r.append(item.emoji.as_str());
    r.append(" ");
    r.append(item.name.as_str());
    r.append(" ");
    r.append(number(item.price as i64).as_str());
    r.append("🪙:\navailable: ");
    r.append(number(item.available as i64).as_str());
    r.append("\n");
    r.append(item.description.as_str());
    r
}

/// The id a stored id text stands for, when it is a number.
pub open spec fn stored_id(s: Seq<char>) -> Option<u64> {
    match parse_u64_spec(s) {
        Ok(v) => Some(v as u64),
        Err(_) => None::<u64>,
    }
}

/// Reads a stored id the tool relies on.
fn read_id(s: &String) -> (r: u64)
    requires
        stored_id(s@) is Some,
    ensures
        Some(r) == stored_id(s@),
{
    match crate::db::ids::parse_id(s.as_str()) {
        Ok(v) => v,
        Err(_) => {
            proof {
                assert(parse_u64_spec(s@) is Ok);
            }
            0
        },
    }
}

/// Whether every stored id of the accounts is a number.
pub open spec fn accounts_readable(accounts: Seq<model::BankAccount>) -> bool {
    forall|i: int|
        0 <= i < accounts.len() ==> (stored_id(#[trigger] accounts[i].server_text()) is Some
            && stored_id(accounts[i].user_text()) is Some)
}

/// An account as the tool lists it.
pub open spec fn account_line(a: model::BankAccount) -> Seq<char> {
    "#s"@ + nat_digits(stored_id(a.server_text())->0 as nat) + " #u"@ + nat_digits(
        stored_id(a.user_text())->0 as nat,
    ) + " $"@ + decimal(a.balance as int)
}

/// What the tool lists for some records: a note when there are none,
/// else one line per record.
pub open spec fn listing(lines: Seq<Seq<char>>, none: Seq<char>) -> Seq<Seq<char>> {
    if lines.len() == 0 {
        seq![none]
    } else {
        lines
    }
}

pub open spec fn string_views(v: Seq<String>) -> Seq<Seq<char>> {
    v.map_values(|s: String| s@)
}

/// How the tool lists a stored account.
pub fn account_listing(account: &model::BankAccount) -> (r: String)
    requires
        stored_id(account.server_text()) is Some,
        stored_id(account.user_text()) is Some,
    ensures
        r@ == account_line(*account),
{
    account_text(read_id(&account.server_id), read_id(&account.user_id), account.balance)
}

/// How the tool lists stored accounts.
pub fn accounts_listing(accounts: &Vec<model::BankAccount>) -> (r: Vec<String>)
    requires
        accounts_readable(accounts@),
    ensures
        string_views(r@) == listing(
            accounts@.map_values(|a: model::BankAccount| account_line(a)),
            "no accounts returned"@,
        ),
{
    let mut r: Vec<String> = Vec::new();
    if accounts.len() == 0 {
        r.push(String::from_str("no accounts returned"));
        proof {
            assert(string_views(r@) =~= seq!["no accounts returned"@]);
        }
        return r;
    }
    let mut i: usize = 0;
    while i < accounts.len()
        invariant
            i <= accounts.len(),
            accounts_readable(accounts@),
            r@.len() == i,
            forall|j: int| 0 <= j < i ==> r@[j]@ == account_line(#[trigger] accounts@[j]),
        decreases accounts.len() - i,
    {
        proof {
            assert(stored_id(accounts@[i as int].server_text()) is Some);
        }
        let line = account_listing(&accounts[i]);
        r.push(line);
        i = i + 1;
    }
    proof {
        assert(string_views(r@) =~= accounts@.map_values(|a: model::BankAccount| account_line(a)));
    }
    r
}

/// Whether every stored id of the channel users is a number.
pub open spec fn channel_users_readable(users: Seq<model::ChannelUser>) -> bool {
    forall|i: int|
        0 <= i < users.len() ==> (stored_id(#[trigger] users[i].server_text()) is Some
            && stored_id(users[i].channel_text()) is Some && stored_id(users[i].user_text())
            is Some)
}

/// A channel user as the tool lists it.
pub open spec fn channel_user_line(u: model::ChannelUser) -> Seq<char> {
    "s#"@ + nat_digits(stored_id(u.server_text())->0 as nat) + " c#"@ + nat_digits(
        stored_id(u.channel_text())->0 as nat,
    ) + " u#"@ + nat_digits(stored_id(u.user_text())->0 as nat)
}

/// How the tool lists stored channel users.
pub fn channel_users_listing(users: &Vec<model::ChannelUser>) -> (r: Vec<String>)
    requires
        channel_users_readable(users@),
    ensures
        string_views(r@) == listing(
            users@.map_values(|u: model::ChannelUser| channel_user_line(u)),
            "no users retrieved"@,
        ),
{
    let mut r: Vec<String> = Vec::new();
    if users.len() == 0 {
        r.push(String::from_str("no users retrieved"));
        proof {
            assert(string_views(r@) =~= seq!["no users retrieved"@]);
        }
        return r;
    }
    let mut i: usize = 0;
    while i < users.len()
        invariant
            i <= users.len(),
            channel_users_readable(users@),
            r@.len() == i,
            forall|j: int| 0 <= j < i ==> r@[j]@ == channel_user_line(#[trigger] users@[j]),
        decreases users.len() - i,
    {
        let u = &users[i];
        proof {
            assert(stored_id(users@[i as int].server_text()) is Some);
        }
        let line = channel_user_text(
            read_id(&u.server_id),
            read_id(&u.channel_id),
            read_id(&u.user_id),
        );
        r.push(line);
        i = i + 1;
    }
    proof {
        assert(string_views(r@) =~= users@.map_values(
            |u: model::ChannelUser| channel_user_line(u),
        ));
    }
    r
}

/// Whether every stored id of the inventory records is a number.
pub open spec fn inventory_readable(items: Seq<model::InventoryItem>) -> bool {
    forall|i: int|
        0 <= i < items.len() ==> (stored_id(#[trigger] items[i].server_text()) is Some
            && stored_id(items[i].user_text()) is Some)
}

/// An inventory record as the tool lists it.
pub open spec fn inventory_line(it: model::InventoryItem) -> Seq<char> {
    "s#"@ + nat_digits(stored_id(it.server_text())->0 as nat) + " u#"@ + nat_digits(
        stored_id(it.user_text())->0 as nat,
    ) + " i#"@ + decimal(it.item_id as int)
}

/// How the tool lists stored inventory records.
pub fn inventory_listing(items: &Vec<model::InventoryItem>) -> (r: Vec<String>)
    requires
        inventory_readable(items@),
    ensures
        string_views(r@) == listing(
            items@.map_values(|it: model::InventoryItem| inventory_line(it)),
            "no inventory items retrieved"@,
        ),
{
    let mut r: Vec<String> = Vec::new();
    if items.len() == 0 {
        r.push(String::from_str("no inventory items retrieved"));
        proof {
            assert(string_views(r@) =~= seq!["no inventory items retrieved"@]);
        }
        return r;
    }
    let mut i: usize = 0;
    while i < items.len()
        invariant
            i <= items.len(),
            inventory_readable(items@),
            r@.len() == i,
            forall|j: int| 0 <= j < i ==> r@[j]@ == inventory_line(#[trigger] items@[j]),
        decreases items.len() - i,
    {
        let it = &items[i];
        proof {
            assert(stored_id(items@[i as int].server_text()) is Some);
        }
        let line = inventory_text(read_id(&it.server_id), read_id(&it.user_id), it.item_id);
        r.push(line);
        i = i + 1;
    }
    proof {
        assert(string_views(r@) =~= items@.map_values(
            |it: model::InventoryItem| inventory_line(it),
        ));
    }
    r
}

/// An item as the tool lists it.
pub open spec fn item_line(item: model::Item) -> Seq<char> {
    "#"@ + decimal(item.id as int) + " - "@ + item.emoji@ + " "@ + item.name@ + " "@ + decimal(
        item.price as int,
    ) + "🪙:\navailable: "@ + decimal(item.available as int) + "\n"@ + item.description@
}

/// How the tool lists stored items.
pub fn items_listing(items: &Vec<model::Item>) -> (r: Vec<String>)
    ensures
        string_views(r@) == listing(
            items@.map_values(|it: model::Item| item_line(it)),
            "no items retrieved"@,
        ),
{
    let mut r: Vec<String> = Vec::new();
    if items.len() == 0 {
        r.push(String::from_str("no items retrieved"));
        proof {
            assert(string_views(r@) =~= seq!["no items retrieved"@]);
        }
        return r;
    }
    let mut i: usize = 0;
    while i < items.len()
        invariant
            i <= items.len(),
            r@.len() == i,
            forall|j: int| 0 <= j < i ==> r@[j]@ == item_line(#[trigger] items@[j]),
        decreases items.len() - i,
    {
        r.push(item_text(&items[i]));
        i = i + 1;
    }
    proof {
        assert(string_views(r@) =~= items@.map_values(|it: model::Item| item_line(it)));
    }
    r
}

} // verus!
