//! The coin bot's answers to its commands, and the decisions it makes
//! around the bank's operations. Talking to the chat service and the
//! database is left to the program around the library.
use vstd::prelude::*;

use crate::commands::{Command, ABOUT, PING};
use crate::db::error::DbError;
use crate::db::model::{InventoryItem, Item, TransferResult};
use crate::error::BotError;
use crate::gambling::{GambleError, GambleOutput, Prize, State};
use crate::text::{decimal, format_i64, string_of};

pub mod messages;
pub mod process;

verus! {

/// What the bot answers to a command.
#[derive(Debug, Clone, PartialEq)]
pub enum Output {
    Say(String),
    DailyResponse,
    /// the balances of a channel's users, by name
    CoinBalances(Vec<(String, i64)>),
    /// the daily allowance was given already; when it can be asked again,
    /// in seconds since the Unix epoch (UTC)
    BadDailyResponse { next_epoch: i64 },
    TransferSuccess { to_user: u64, to_balance: i64, from_user: u64, from_balance: i64, amount: i64 },
    Gamble(GambleOutput),
    BetTooHigh { amount: i64, player_balance: i64 },
    Help,
    Shop(Vec<Item>),
    /// a user's items
    Inventory(Vec<Item>),
}

impl From<String> for Output {
    fn from(s: String) -> (r: Output) {
        Output::Say(s)
    }
}

impl vstd::std_specs::convert::FromSpecImpl<String> for Output {
    open spec fn obeys_from_spec() -> bool {
        true
    }

    open spec fn from_spec(s: String) -> Output {
        Output::Say(s)
    }
}

/// The answer to a command that needs neither the bank nor the chat
/// service: `Some(answer)` for help, ping, about and a message that is
/// no command (which gets no answer), `None` for every other command.
pub fn answer_without_bank(command: &Command) -> (r: Option<Option<Output>>)
    ensures
        match *command {
            Command::Help => r == Some(Some(Output::Help)),
            Command::Ping => r matches Some(Some(Output::Say(m))) && m@ == PING@,
            Command::About => r matches Some(Some(Output::Say(m))) && m@ == ABOUT@,
            Command::NotACommand => r == Some(None::<Output>),
            _ => r is None,
        },
{
    match command {
        Command::Help => Some(Some(Output::Help)),
        Command::Ping => Some(Some(Output::Say(String::from_str(PING)))),
        Command::About => Some(Some(Output::Say(String::from_str(ABOUT)))),
        Command::NotACommand => Some(None),
        _ => None,
    }
}

/// The coins at stake in a gamble: the prize's coins, or every coin of
/// the player.
pub open spec fn stake_spec(prize: Prize, player_balance: i64) -> i64 {
    match prize {
        Prize::Coins(n) => n,
        Prize::AllCoins => player_balance,
    }
}

/// The coins at stake in a gamble.
pub fn gamble_stake(prize: Prize, player_balance: i64) -> (r: i64)
    ensures
        r == stake_spec(prize, player_balance),
{
    match prize {
        Prize::Coins(n) => n,
        Prize::AllCoins => player_balance,
    }
}

/// The answer to a bet the player cannot cover, or `None` when the
/// player has the coins at stake.
pub fn check_bet(prize: Prize, player_balance: i64) -> (r: Option<Output>)
    ensures
        player_balance < stake_spec(prize, player_balance) ==> r == Some(
            Output::BetTooHigh { player_balance, amount: stake_spec(prize, player_balance) },
        ),
        player_balance >= stake_spec(prize, player_balance) ==> r is None,
{
    let amount = gamble_stake(prize, player_balance);
    if player_balance < amount {
        Some(Output::BetTooHigh { player_balance, amount })
    } else {
        None
    }
}

/// Coins to move from one user to another.
#[derive(Debug, Clone, Copy, PartialEq, Eq, Structural)]
pub struct CoinTransfer {
    pub from_user: u64,
    pub to_user: u64,
    pub amount: i64,
}

/// How a played gamble is settled: a winner gets the stake from the
/// house, a loser pays it to the house, a draw moves nothing, and a
/// gamble still waiting is an error.
pub fn gamble_settlement(ultron_id: u64, player_balance: i64, output: &GambleOutput) -> (r: Result<
    Option<CoinTransfer>,
    BotError,
>)
    ensures
        match *output {
            GambleOutput::DiceRoll { player_id, prize, state, .. } => match state {
                State::Win => r == Ok::<Option<CoinTransfer>, BotError>(
                    Some(
                        CoinTransfer {
                            from_user: ultron_id,
                            to_user: player_id,
                            amount: stake_spec(prize, player_balance),
                        },
                    ),
                ),
                State::Lose => r == Ok::<Option<CoinTransfer>, BotError>(
                    Some(
                        CoinTransfer {
                            from_user: player_id,
                            to_user: ultron_id,
                            amount: stake_spec(prize, player_balance),
                        },
                    ),
                ),
                State::Draw => r == Ok::<Option<CoinTransfer>, BotError>(None),
                State::Waiting => r == Err::<Option<CoinTransfer>, BotError>(
                    BotError::Gamble(GambleError::InvalidState(State::Waiting)),
                ),
            },
        },
{
    match output {
        GambleOutput::DiceRoll { player_id, prize, state, .. } => {
            let amount = gamble_stake(*prize, player_balance);
            match state {
                State::Win => Ok(
                    Some(CoinTransfer { from_user: ultron_id, to_user: *player_id, amount }),
                ),
                State::Lose => Ok(
                    Some(CoinTransfer { from_user: *player_id, to_user: ultron_id, amount }),
                ),
                State::Draw => Ok(None),
                State::Waiting => Err(BotError::Gamble(GambleError::InvalidState(*state))),
            }
        },
    }
}

/// The answer to `!daily`: granted, or when it can be asked again.
pub fn daily_output(granted: bool, next_epoch: i64) -> (r: Output)
    ensures
        granted ==> r == Output::DailyResponse,
        !granted ==> r == (Output::BadDailyResponse { next_epoch }),
{
    if granted {
        Output::DailyResponse
    } else {
        Output::BadDailyResponse { next_epoch }
    }
}

/// The answer to `!give` from the outcome of the transfer: the accounts
/// after a successful one, a chat message when the sender lacks the
/// coins, and the error otherwise. A stored id that is not a number is an
/// error too.
pub open spec fn transfer_output_post(
    result: Result<TransferResult, DbError>,
    amount: i64,
    r: Result<Option<Output>, BotError>,
) -> bool {
    match result {
        Ok(t) => match (t.to_account.user_id_spec(), t.from_account.user_id_spec()) {
            (Some(to_user), Some(from_user)) => r == Ok::<Option<Output>, BotError>(
                Some(
                    Output::TransferSuccess {
                        to_user,
                        to_balance: t.to_account.balance as i64,
                        from_user,
                        from_balance: t.from_account.balance as i64,
                        amount,
                    },
                ),
            ),
            _ => r matches Err(BotError::Db(DbError::IdParse(_))),
        },
        Err(DbError::InsufficientFunds) => r matches Ok(Some(Output::Say(m))) && m@
            == "You do not have "@ + decimal(amount as int) + " coins."@,
        Err(e) => r == Err::<Option<Output>, BotError>(BotError::Db(e)),
    }
}

/// The answer to `!give` from the outcome of the transfer.
pub fn transfer_output(result: Result<TransferResult, DbError>, amount: i64) -> (r: Result<
    Option<Output>,
    BotError,
>)
    ensures
        transfer_output_post(result, amount, r),
{
    match result {
        Ok(transfer_result) => {
            let to_account = transfer_result.to_account;
            let to_user = match to_account.user_id() {
                Ok(id) => id,
                Err(e) => return Err(BotError::Db(e)),
            };
            let to_balance = to_account.balance as i64;
            let from_account = transfer_result.from_account;
            let from_user = match from_account.user_id() {
                Ok(id) => id,
                Err(e) => return Err(BotError::Db(e)),
            };
            let from_balance = from_account.balance as i64;
            Ok(Some(Output::TransferSuccess { to_user, to_balance, from_user, from_balance, amount }))
        },
        Err(DbError::InsufficientFunds) => {
            let mut m = String::from_str("You do not have ");
            m.append(string_of(&format_i64(amount)).as_str());
            m.append(" coins.");
            Ok(Some(Output::Say(m)))
        },
        Err(e) => Err(BotError::Db(e)),
    }
}

/// The index of the first item for sale whose emoji is `emoji`.
pub fn item_for_emoji(items: &Vec<Item>, emoji: &str) -> (r: Option<usize>)
    ensures
        match r {
            Some(i) => i < items@.len() && items@[i as int].emoji@ == emoji@ && forall|j: int|
                0 <= j < i ==> items@[j].emoji@ != emoji@,
            None => forall|j: int| 0 <= j < items@.len() ==> items@[j].emoji@ != emoji@,
        },
{
    let e = crate::text::chars_of(emoji);
    let mut i: usize = 0;
    while i < items.len()
        invariant
            i <= items.len(),
            e@ == emoji@,
            forall|j: int| 0 <= j < i ==> items@[j].emoji@ != emoji@,
        decreases items.len() - i,
    {
        let candidate = crate::text::chars_of(items[i].emoji.as_str());
        if crate::text::chars_eq(&candidate, &e) {
            return Some(i);
        }
        i = i + 1;
    }
    None
}

/// What the bot says on the chat.
#[derive(Debug, Clone, PartialEq)]
pub enum Reply {
    /// a rich message
    Embed(messages::Embed),
    /// a plain message
    Say(String),
}

/// The shop's answer to a purchase: the purchased item, a note when the
/// user cannot afford it or has it already, or the error.
pub fn purchase_reply(
    result: Result<(), DbError>,
    item: &Item,
    user_nick: &str,
    user_name: &str,
) -> (r: Result<Reply, BotError>)
    ensures
        match result {
            Ok(()) => r matches Ok(Reply::Embed(e)) && messages::embed_view(e)
                == messages::item_purchased_view(user_nick@, *item),
            Err(DbError::InsufficientFunds) => r matches Ok(Reply::Say(m)) && m@
                == "You cannot afford that, "@ + user_nick@,
            Err(DbError::RecordExists) => r matches Ok(Reply::Say(m)) && m@
                == "You already have a "@ + item.emoji@ + item.name@ + ", "@ + user_name@,
            Err(e) => r == Err::<Reply, BotError>(BotError::Db(e)),
        },
{
    match result {
        Ok(()) => Ok(Reply::Embed(messages::item_purchased_embed(user_nick, item))),
        Err(DbError::InsufficientFunds) => Ok(Reply::Say(messages::cannot_afford_text(user_nick))),
        Err(DbError::RecordExists) => Ok(
            Reply::Say(messages::already_owned_text(item, user_name)),
        ),
        Err(e) => Err(BotError::Db(e)),
    }
}

/// What the shop does with a reaction on its message.
#[derive(Debug, Clone, PartialEq)]
pub enum ShopAction {
    /// the reaction names no item for sale
    Ignore,
    /// an item was put back; the answer
    Refuse(String),
    /// the user picked the item at this index: record that they own it
    Buy { item: usize, record: InventoryItem },
    /// an item was picked, but the reaction lacks its server or its user
    Fail(BotError),
}

/// What the shop does with a reaction naming an item for sale.
pub open spec fn shop_pick_post(
    added: bool,
    items: Seq<Item>,
    emoji: Seq<char>,
    server_id: Option<u64>,
    user_id: Option<u64>,
    r: ShopAction,
) -> bool {
    if !added {
        r matches ShopAction::Refuse(m) && m@ == messages::NO_REFUNDS@
    } else if server_id is None {
        r matches ShopAction::Fail(BotError::Unknown(m)) && m@ == "unable to get server id"@
    } else if user_id is None {
        r matches ShopAction::Fail(BotError::Unknown(m)) && m@ == "unable to get user id"@
    } else {
        r matches ShopAction::Buy { item, record } && item < items.len() && items[item as int].emoji@
            == emoji && (forall|j: int| 0 <= j < item ==> items[j].emoji@ != emoji)
            && record.server_text() == crate::text::nat_digits(server_id->0 as nat)
            && record.user_text() == crate::text::nat_digits(user_id->0 as nat) && record.item_id
            == items[item as int].id
    }
}

/// What the shop does with a reaction that was added (`added`) or
/// removed, with this emoji, by this user on this server: an item put
/// back is not refunded, an item picked is bought, and a reaction naming
/// no item is ignored.
pub fn shop_action(
    added: bool,
    items: &Vec<Item>,
    emoji: &str,
    server_id: Option<u64>,
    user_id: Option<u64>,
) -> (r: ShopAction)
    ensures
        (forall|j: int| 0 <= j < items@.len() ==> items@[j].emoji@ != emoji@) ==> r
            == ShopAction::Ignore,
        (exists|j: int| 0 <= j < items@.len() && items@[j].emoji@ == emoji@) ==> shop_pick_post(
            added,
            items@,
            emoji@,
            server_id,
            user_id,
            r,
        ),
{
    let i = match item_for_emoji(items, emoji) {
        Some(i) => i,
        None => {
            return ShopAction::Ignore;
        },
    };
    if !added {
        return ShopAction::Refuse(String::from_str(messages::NO_REFUNDS));
    }
    let server = match server_id {
        Some(s) => s,
        None => {
            return ShopAction::Fail(BotError::Unknown(String::from_str("unable to get server id")));
        },
    };
    let user = match user_id {
        Some(u) => u,
        None => {
            return ShopAction::Fail(BotError::Unknown(String::from_str("unable to get user id")));
        },
    };
    match InventoryItem::new(&server, &user, &items[i].id) {
        Ok(record) => ShopAction::Buy { item: i, record },
        Err(e) => ShopAction::Fail(BotError::Db(e)),
    }
}

/// What the bot says for an answer, given the balance of the user who
/// asked (after a daily allowance or a gamble) and the names of the
/// gambler and of both sides of a transfer.
pub open spec fn reply_post(
    output: Output,
    balance: i64,
    player_name: Seq<char>,
    from_name: Seq<char>,
    to_name: Seq<char>,
    r: Result<Reply, BotError>,
) -> bool {
    match output {
        Output::Say(s) => r == Ok::<Reply, BotError>(Reply::Say(s)),
        Output::Help => r matches Ok(Reply::Embed(e)) && messages::embed_view(e)
            == messages::help_view(),
        Output::BadDailyResponse { next_epoch } => r matches Ok(Reply::Embed(e))
            && messages::embed_view(e) == messages::bad_daily_view(next_epoch),
        Output::DailyResponse => r matches Ok(Reply::Embed(e)) && messages::embed_view(e)
            == messages::daily_view(balance),
        Output::TransferSuccess { to_balance, from_balance, amount, .. } => r matches Ok(
            Reply::Embed(e),
        ) && messages::embed_view(e) == messages::transfer_view(
            from_name,
            from_balance,
            to_name,
            to_balance,
            amount,
        ),
        Output::Gamble(g) => match messages::gamble_view(player_name, balance, g) {
            Some(v) => r matches Ok(Reply::Embed(e)) && messages::embed_view(e) == v,
            None => r matches Err(BotError::MessageBuild(m)) && m@
                == "waiting state not supported for any gamble actions"@,
        },
        Output::BetTooHigh { amount, player_balance } => r matches Ok(Reply::Embed(e))
            && messages::embed_view(e) == messages::bet_too_high_view(player_balance, amount),
        Output::Shop(items) => r matches Ok(Reply::Embed(e)) && messages::embed_view(e)
            == messages::shop_view(items@),
        Output::Inventory(items) => r matches Ok(Reply::Embed(e)) && messages::embed_view(e)
            == messages::inventory_view(items@),
        Output::CoinBalances(b) => r matches Ok(Reply::Say(m)) && m@ == messages::balances_text(
            b@,
        ),
    }
}

/// What the bot says for an answer. A time to come is shown only within
/// the dates that can be written.
pub fn reply_for(
    output: Output,
    balance: i64,
    player_name: &str,
    from_name: &str,
    to_name: &str,
) -> (r: Result<Reply, BotError>)
    requires
        output matches Output::BadDailyResponse { next_epoch } ==> -messages::SHOWN_TIME_LIMIT
            <= next_epoch <= messages::SHOWN_TIME_LIMIT,
    ensures
        reply_post(output, balance, player_name@, from_name@, to_name@, r),
{
    match output {
        Output::Say(s) => Ok(Reply::Say(s)),
        Output::Help => Ok(Reply::Embed(messages::help_embed())),
        Output::BadDailyResponse { next_epoch } => Ok(
            Reply::Embed(messages::bad_daily_embed(next_epoch)),
        ),
        Output::DailyResponse => Ok(Reply::Embed(messages::daily_embed(balance))),
        Output::TransferSuccess { to_balance, from_balance, amount, .. } => Ok(
            Reply::Embed(
                messages::transfer_embed(from_name, from_balance, to_name, to_balance, amount),
            ),
        ),
        Output::Gamble(g) => match messages::gamble_embed(player_name, balance, &g) {
            Ok(e) => Ok(Reply::Embed(e)),
            Err(e) => Err(e),
        },
        Output::BetTooHigh { amount, player_balance } => Ok(
            Reply::Embed(messages::bet_too_high_embed(player_balance, amount)),
        ),
        Output::Shop(items) => Ok(Reply::Embed(messages::shop_embed(&items))),
        Output::Inventory(items) => Ok(Reply::Embed(messages::inventory_embed(&items))),
        Output::CoinBalances(b) => Ok(Reply::Say(messages::balances_message(&b))),
    }
}

/// The name a user is addressed by: their name when it is known, else
/// their id, else "User".
pub fn fallback_name(name: Option<String>, user_id: Option<u64>) -> (r: String)
    ensures
        match name {
            Some(n) => r == n,
            None => match user_id {
                Some(id) => r@ == crate::text::nat_digits(id as nat),
                None => r@ == "User"@,
            },
        },
{
    match name {
        Some(n) => n,
        None => match user_id {
            Some(id) => string_of(&crate::text::format_u64(id)),
            None => String::from_str("User"),
        },
    }
}

/// The name the shop thanks a buyer by: their nickname on the server
/// when they have one, else their name; "User" when the reaction names
/// no server or the user cannot be looked up (`user_found`).
pub fn buyer_nick(
    server_id: Option<u64>,
    user_found: bool,
    nick: Option<String>,
    user_name: &str,
) -> (r: String)
    ensures
        server_id is None || !user_found ==> r@ == "User"@,
        server_id is Some && user_found ==> match nick {
            Some(n) => r == n,
            None => r@ == user_name@,
        },
{
    if server_id.is_none() || !user_found {
        return String::from_str("User");
    }
    match nick {
        Some(n) => n,
        None => String::from_str(user_name),
    }
}

/// Whether the bot handles a chat message: never its own.
pub fn handles_message_from(author_id: u64, ultron_id: u64) -> (r: bool)
    ensures
        r == (author_id != ultron_id),
{
    author_id != ultron_id
}

} // verus!
