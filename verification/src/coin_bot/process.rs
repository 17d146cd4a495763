//! Running a coin bot command: the decisions between the bank's answers.
//!
//! A command starts with `start`; each step either ends with the answer
//! or asks the bank something, and the bank's answer goes to `resume`
//! together with the state the step left.
use vstd::prelude::*;

use crate::coin_bot::{
    check_bet, daily_output, gamble_settlement, stake_spec, transfer_output, CoinTransfer, Output,
};
use crate::commands::Command;
use crate::db::error::DbError;
use crate::db::model::{Item, TransferResult};
use crate::error::BotError;
use crate::gambling::{dice_sides, dice_state, Gamble, GambleOutput, State};

verus! {

/// What a command asks of the bank.
#[derive(Debug, Clone, Copy, PartialEq, Eq, Structural)]
pub enum BankRequest {
    /// the balance of a user
    UserBalance { server_id: u64, user_id: u64 },
    /// move coins between users
    Transfer { server_id: u64, from_user: u64, to_user: u64, amount: i64 },
    Tip { server_id: u64, from_user: u64, to_user: u64 },
    Untip { server_id: u64, from_user: u64, to_user: u64 },
    /// pay the daily allowance unless the user had it already
    AddDaily { server_id: u64, user_id: u64 },
    /// the items for sale
    ShopItems { server_id: u64, channel_id: u64, user_id: u64 },
    /// a user's items
    Inventory { server_id: u64, user_id: u64 },
    /// the balances of a channel's users, by name
    AllBalances { server_id: u64, channel_id: u64 },
}

/// The bank's answer to a request.
#[derive(Debug)]
pub enum BankAnswer {
    Balance(Result<i64, BotError>),
    Transfer(Result<TransferResult, DbError>),
    /// a tip, untip or gamble transfer
    Done(Result<(), BotError>),
    /// whether the allowance was paid
    Daily(Result<bool, BotError>),
    Items(Result<Vec<Item>, BotError>),
    Balances(Result<Vec<(String, i64)>, BotError>),
}

/// Where a command stands while the bank answers.
#[derive(Debug, Clone, PartialEq)]
pub enum CommandState {
    /// the gamble waits for the player's balance
    AwaitBalance(Gamble),
    /// the played gamble waits for its coins to move
    AwaitSettlement(GambleOutput),
    /// the transfer of this amount waits for the bank
    AwaitTransfer(i64),
    /// a tip or untip waits for the bank
    AwaitTip,
    /// the daily allowance waits for the bank
    AwaitDaily,
    /// the shop (`true`) or an inventory waits for its items
    AwaitItems(bool),
    AwaitBalances,
}

/// A step of a command: done with its answer, or asking the bank.
#[derive(Debug)]
pub enum Step {
    Done(Result<Option<Output>, BotError>),
    Ask(BankRequest, CommandState),
}

/// What the first step of a command asks of the bank, with the state it
/// leaves; `None` for the commands that need no bank.
pub open spec fn first_request(
    server_id: u64,
    channel_id: u64,
    user_id: u64,
    command: Command,
) -> Option<(BankRequest, CommandState)> {
    match command {
        Command::Gamble(g) => Some(
            (
                BankRequest::UserBalance { server_id, user_id: g.player_id },
                CommandState::AwaitBalance(g),
            ),
        ),
        Command::Shop => Some(
            (BankRequest::ShopItems { server_id, channel_id, user_id }, CommandState::AwaitItems(true)),
        ),
        Command::Inventory { server_id: s, user_id: u } => Some(
            (BankRequest::Inventory { server_id: s, user_id: u }, CommandState::AwaitItems(false)),
        ),
        Command::Daily { server_id: s, user_id: u } => Some(
            (BankRequest::AddDaily { server_id: s, user_id: u }, CommandState::AwaitDaily),
        ),
        Command::Transfer { from_user, to_user, amount } => Some(
            (
                BankRequest::Transfer { server_id, from_user, to_user, amount },
                CommandState::AwaitTransfer(amount),
            ),
        ),
        Command::Tip { server_id: s, from_user, to_user } => Some(
            (BankRequest::Tip { server_id: s, from_user, to_user }, CommandState::AwaitTip),
        ),
        Command::Untip { server_id: s, from_user, to_user } => Some(
            (BankRequest::Untip { server_id: s, from_user, to_user }, CommandState::AwaitTip),
        ),
        Command::GetAllBalances { server_id: s, channel_id: c } => Some(
            (BankRequest::AllBalances { server_id: s, channel_id: c }, CommandState::AwaitBalances),
        ),
        _ => None,
    }
}

/// The first step of a command sent in a channel of a server by a user.
/// Help, ping, about and copy pastas are answered at once, a message that
/// is no command gets no answer, and every other command asks the bank.
pub fn start(server_id: u64, channel_id: u64, user_id: u64, command: Command) -> (r: Step)
    ensures
        command matches Command::Tip { server_id: s, from_user: f, to_user: t } ==> r matches Step::Ask(
            BankRequest::Tip { server_id: s2, from_user: f2, to_user: t2 },
            CommandState::AwaitTip,
        ) && s2 == s && f2 == f && t2 == t,
        command matches Command::Untip { server_id: s, from_user: f, to_user: t } ==> r matches Step::Ask(
            BankRequest::Untip { server_id: s2, from_user: f2, to_user: t2 },
            CommandState::AwaitTip,
        ) && s2 == s && f2 == f && t2 == t,
        match first_request(server_id, channel_id, user_id, command) {
            Some((req, st)) => r matches Step::Ask(q, s) && q == req && s == st,
            None => match command {
                Command::Help => r matches Step::Done(Ok(Some(Output::Help))),
                Command::Ping => r matches Step::Done(Ok(Some(Output::Say(m)))) && m@
                    == crate::commands::PING@,
                Command::About => r matches Step::Done(Ok(Some(Output::Say(m)))) && m@
                    == crate::commands::ABOUT@,
                Command::CopyPasta { text } => r matches Step::Done(Ok(Some(Output::Say(m)))) && m
                    == text,
                _ => r matches Step::Done(Ok(None)),
            },
        },
{
    match command {
        Command::Help => Step::Done(Ok(Some(Output::Help))),
        Command::Ping => Step::Done(Ok(Some(Output::Say(String::from_str(crate::commands::PING))))),
        Command::About => Step::Done(
            Ok(Some(Output::Say(String::from_str(crate::commands::ABOUT)))),
        ),
        Command::CopyPasta { text } => Step::Done(Ok(Some(Output::Say(text)))),
        Command::NotACommand => Step::Done(Ok(None)),
        Command::Gamble(g) => Step::Ask(
            BankRequest::UserBalance { server_id, user_id: g.player_id },
            CommandState::AwaitBalance(g),
        ),
        Command::Shop => Step::Ask(
            BankRequest::ShopItems { server_id, channel_id, user_id },
            CommandState::AwaitItems(true),
        ),
        Command::Inventory { server_id: s, user_id: u } => Step::Ask(
            BankRequest::Inventory { server_id: s, user_id: u },
            CommandState::AwaitItems(false),
        ),
        Command::Daily { server_id: s, user_id: u } => Step::Ask(
            BankRequest::AddDaily { server_id: s, user_id: u },
            CommandState::AwaitDaily,
        ),
        Command::Transfer { from_user, to_user, amount } => Step::Ask(
            BankRequest::Transfer { server_id, from_user, to_user, amount },
            CommandState::AwaitTransfer(amount),
        ),
        Command::Tip { server_id: s, from_user, to_user } => Step::Ask(
            BankRequest::Tip { server_id: s, from_user, to_user },
            CommandState::AwaitTip,
        ),
        Command::Untip { server_id: s, from_user, to_user } => Step::Ask(
            BankRequest::Untip { server_id: s, from_user, to_user },
            CommandState::AwaitTip,
        ),
        Command::GetAllBalances { server_id: s, channel_id: c } => Step::Ask(
            BankRequest::AllBalances { server_id: s, channel_id: c },
            CommandState::AwaitBalances,
        ),
    }
}

/// The step after the bank answered. `ultron_id` is the house's account
/// in gambles. An answer that does not fit the state is an error.
pub fn resume(ultron_id: u64, server_id: u64, state: CommandState, answer: BankAnswer) -> (r: Step)
    requires
        state matches CommandState::AwaitBalance(g) ==> (g.state == State::Waiting ==> dice_sides(
            g.game,
        ) > 0),
    ensures
        match (state, answer) {
            (CommandState::AwaitBalance(g), BankAnswer::Balance(Ok(balance))) => {
                if balance < stake_spec(g.prize, balance) {
                    r matches Step::Done(Ok(Some(Output::BetTooHigh { player_balance, amount })))
                        && player_balance == balance && amount == stake_spec(g.prize, balance)
                } else if g.state != State::Waiting {
                    r matches Step::Done(Err(BotError::Gamble(_)))
                } else {
                    match r {
                        Step::Done(Ok(Some(Output::Gamble(out)))) => out matches GambleOutput::DiceRoll {
                            player_id,
                            prize,
                            house_roll,
                            player_roll,
                            state: s,
                        } && player_id == g.player_id && prize == g.prize && s == State::Draw
                            && house_roll == player_roll && house_roll < dice_sides(g.game),
                        Step::Ask(req, st) => st matches CommandState::AwaitSettlement(out)
                            && out matches GambleOutput::DiceRoll {
                            player_id,
                            prize,
                            house_roll,
                            player_roll,
                            state: s,
                        } && player_id == g.player_id && prize == g.prize && house_roll < dice_sides(
                            g.game,
                        ) && player_roll < dice_sides(g.game) && s == dice_state(
                            player_roll,
                            house_roll,
                        ) && (s == State::Win || s == State::Lose) && req == (
                        BankRequest::Transfer {
                            server_id,
                            from_user: if s == State::Win {
                                ultron_id
                            } else {
                                g.player_id
                            },
                            to_user: if s == State::Win {
                                g.player_id
                            } else {
                                ultron_id
                            },
                            amount: stake_spec(g.prize, balance),
                        }),
                        _ => false,
                    }
                }
            },
            (CommandState::AwaitBalance(_), BankAnswer::Balance(Err(e))) => r matches Step::Done(
                Err(e2),
            ) && e2 == e,
            (CommandState::AwaitSettlement(out), BankAnswer::Done(Ok(()))) => r matches Step::Done(
                Ok(Some(Output::Gamble(o))),
            ) && o == out,
            (CommandState::AwaitSettlement(_), BankAnswer::Done(Err(e))) => r matches Step::Done(
                Err(e2),
            ) && e2 == e,
            (CommandState::AwaitTransfer(amount), BankAnswer::Transfer(t)) => r matches Step::Done(
                d,
            ) && crate::coin_bot::transfer_output_post(t, amount, d),
            (CommandState::AwaitTip, BankAnswer::Done(Ok(()))) => r matches Step::Done(Ok(None)),
            (CommandState::AwaitTip, BankAnswer::Done(Err(e))) => r matches Step::Done(Err(e2))
                && e2 == e,
            (CommandState::AwaitDaily, BankAnswer::Daily(Ok(true))) => r matches Step::Done(
                Ok(Some(Output::DailyResponse)),
            ),
            (CommandState::AwaitDaily, BankAnswer::Daily(Ok(false))) => r matches Step::Done(
                Ok(Some(Output::BadDailyResponse { next_epoch })),
            ) && exists|now: int|
                -crate::coins::daily::LATEST_TIME <= now <= crate::coins::daily::LATEST_TIME
                    && next_epoch
                    == crate::coins::daily::daily_epoch_spec(now),
            (CommandState::AwaitDaily, BankAnswer::Daily(Err(e))) => r matches Step::Done(Err(e2))
                && e2 == e,
            (CommandState::AwaitItems(shop), BankAnswer::Items(Ok(items))) => if shop {
                r matches Step::Done(Ok(Some(Output::Shop(v)))) && v == items
            } else {
                r matches Step::Done(Ok(Some(Output::Inventory(v)))) && v == items
            },
            (CommandState::AwaitItems(_), BankAnswer::Items(Err(e))) => r matches Step::Done(
                Err(e2),
            ) && e2 == e,
            (CommandState::AwaitBalances, BankAnswer::Balances(Ok(b))) => r matches Step::Done(
                Ok(Some(Output::CoinBalances(v))),
            ) && v == b,
            (CommandState::AwaitBalances, BankAnswer::Balances(Err(e))) => r matches Step::Done(
                Err(e2),
            ) && e2 == e,
            _ => r matches Step::Done(Err(BotError::Unexpected(m))) && m@
                == "the bank's answer does not fit the command"@,
        },
{
    match (state, answer) {
        (CommandState::AwaitBalance(gamble), BankAnswer::Balance(Ok(player_balance))) => {
            match check_bet(gamble.prize, player_balance) {
                Some(too_high) => {
                    return Step::Done(Ok(Some(too_high)));
                },
                None => {},
            }
            let output = match gamble.play() {
                Ok(o) => o,
                Err(e) => {
                    return Step::Done(Err(BotError::Gamble(e)));
                },
            };
            match gamble_settlement(ultron_id, player_balance, &output) {
                Ok(Some(CoinTransfer { from_user, to_user, amount })) => Step::Ask(
                    BankRequest::Transfer { server_id, from_user, to_user, amount },
                    CommandState::AwaitSettlement(output),
                ),
                Ok(None) => Step::Done(Ok(Some(Output::Gamble(output)))),
                Err(e) => Step::Done(Err(e)),
            }
        },
        (CommandState::AwaitBalance(_), BankAnswer::Balance(Err(e))) => Step::Done(Err(e)),
        (CommandState::AwaitSettlement(output), BankAnswer::Done(Ok(()))) => Step::Done(
            Ok(Some(Output::Gamble(output))),
        ),
        (CommandState::AwaitSettlement(_), BankAnswer::Done(Err(e))) => Step::Done(Err(e)),
        (CommandState::AwaitTransfer(amount), BankAnswer::Transfer(t)) => Step::Done(
            transfer_output(t, amount),
        ),
        (CommandState::AwaitTip, BankAnswer::Done(Ok(()))) => Step::Done(Ok(None)),
        (CommandState::AwaitTip, BankAnswer::Done(Err(e))) => Step::Done(Err(e)),
        (CommandState::AwaitDaily, BankAnswer::Daily(Ok(granted))) => {
            if granted {
                Step::Done(Ok(Some(daily_output(true, 0))))
            } else {
                let next_epoch = crate::coins::daily::daily_epoch();
                Step::Done(Ok(Some(daily_output(false, next_epoch))))
            }
        },
        (CommandState::AwaitDaily, BankAnswer::Daily(Err(e))) => Step::Done(Err(e)),
        (CommandState::AwaitItems(shop), BankAnswer::Items(Ok(items))) => {
            if shop {
                Step::Done(Ok(Some(Output::Shop(items))))
            } else {
                Step::Done(Ok(Some(Output::Inventory(items))))
            }
        },
        (CommandState::AwaitItems(_), BankAnswer::Items(Err(e))) => Step::Done(Err(e)),
        (CommandState::AwaitBalances, BankAnswer::Balances(Ok(balances))) => Step::Done(
            Ok(Some(Output::CoinBalances(balances))),
        ),
        (CommandState::AwaitBalances, BankAnswer::Balances(Err(e))) => Step::Done(Err(e)),
        _ => Step::Done(
            Err(BotError::Unexpected(String::from_str("the bank's answer does not fit the command"))),
        ),
    }
}

/// The bank is asked what the command says, with the command's own
/// server, users and amount: a tip asks for a tip and an untip for an
/// untip (never the other way round), a transfer for that transfer, a
/// daily request for that user's allowance, and a gamble first for the
/// player's balance.
pub proof fn lemma_bank_request_mirrors_command(
    server_id: u64,
    channel_id: u64,
    user_id: u64,
    command: Command,
)
    ensures
        command matches Command::Tip { server_id: s, from_user: f, to_user: t } ==> first_request(
            server_id,
            channel_id,
            user_id,
            command,
        ) == Some((BankRequest::Tip { server_id: s, from_user: f, to_user: t }, CommandState::AwaitTip)),
        command matches Command::Untip { server_id: s, from_user: f, to_user: t } ==> first_request(
            server_id,
            channel_id,
            user_id,
            command,
        ) == Some(
            (BankRequest::Untip { server_id: s, from_user: f, to_user: t }, CommandState::AwaitTip),
        ),
        command is Untip ==> !(first_request(server_id, channel_id, user_id, command) matches Some(
            (BankRequest::Tip { .. }, _),
        )),
        command is Tip ==> !(first_request(server_id, channel_id, user_id, command) matches Some(
            (BankRequest::Untip { .. }, _),
        )),
        command matches Command::Transfer { from_user: f, to_user: t, amount: a } ==> first_request(
            server_id,
            channel_id,
            user_id,
            command,
        ) == Some(
            (
                BankRequest::Transfer { server_id, from_user: f, to_user: t, amount: a },
                CommandState::AwaitTransfer(a),
            ),
        ),
        command matches Command::Daily { server_id: s, user_id: u } ==> first_request(
            server_id,
            channel_id,
            user_id,
            command,
        ) == Some((BankRequest::AddDaily { server_id: s, user_id: u }, CommandState::AwaitDaily)),
        command matches Command::Gamble(g) ==> first_request(
            server_id,
            channel_id,
            user_id,
            command,
        ) == Some(
            (
                BankRequest::UserBalance { server_id, user_id: g.player_id },
                CommandState::AwaitBalance(g),
            ),
        ),
{
}

} // verus!
