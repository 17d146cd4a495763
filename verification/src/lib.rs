//! Ultron: a chat bot that answers commands, rolls dice, keeps a coin
//! economy and relays language model answers.
//!
//! The crate holds the bot's logic; the program around it (Discord,
//! HTTP, files, the language model service) drives it.
use vstd::prelude::*;

use crate::nlp::response::LmResponse;

pub mod admin;
pub mod chat;
pub mod chatbot;
pub mod cli;
pub mod coin_bot;
pub mod coins;
pub mod command;
pub mod commands;
pub mod copypasta;
pub mod db;
pub mod dice;
pub mod discord;
pub mod error;
pub mod event_processor;
pub mod gambling;
pub mod grafana;
pub mod http_server;
pub mod items;
pub mod mcp;
pub mod nlp;
pub mod text;

verus! {

/// The prefix that marks a chat message as a command.
pub const DEFAULT_COMMAND_PREFIX: &'static str = "!ultron";

/// The chat channels the bot knows.
#[derive(Debug, Clone, Copy, PartialEq, Eq, Hash, Structural)]
pub enum Channel {
    Debug,
    Psa,
    Dnd,
    FunZoneBots,
    FunZoneStream,
}

/// What an event consumer answers.
#[derive(Debug, Clone, PartialEq)]
pub enum Response {
    /// a plain chat response, e.g. from a command
    PlainChat(String),
    /// a response from the bot, e.g. from a language model, that may
    /// contain thinking sections
    Bot(LmResponse),
    /// the consumer ignored the event
    Ignored,
}

/// Who wrote a message.
#[derive(Debug, PartialEq)]
pub enum User {
    /// the assistant role of a language model
    Ultron,
    /// the system role of a language model
    System,
    /// a user that is not identified
    Anonymous,
    /// a user with a name
    Normal(String),
}

/// `(variant, name)` of a user: 0 Ultron, 1 System, 2 Anonymous, 3 Normal.
pub open spec fn user_view(u: User) -> (int, Seq<char>) {
    match u {
        User::Ultron => (0, seq![]),
        User::System => (1, seq![]),
        User::Anonymous => (2, seq![]),
        User::Normal(n) => (3, n@),
    }
}

/// The name a user is shown with.
pub open spec fn user_name(u: User) -> Seq<char> {
    match u {
        User::Ultron => "ultron"@,
        User::System => "system"@,
        User::Anonymous => "anonymous"@,
        User::Normal(n) => n@,
    }
}

/// `u` is the user called `name`: the bot itself for `"ultron"` and
/// `"Ultron"`, otherwise a user with that name.
pub open spec fn is_named(u: User, name: Seq<char>) -> bool {
    if name == "ultron"@ || name == "Ultron"@ {
        u == User::Ultron
    } else {
        user_view(u) == (3int, name)
    }
}

impl Clone for User {
    fn clone(&self) -> (r: Self)
        ensures
            r == *self,
    {
        match self {
            User::Ultron => User::Ultron,
            User::System => User::System,
            User::Anonymous => User::Anonymous,
            User::Normal(n) => User::Normal(n.clone()),
        }
    }
}

impl User {
    /// The user with the given name: `"ultron"` and `"Ultron"` name the
    /// bot itself.
    pub fn from_name(name: &str) -> (u: User)
        ensures
            is_named(u, name@),
    {
        let n = crate::text::chars_of(name);
        if crate::text::chars_eq_str(&n, "ultron") || crate::text::chars_eq_str(&n, "Ultron") {
            User::Ultron
        } else {
            User::Normal(String::from_str(name))
        }
    }

    /// The name the user is shown with (`Display` for the user).
    pub fn to_string(&self) -> (r: String)
        ensures
            r@ == user_name(*self),
    {
        match self {
            User::Ultron => String::from_str("ultron"),
            User::System => String::from_str("system"),
            User::Anonymous => String::from_str("anonymous"),
            User::Normal(n) => n.clone(),
        }
    }
}

/// Showing a user gives back the name it was made from; the bot, made
/// from "ultron" or "Ultron", is shown as "ultron".
pub proof fn lemma_user_name_round_trip(u: User, name: Seq<char>)
    requires
        is_named(u, name),
    ensures
        name != "Ultron"@ ==> user_name(u) == name,
        name == "Ultron"@ ==> user_name(u) == "ultron"@,
{
}

/// A user read back from the name it is shown with is the same user, for
/// the bot and for every named user whose name is not one of the bot's;
/// an anonymous user comes back as a user named "anonymous".
pub proof fn lemma_user_from_shown_name(u: User, v: User)
    requires
        u is Ultron || u is Anonymous || (u matches User::Normal(n) && n@ != "ultron"@ && n@
            != "Ultron"@),
        is_named(v, user_name(u)),
    ensures
        !(u is Anonymous) ==> user_view(v) == user_view(u),
        u is Anonymous ==> user_view(v) == (3int, "anonymous"@),
{
    if u is Anonymous {
        reveal_strlit("anonymous");
        reveal_strlit("ultron");
        reveal_strlit("Ultron");
        assert("anonymous"@ != "ultron"@) by {
            assert("anonymous"@[0] != "ultron"@[0]);
        }
        assert("anonymous"@ != "Ultron"@) by {
            assert("anonymous"@[0] != "Ultron"@[0]);
        }
    }
}

} // verus!
