//! Errors of reading the bot's files, and of the coin bot.
use vstd::prelude::*;

use crate::db::error::DbError;
use crate::gambling::GambleError;
use crate::text::{debug_str, str_debug};

verus! {

/// A file the bot needed could not be read or parsed.
#[derive(Debug, Clone, PartialEq)]
pub enum FileError {
    /// the file could not be read; `source` describes the failure
    FileRead { source: String, path: String },
    /// the file is not valid TOML; `source` describes the failure
    TomlFileParse { source: String, path: String },
}

/// The message of a file error: the path as written in Rust's debug form,
/// then the failure.
pub open spec fn file_error_text(e: FileError) -> Seq<char> {
    match e {
        FileError::FileRead { source, path } => "failed to read file "@ + str_debug(path@) + ": "@
            + source@,
        FileError::TomlFileParse { source, path } => "failed to parse TOML file "@ + str_debug(
            path@,
        ) + ": "@ + source@,
    }
}

impl FileError {
    /// The error's message (`Display` for the error).
    pub fn to_string(&self) -> (r: String)
        ensures
            r@ == file_error_text(*self),
    {
        match self {
            FileError::FileRead { source, path } => {
                let mut r = String::from_str("failed to read file ");
                r.append(debug_str(path.as_str()).as_str());
                r.append(": ");
                r.append(source.as_str());
                r
            },
            FileError::TomlFileParse { source, path } => {
                let mut r = String::from_str("failed to parse TOML file ");
                r.append(debug_str(path.as_str()).as_str());
                r.append(": ");
                r.append(source.as_str());
                r
            },
        }
    }
}

/// Why the coin bot could not handle a message or a reaction.
#[derive(Debug, Clone, PartialEq)]
pub enum BotError {
    /// the chat service failed; its message
    Discord(String),
    /// GitHub failed; its message
    Github(String),
    /// an API key is not configured; the lookup's message
    BadApiKey(String),
    UnknownCommand(String),
    Unexpected(String),
    /// a command's arguments could not be read
    CommandParse(String),
    Unknown(String),
    Db(DbError),
    Gamble(GambleError),
    /// a chat message could not be built
    MessageBuild(String),
    /// the bank sent no receipt
    TransactionReceipt,
}

impl From<DbError> for BotError {
    fn from(e: DbError) -> (r: Self) {
        BotError::Db(e)
    }
}

impl vstd::std_specs::convert::FromSpecImpl<DbError> for BotError {
    open spec fn obeys_from_spec() -> bool {
        true
    }

    open spec fn from_spec(e: DbError) -> Self {
        BotError::Db(e)
    }
}

impl From<GambleError> for BotError {
    fn from(e: GambleError) -> (r: Self) {
        BotError::Gamble(e)
    }
}

impl vstd::std_specs::convert::FromSpecImpl<GambleError> for BotError {
    open spec fn obeys_from_spec() -> bool {
        true
    }

    open spec fn from_spec(e: GambleError) -> Self {
        BotError::Gamble(e)
    }
}

} // verus!
