//! Input from a chat interface such as Discord.
use vstd::prelude::*;

use crate::command::{CommandParseError, parse_error_view, CommandParseErrorView};
use crate::text::{chars_of, starts_with, string_of, subvec, trim, trim_chars};
use crate::{Channel, User, DEFAULT_COMMAND_PREFIX};

verus! {

/// A message as it came from a chat interface.
#[derive(Debug, Clone, PartialEq)]
pub struct ChatInput {
    pub user: User,
    pub content: String,
    pub channel: Channel,
}

/// The content after the command prefix, trimmed; the whole content as
/// the error when the prefix is missing.
pub open spec fn strip_prefix_spec(content: Seq<char>) -> Result<Seq<char>, CommandParseErrorView> {
    let p = DEFAULT_COMMAND_PREFIX@;
    if p.len() <= content.len() && content.take(p.len() as int) == p {
        Ok(trim(content.skip(p.len() as int)))
    } else {
        Err(CommandParseErrorView::MissingPrefix(content))
    }
}

impl ChatInput {
    /// Input from an unidentified user.
    pub fn anonymous(content: &str, channel: Channel) -> (r: Self)
        ensures
            r.user == User::Anonymous,
            r.content@ == content@,
            r.channel == channel,
    {
        ChatInput { user: User::Anonymous, content: String::from_str(content), channel }
    }

    /// The content without the command prefix, trimmed.
    pub fn strip_prefix(&self) -> (r: Result<String, CommandParseError>)
        ensures
            match r {
                Ok(s) => strip_prefix_spec(self.content@) == Ok::<
                    Seq<char>,
                    CommandParseErrorView,
                >(s@),
                Err(e) => strip_prefix_spec(self.content@) == Err::<
                    Seq<char>,
                    CommandParseErrorView,
                >(parse_error_view(e)),
            },
    {
        let content = chars_of(self.content.as_str());
        let prefix = chars_of(DEFAULT_COMMAND_PREFIX);
        if starts_with(&content, &prefix) {
            let rest = subvec(&content, prefix.len(), content.len());
            proof {
                assert(rest@ =~= content@.skip(prefix@.len() as int));
            }
            Ok(string_of(&trim_chars(&rest)))
        } else {
            Err(CommandParseError::MissingPrefix(self.content.clone()))
        }
    }
}

} // verus!
