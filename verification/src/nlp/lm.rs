//! Inputs for a language model: model names, how events are written as
//! chat messages, and what the model's reply becomes.
use vstd::prelude::*;

use crate::event_processor::{Event, EventType, EventView};
use crate::nlp::response::{
    all_parts, part_view, parts_safe, MessagePart, MessagePartsIterator,
};
use crate::nlp::LanguageModelError;
use crate::{user_name, Channel, User};

verus! {

/// Models the bot has been run with; the first is the default.
pub const KNOWN_MODELS: [&'static str; 8] = [
    "deepseek-r1:8b",
    "qwen2.5:latest",
    "gemma2:latest",
    "llama3.2:latest",
    "starcoder2:latest",
    "mxbai-embed-large:latest",
    "mistral-nemo:latest",
    "llama3.1:latest",
];

/// The name of a language model.
#[derive(Debug, PartialEq, Eq)]
pub struct ModelName(String);

impl Clone for ModelName {
    fn clone(&self) -> (r: Self)
        ensures
            r == *self,
    {
        ModelName(self.0.clone())
    }
}

impl ModelName {
    pub closed spec fn name(&self) -> Seq<char> {
        self.0@
    }

    /// The model with the given name.
    pub fn from_name(name: &str) -> (r: Self)
        ensures
            r.name() == name@,
    {
        ModelName(String::from_str(name))
    }

    /// The default model, the first of the known ones.
    pub fn default_model() -> (r: Self)
        ensures
            r.name() == "deepseek-r1:8b"@,
    {
        ModelName(String::from_str("deepseek-r1:8b"))
    }

    pub fn as_str(&self) -> (r: &str)
        ensures
            r@ == self.name(),
    {
        self.0.as_str()
    }
}

/// Writes an event as `<user>: <content>`.
#[derive(Debug, Clone, Copy)]
pub struct ChatFormatter;

/// Writes an event as its content alone.
#[derive(Debug, Clone, Copy)]
pub struct PlainFormatter;

/// How events are written as chat messages for a model.
#[derive(Debug, Clone, Copy)]
pub enum MessageFormatter {
    Chat(ChatFormatter),
    Plain(PlainFormatter),
}

/// How `event` is written by a formatter that shows (or not) the user.
pub open spec fn format_event_spec(chat: bool, event: Event) -> Seq<char> {
    let content = crate::text::join(
        event.content.parts_view().map_values(|p: MessagePart| crate::nlp::response::display_part(p)),
        seq!['\n'],
    );
    if chat {
        user_name(event.user) + ": "@ + content
    } else {
        content
    }
}

/// How an event, given as values, is written by a formatter that shows
/// (or not) the user.
pub open spec fn format_event_view(chat: bool, event: EventView) -> Seq<char> {
    let content = crate::text::join(
        event.content.map_values(|p: MessagePart| crate::nlp::response::display_part(p)),
        seq!['\n'],
    );
    if chat {
        user_name(event.user) + ": "@ + content
    } else {
        content
    }
}

impl MessageFormatter {
    pub fn chat() -> (r: Self)
        ensures
            r is Chat,
    {
        MessageFormatter::Chat(ChatFormatter)
    }

    pub fn plain() -> (r: Self)
        ensures
            r is Plain,
    {
        MessageFormatter::Plain(PlainFormatter)
    }

    /// The event written as a chat message.
    pub fn format_event(&self, event: &Event) -> (r: String)
        ensures
            r@ == format_event_spec(self is Chat, *event),
    {
        match self {
            MessageFormatter::Chat(_) => {
                let mut r = event.user.to_string();
                r.append(": ");
                r.append(event.content.to_string().as_str());
                r
            },
            MessageFormatter::Plain(_) => event.content.to_string(),
        }
    }
}

/// A request to a language model.
#[derive(Debug, Clone)]
pub struct LmChatInput {
    pub model_name: ModelName,
    pub messages: Vec<(User, String)>,
    pub channel: Channel,
    pub formatter: MessageFormatter,
}

impl LmChatInput {
    /// The request for answering `events`: each event as a message from
    /// its user, written by `formatter`; the channel is the last event's.
    pub fn from_events(model_name: &ModelName, formatter: MessageFormatter, events: &Vec<Event>) -> (r:
        Result<LmChatInput, LanguageModelError>)
        ensures
            events@.len() == 0 ==> r == Err::<LmChatInput, LanguageModelError>(
                LanguageModelError::EmptyEvent,
            ),
            events@.len() > 0 ==> r is Ok,
            r matches Ok(input) ==> {
                &&& input.model_name.name() == model_name.name()
                &&& input.channel == events@.last().channel
                &&& input.formatter == formatter
                &&& input.messages@.len() == events@.len()
                &&& forall|i: int|
                    0 <= i < events@.len() ==> (#[trigger] input.messages@[i]).0 == events@[i].user
                        && input.messages@[i].1@ == format_event_spec(
                        formatter is Chat,
                        events@[i],
                    )
            },
    {
        let mut messages: Vec<(User, String)> = Vec::new();
        let mut i: usize = 0;
        while i < events.len()
            invariant
                i <= events.len(),
                messages@.len() == i,
                forall|j: int|
                    0 <= j < i ==> (#[trigger] messages@[j]).0 == events@[j].user
                        && messages@[j].1@ == format_event_spec(formatter is Chat, events@[j]),
            decreases events.len() - i,
        {
            let text = formatter.format_event(&events[i]);
            messages.push((events[i].user.clone(), text));
            i = i + 1;
        }
        if events.len() == 0 {
            return Err(LanguageModelError::EmptyEvent);
        }
        let channel = events[events.len() - 1].channel;
        Ok(LmChatInput { model_name: model_name.clone(), messages, channel, formatter })
    }
}

/// The role a user has in a model conversation.
#[derive(Debug, Clone, Copy, PartialEq, Eq, Structural)]
pub enum ChatRole {
    Assistant,
    System,
    User,
}

/// The bot is the assistant, the system user the system; everyone else
/// is a user.
pub fn chat_role(user: &User) -> (r: ChatRole)
    ensures
        r == match *user {
            User::Ultron => ChatRole::Assistant,
            User::System => ChatRole::System,
            _ => ChatRole::User,
        },
{
    match user {
        User::Ultron => ChatRole::Assistant,
        User::System => ChatRole::System,
        _ => ChatRole::User,
    }
}

/// The delimiters a model marks its thinking with.
pub const THINK_START: &'static str = "<think>";

pub const THINK_END: &'static str = "</think>";

/// Whether a model's reply can be read into parts without panicking.
pub fn reply_is_readable(content: &str) -> (r: bool)
    ensures
        r == parts_safe(content@, THINK_START@, THINK_END@),
{
    let it = MessagePartsIterator::new(content, THINK_START, THINK_END);
    proof {
        assert(it.remaining() =~= content@);
    }
    it.can_collect()
}

/// The event a model's reply becomes: from the bot when the reply has
/// the assistant role (else from an anonymous user), its content split
/// into text and thinking parts, for the language model, in `channel`.
pub fn reply_event(assistant: bool, content: &str, channel: Channel) -> (r: Event)
    requires
        parts_safe(content@, THINK_START@, THINK_END@),
    ensures
        r.user == (if assistant {
            User::Ultron
        } else {
            User::Anonymous
        }),
        r.content.parts_view().map_values(|p: MessagePart| part_view(p)) == all_parts(
            content@,
            THINK_START@,
            THINK_END@,
        ),
        r.event_type == EventType::LanguageModel,
        r.channel == channel,
{
    let user = if assistant {
        User::Ultron
    } else {
        User::Anonymous
    };
    let it = MessagePartsIterator::new(content, THINK_START, THINK_END);
    proof {
        assert(it.remaining() =~= content@);
    }
    let parts = it.collect_response();
    Event::create(user, parts, EventType::LanguageModel, channel)
}

/// Whether `url` is a URL, as the `url` crate reads them.
pub uninterp spec fn url_parses(url: Seq<char>) -> bool;

/// `reqwest::Url::parse` (the `url` crate's parser): whether `url` is a
/// URL. The answer depends on the text alone.
#[verifier::external_body]
fn parse_url(url: &str) -> (r: bool)
    ensures
        r == url_parses(url@),
{
    reqwest::Url::parse(url).is_ok()
}

/// A language model served by Ollama: where, which model, and how events
/// are written for it.
#[derive(Debug, Clone)]
pub struct LanguageModel {
    /// the address of the Ollama service
    pub endpoint: String,
    pub model_name: ModelName,
    pub default_formatter: MessageFormatter,
}

impl LanguageModel {
    /// The model `model_name` behind the Ollama service at `url`, writing
    /// events plainly; the address must be a URL.
    pub fn ollama(url: &str, model_name: ModelName) -> (r: Result<Self, LanguageModelError>)
        ensures
            !url_parses(url@) ==> (r matches Err(LanguageModelError::UrlParse { url: u }) && u@
                == url@),
            url_parses(url@) ==> (r matches Ok(m) && m.endpoint@ == url@ && m.model_name
                == model_name && m.default_formatter is Plain),
    {
        if !parse_url(url) {
            return Err(LanguageModelError::UrlParse { url: String::from_str(url) });
        }
        Ok(
            LanguageModel {
                endpoint: String::from_str(url),
                model_name,
                default_formatter: MessageFormatter::plain(),
            },
        )
    }

    /// The request that asks the model to answer `events`.
    pub fn chat_input(&self, events: &Vec<Event>) -> (r: Result<LmChatInput, LanguageModelError>)
        ensures
            events@.len() == 0 ==> r == Err::<LmChatInput, LanguageModelError>(
                LanguageModelError::EmptyEvent,
            ),
            events@.len() > 0 ==> r is Ok,
            r matches Ok(input) ==> {
                &&& input.model_name.name() == self.model_name.name()
                &&& input.channel == events@.last().channel
                &&& input.formatter == self.default_formatter
                &&& input.messages@.len() == events@.len()
                &&& forall|i: int|
                    0 <= i < events@.len() ==> (#[trigger] input.messages@[i]).0 == events@[i].user
                        && input.messages@[i].1@ == format_event_spec(
                        self.default_formatter is Chat,
                        events@[i],
                    )
            },
    {
        LmChatInput::from_events(&self.model_name, self.default_formatter, events)
    }
}

} // verus!
