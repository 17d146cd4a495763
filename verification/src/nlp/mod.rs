//! Language model messages, chat agents and the inputs handed to a
//! language model.
use vstd::prelude::*;

use crate::error::FileError;
use crate::event_processor::{copy_events, event_views, Event, EventType, EventView};
use crate::nlp::lm::{format_event_view, url_parses, LanguageModel, LmChatInput, ModelName};
use crate::{Channel, Response, User};

pub mod lm;
pub mod response;

verus! {

/// Why a language model call failed.
#[derive(Debug, Clone, PartialEq)]
pub enum LanguageModelError {
    /// the model service failed; the service's message
    Ollama(String),
    /// the tool server failed; the client's message
    McpClient(String),
    /// there was no event to answer
    EmptyEvent,
    /// the model service address is not a URL
    UrlParse { url: String },
}

/// The message of a language model error.
pub open spec fn lm_error_text(e: LanguageModelError) -> Seq<char> {
    match e {
        LanguageModelError::Ollama(m) => "Ollama error: "@ + m@,
        LanguageModelError::McpClient(m) => "MCP error: "@ + m@,
        LanguageModelError::EmptyEvent => "empty event provided for chat"@,
        LanguageModelError::UrlParse { url } => "could not parse URL: "@ + url@,
    }
}

impl LanguageModelError {
    /// The error's message (`Display` for the error).
    pub fn to_string(&self) -> (r: String)
        ensures
            r@ == lm_error_text(*self),
    {
        match self {
            LanguageModelError::Ollama(m) => {
                let mut r = String::from_str("Ollama error: ");
                r.append(m.as_str());
                r
            },
            LanguageModelError::McpClient(m) => {
                let mut r = String::from_str("MCP error: ");
                r.append(m.as_str());
                r
            },
            LanguageModelError::EmptyEvent => String::from_str("empty event provided for chat"),
            LanguageModelError::UrlParse { url } => {
                let mut r = String::from_str("could not parse URL: ");
                r.append(url.as_str());
                r
            },
        }
    }
}

/// Why a chat agent failed.
#[derive(Debug, Clone, PartialEq)]
pub enum AgentError {
    /// the system prompt could not be loaded
    SystemPromptLoad(FileError),
    LanguageModel(LanguageModelError),
    /// the tool server failed; the client's message
    McpClient(String),
    NoEvents,
}

/// The message of a chat agent error.
pub open spec fn agent_error_text(e: AgentError) -> Seq<char> {
    match e {
        AgentError::SystemPromptLoad(_) => "unable to load system prompt"@,
        AgentError::LanguageModel(l) => "language model error: "@ + lm_error_text(l),
        AgentError::McpClient(m) => "MCP client error: "@ + m@,
        AgentError::NoEvents => "no events provided"@,
    }
}

impl AgentError {
    /// The error's message (`Display` for the error).
    pub fn to_string(&self) -> (r: String)
        ensures
            r@ == agent_error_text(*self),
    {
        match self {
            AgentError::SystemPromptLoad(_) => String::from_str("unable to load system prompt"),
            AgentError::LanguageModel(e) => {
                let mut r = String::from_str("language model error: ");
                r.append(e.to_string().as_str());
                r
            },
            AgentError::McpClient(m) => {
                let mut r = String::from_str("MCP client error: ");
                r.append(m.as_str());
                r
            },
            AgentError::NoEvents => String::from_str("no events provided"),
        }
    }
}

/// A chat agent that answers an event with the same event, as the bot.
#[derive(Debug, Clone, Copy, Default)]
pub struct EchoAgent;

impl EchoAgent {
    /// The event, said by the bot.
    pub fn chat(&self, event: &Event) -> (r: Result<Event, AgentError>)
        ensures
            r matches Ok(e) && e.user == User::Ultron && e.content.parts_view()
                == event.content.parts_view() && e.event_type
                == event.event_type && e.channel == event.channel,
    {
        let mut e = event.clone();
        e.user = User::Ultron;
        Ok(e)
    }
}

/// Whether a chat agent takes up an event: only language model events.
pub fn agent_should_consume_event(event: &Event) -> (r: bool)
    ensures
        r == (event.event_type == EventType::LanguageModel),
{
    match event.event_type {
        EventType::LanguageModel => true,
        _ => false,
    }
}

/// What a chat agent's answer becomes: the answer's content, from the
/// bot.
pub fn agent_response(next_event: &Event) -> (r: Response)
    ensures
        r matches Response::Bot(c) && c.parts_view() == next_event.content.parts_view(),
{
    Response::Bot(next_event.content.clone())
}

/// Settings of a language model chat agent.
#[derive(Debug, Clone)]
pub struct ChatAgentConfig {
    pub llm_uri: String,
    pub llm_model: ModelName,
    /// the file holding the system prompt
    pub system_prompt: String,
}

/// The conversation a chat agent has seen, oldest first.
#[derive(Debug, Clone)]
pub struct ChatHistory {
    events: Vec<Event>,
}

impl ChatHistory {
    pub closed spec fn events_view(&self) -> Seq<EventView> {
        event_views(self.events@)
    }

    /// A history holding the given events.
    pub fn new(initial_history: Vec<Event>) -> (r: Self)
        ensures
            r.events_view() == event_views(initial_history@),
    {
        ChatHistory { events: initial_history }
    }

    /// Adds an event at the end.
    pub fn append(&mut self, event: Event)
        ensures
            final(self).events_view() == old(self).events_view().push(event@),
    {
        self.events.push(event);
        proof {
            assert(event_views(self.events@) =~= event_views(old(self).events@).push(event@));
        }
    }

    /// A snapshot of the history.
    pub fn read(&self) -> (r: Vec<Event>)
        ensures
            event_views(r@) == self.events_view(),
    {
        copy_events(&self.events)
    }
}

/// The first event of an agent's history: the system prompt, from the
/// system user, for the language model.
pub fn system_prompt_event(system_prompt: &str) -> (r: Event)
    ensures
        r.user == User::System,
        r.event_type == EventType::LanguageModel,
        r.channel == Channel::Debug,
        r.content.parts_view().len() == 1,
        response::part_view(r.content.parts_view()[0]) == (false, system_prompt@),
{
    Event::create(
        User::System,
        response::LmResponse::raw(system_prompt),
        EventType::LanguageModel,
        Channel::Debug,
    )
}

/// A chat agent that keeps the conversation and asks a language model to
/// continue it. Talking to the model is left to the caller: `begin_chat`
/// gives the request, `finish_chat` takes the model's answer.
#[derive(Debug, Clone)]
pub struct LmChatAgent {
    language_model: LanguageModel,
    chat_history: ChatHistory,
}

impl LmChatAgent {
    /// The conversation so far.
    pub closed spec fn history(&self) -> Seq<EventView> {
        self.chat_history.events_view()
    }

    /// The model the agent talks to.
    pub closed spec fn model(&self) -> LanguageModel {
        self.language_model
    }

    /// The model the agent talks to.
    pub fn language_model(&self) -> (r: &LanguageModel)
        ensures
            *r == self.model(),
    {
        &self.language_model
    }

    /// An agent for `language_model` whose conversation starts with
    /// `initial_history`.
    pub fn new(language_model: LanguageModel, initial_history: Vec<Event>) -> (r: Self)
        ensures
            r.history() == event_views(initial_history@),
            r.model() == language_model,
    {
        LmChatAgent { language_model, chat_history: ChatHistory::new(initial_history) }
    }

    /// The agent of `config`, whose conversation starts with the system
    /// prompt (the text of the file that `config` names, read by the
    /// caller); the model's address must be a URL.
    pub fn load(config: ChatAgentConfig, system_prompt: &str) -> (r: Result<Self, AgentError>)
        ensures
            !url_parses(config.llm_uri@) ==> (r matches Err(
                AgentError::LanguageModel(LanguageModelError::UrlParse { url }),
            ) && url@ == config.llm_uri@),
            url_parses(config.llm_uri@) ==> (r matches Ok(agent) && {
                &&& agent.model().endpoint@ == config.llm_uri@
                &&& agent.model().model_name == config.llm_model
                &&& agent.history().len() == 1
                &&& agent.history()[0].user == User::System
                &&& agent.history()[0].event_type == EventType::LanguageModel
                &&& agent.history()[0].content.len() == 1
                &&& response::part_view(agent.history()[0].content[0]) == (false, system_prompt@)
            }),
    {
        let language_model = match LanguageModel::ollama(config.llm_uri.as_str(), config.llm_model) {
            Ok(m) => m,
            Err(e) => return Err(AgentError::LanguageModel(e)),
        };
        let mut initial: Vec<Event> = Vec::new();
        initial.push(system_prompt_event(system_prompt));
        Ok(LmChatAgent::new(language_model, initial))
    }

    /// Adds `event` to the conversation and gives the request that asks
    /// the model to continue it.
    pub fn begin_chat(&mut self, event: &Event) -> (r: LmChatInput)
        ensures
            final(self).history() == old(self).history().push(event@),
            final(self).model() == old(self).model(),
            r.model_name.name() == old(self).model().model_name.name(),
            r.channel == event.channel,
            r.formatter == old(self).model().default_formatter,
            r.messages@.len() == final(self).history().len(),
            forall|i: int|
                0 <= i < r.messages@.len() ==> (#[trigger] r.messages@[i]).0
                    == final(self).history()[i].user && r.messages@[i].1@ == format_event_view(
                    old(self).model().default_formatter is Chat,
                    final(self).history()[i],
                ),
    {
        self.chat_history.append(event.clone());
        let history = self.chat_history.read();
        proof {
            assert(event_views(history@) == old(self).history().push(event@));
            assert(event_views(history@).len() == history@.len());
            assert(history@.len() > 0);
            assert(event_views(history@)[history@.len() - 1] == history@[history@.len() - 1]@);
        }
        let input = self.language_model.chat_input(&history).unwrap();
        proof {
            assert forall|i: int| 0 <= i < input.messages@.len() implies (#[trigger] input.messages@[i]).0
                == self.history()[i].user && input.messages@[i].1@ == format_event_view(
                self.language_model.default_formatter is Chat,
                self.history()[i],
            ) by {
                assert(event_views(history@)[i] == history@[i]@);
            }
        }
        input
    }

    /// Takes the model's answer: an answer joins the conversation and is
    /// returned; a failure is the agent's error.
    pub fn finish_chat(&mut self, answer: Result<Event, LanguageModelError>) -> (r: Result<
        Event,
        AgentError,
    >)
        ensures
            final(self).model() == old(self).model(),
            match answer {
                Ok(e) => {
                    &&& final(self).history() == old(self).history().push(e@)
                    &&& r matches Ok(e2) && e2@ == e@
                },
                Err(err) => {
                    &&& final(self).history() == old(self).history()
                    &&& r == Err::<Event, AgentError>(AgentError::LanguageModel(err))
                },
            },
    {
        match answer {
            Ok(e) => {
                self.chat_history.append(e.clone());
                Ok(e)
            },
            Err(err) => Err(AgentError::LanguageModel(err)),
        }
    }
}

} // verus!
