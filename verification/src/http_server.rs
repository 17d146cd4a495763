//! The HTTP interface of the bot: its routes, the input it accepts, the
//! bodies it answers with and its errors. Serving the routes is left to
//! the program around the library.
use vstd::prelude::*;

use crate::error::{file_error_text, FileError};
use crate::event_processor::{event_error_text, Event, EventError, EventType};
use crate::nlp::response::{part_view, visible_texts, LmResponse};
use crate::text::join;
use crate::text::decimal;
use crate::{is_named, Channel, Response, User};

verus! {

/// The groups the routes are listed under in the API description.
#[derive(Debug, Clone, Copy, PartialEq, Eq, Structural)]
pub enum OpenApiTag {
    BotCommand,
    Telemetry,
    Meta,
}

impl OpenApiTag {
    /// The tag's name in snake case.
    pub fn as_str(self) -> (r: &'static str)
        ensures
            r@ == match self {
                OpenApiTag::BotCommand => "bot_command"@,
                OpenApiTag::Telemetry => "telemetry"@,
                OpenApiTag::Meta => "meta"@,
            },
    {
        match self {
            OpenApiTag::BotCommand => "bot_command",
            OpenApiTag::Telemetry => "telemetry",
            OpenApiTag::Meta => "meta",
        }
    }
}

/// The paths the server answers on.
#[derive(Debug, Clone, Copy, PartialEq, Eq, Structural)]
pub enum Route {
    Command,
    Echo,
    Healthcheck,
    Index,
    ApiDoc,
    Events,
    /// Model Context Protocol endpoint
    Mcp,
}

/// The path of each route.
pub open spec fn route_path(r: Route) -> Seq<char> {
    match r {
        Route::Command => "/command"@,
        Route::Echo => "/echo"@,
        Route::Healthcheck => "/healthcheck"@,
        Route::Index => "/"@,
        Route::ApiDoc => "/api_doc"@,
        Route::Events => "/events"@,
        Route::Mcp => "/mcp"@,
    }
}

impl Route {
    /// The route's path.
    pub fn as_str(&self) -> (r: &'static str)
        ensures
            r@ == route_path(*self),
    {
        match self {
            Route::Command => "/command",
            Route::Echo => "/echo",
            Route::Healthcheck => "/healthcheck",
            Route::Index => "/",
            Route::ApiDoc => "/api_doc",
            Route::Events => "/events",
            Route::Mcp => "/mcp",
        }
    }
}

/// Why the server failed.
#[derive(Debug)]
pub enum ServerError {
    UnableToBindPort(u16),
    /// the server stopped; the system's message
    Startup(String),
    Event(EventError),
    /// the chat bot failed; its message
    ChatBot(String),
    OpenApiDocGeneration,
    Internal(FileError),
}

impl ServerError {
    /// The error's message (`Display` for the error).
    pub fn to_string(&self) -> (r: String)
        ensures
            match *self {
                ServerError::UnableToBindPort(p) => r@ == "unable to bind to port "@ + decimal(
                    p as int,
                ),
                ServerError::Startup(m) => r@ == "error running server: "@ + m@,
                ServerError::Event(e) => match event_error_text(e) {
                    Some(t) => r@ == "error processing event: "@ + t,
                    None => exists|detail: Seq<char>| r@ == "error processing event: "@ + detail,
                },
                ServerError::ChatBot(m) => r@ == "error invoking chat bot: "@ + m@,
                ServerError::OpenApiDocGeneration => r@ == "failed to generate OpenAPI doc"@,
                ServerError::Internal(e) => r@ == "internal server error: "@ + file_error_text(e),
            },
    {
        match self {
            ServerError::UnableToBindPort(p) => {
                let mut r = String::from_str("unable to bind to port ");
                let digits = crate::text::string_of(&crate::text::format_i64(*p as i64));
                r.append(digits.as_str());
                r
            },
            ServerError::Startup(m) => {
                let mut r = String::from_str("error running server: ");
                r.append(m.as_str());
                r
            },
            ServerError::Event(e) => {
                let mut r = String::from_str("error processing event: ");
                let d = e.to_string();
                r.append(d.as_str());
                r
            },
            ServerError::ChatBot(m) => {
                let mut r = String::from_str("error invoking chat bot: ");
                r.append(m.as_str());
                r
            },
            ServerError::OpenApiDocGeneration => String::from_str("failed to generate OpenAPI doc"),
            ServerError::Internal(e) => {
                let mut r = String::from_str("internal server error: ");
                let d = e.to_string();
                r.append(d.as_str());
                r
            },
        }
    }

    /// The HTTP status the error is answered with: every server error is
    /// an internal server error.
    pub fn status_code(&self) -> (r: u16)
        ensures
            r == 500,
    {
        500
    }
}

impl From<EventError> for ServerError {
    fn from(e: EventError) -> (r: Self) {
        ServerError::Event(e)
    }
}

impl vstd::std_specs::convert::FromSpecImpl<EventError> for ServerError {
    open spec fn obeys_from_spec() -> bool {
        true
    }

    open spec fn from_spec(e: EventError) -> Self {
        ServerError::Event(e)
    }
}

impl From<FileError> for ServerError {
    fn from(e: FileError) -> (r: Self) {
        ServerError::Internal(e)
    }
}

impl vstd::std_specs::convert::FromSpecImpl<FileError> for ServerError {
    open spec fn obeys_from_spec() -> bool {
        true
    }

    open spec fn from_spec(e: FileError) -> Self {
        ServerError::Internal(e)
    }
}

/// Input to the bot over HTTP.
#[derive(Debug, Clone, PartialEq)]
pub struct BotInput {
    /// the channel to send the answers to
    pub channel: Channel,
    pub user: String,
    /// the input as if it was a message from Discord, e.g. `echo hello`
    pub event_input: String,
    /// the type of event, e.g. `Command` or `LanguageModel`
    pub event_type: EventType,
}

impl BotInput {
    /// The event the input stands for, created now.
    pub fn to_event(self) -> (r: Event)
        ensures
            is_named(r.user, self.user@),
            r.content.parts_view().len() == 1,
            part_view(r.content.parts_view()[0]) == (false, self.event_input@),
            r.event_type == self.event_type,
            r.channel == self.channel,
    {
        let user = User::from_name(self.user.as_str());
        Event::create(user, LmResponse::raw(self.event_input.as_str()), self.event_type, self.channel)
    }
}

/// The text sent to the chat for one response of the event processor.
pub open spec fn response_body_spec(response: Response) -> Seq<char> {
    match response {
        Response::PlainChat(m) => m@,
        Response::Bot(b) => join(visible_texts(b.parts_view()), seq!['\n']),
        Response::Ignored => "ignored"@,
    }
}

/// The text sent to the chat for one response of the event processor:
/// bot answers without their thinking parts.
pub fn response_body(response: &Response) -> (r: String)
    ensures
        r@ == response_body_spec(*response),
{
    match response {
        Response::PlainChat(message) => message.clone(),
        Response::Bot(bot_message) => bot_message.render_without_thinking_parts(),
        Response::Ignored => String::from_str("ignored"),
    }
}

/// The body of the index page.
pub fn index() -> (r: String)
    ensures
        r@ == "Hello, World!"@,
{
    String::from_str("Hello, World!")
}

/// The body of the health check.
pub fn healthcheck() -> (r: String)
    ensures
        r@ == "OK"@,
{
    String::from_str("OK")
}

/// How much the request tracing logs.
#[derive(Debug, Clone, Copy, PartialEq, Eq, Structural)]
pub enum TraceLevel {
    Trace,
    Debug,
    Info,
    Warn,
    Error,
}

/// The settings of the request tracing.
#[derive(Debug, Clone, Copy, PartialEq, Eq, Structural)]
pub struct TracingMiddleware {
    pub level: TraceLevel,
    pub include_headers: bool,
}

impl TracingMiddleware {
    /// The default settings: log at info level, with headers.
    pub fn new() -> (r: Self)
        ensures
            r.level == TraceLevel::Info,
            r.include_headers,
    {
        TracingMiddleware { level: TraceLevel::Info, include_headers: true }
    }

    /// The same settings at another level.
    pub fn with_level(self, level: TraceLevel) -> (r: Self)
        ensures
            r == (TracingMiddleware { level, ..self }),
    {
        TracingMiddleware { level, ..self }
    }

    /// The same settings with or without headers.
    pub fn with_include_headers(self, include_headers: bool) -> (r: Self)
        ensures
            r == (TracingMiddleware { include_headers, ..self }),
    {
        TracingMiddleware { include_headers, ..self }
    }
}

} // verus!
