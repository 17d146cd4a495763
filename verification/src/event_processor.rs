//! Events the bot handles, the log of all events, and how an event is
//! handed to the bot's consumers.
use vstd::prelude::*;

use crate::chatbot::{strip_prefix_spec, ChatInput};
use crate::command::{parse_error_text, parse_error_view, CommandConsumer, CommandParseError};
use crate::dice::{DiceRollError, DiceRoller, RollerImpl};
use crate::nlp::response::{part_view, LmResponse, MessagePart};
use crate::nlp::{agent_error_text, system_prompt_event, AgentError};
use crate::{Channel, Response, User};

verus! {

#[verifier::external_type_specification]
#[verifier::external_body]
pub struct ExOffsetDateTime(time::OffsetDateTime);

/// `time::OffsetDateTime::now_utc`: the current time. It depends on the
/// clock, so nothing is stated of it.
#[verifier::external_body]
fn now_utc() -> (r: time::OffsetDateTime) {
    time::OffsetDateTime::now_utc()
}

/// When an event was created.
#[derive(Debug, Clone, Copy, PartialEq)]
pub struct EventTimestamp(pub time::OffsetDateTime);

impl EventTimestamp {
    /// The current time.
    pub fn now() -> (r: Self) {
        EventTimestamp(now_utc())
    }
}

/// Why an event could not be handled.
#[derive(Debug)]
pub enum EventError {
    CommandParse(CommandParseError),
    DiceRollParse(DiceRollError),
    Agent(AgentError),
}

/// The message of an event error where it is known: all but a dice roll
/// that failed to roll or to total, which carries tyche's own words.
pub open spec fn event_error_text(e: EventError) -> Option<Seq<char>> {
    match e {
        EventError::CommandParse(c) => Some(
            "failed to parse command from input: "@ + parse_error_text(parse_error_view(c)),
        ),
        EventError::DiceRollParse(DiceRollError::Parse(pe)) => Some(
            "failed to parse dice roll from input: "@ + "failed to parse dice roll from input: "@
                + pe.details@,
        ),
        EventError::DiceRollParse(_) => None,
        EventError::Agent(a) => Some("agent error: "@ + agent_error_text(a)),
    }
}

impl EventError {
    /// The error's message (`Display` for the error).
    pub fn to_string(&self) -> (r: String)
        ensures
            event_error_text(*self) matches Some(t) ==> r@ == t,
            match *self {
                EventError::CommandParse(e) => r@ == "failed to parse command from input: "@
                    + parse_error_text(parse_error_view(e)),
                EventError::DiceRollParse(DiceRollError::Parse(pe)) => r@
                    == "failed to parse dice roll from input: "@
                    + "failed to parse dice roll from input: "@ + pe.details@,
                EventError::DiceRollParse(_) => exists|detail: Seq<char>|
                    r@ == "failed to parse dice roll from input: "@ + detail,
                EventError::Agent(a) => r@ == "agent error: "@ + agent_error_text(a),
            },
    {
        match self {
            EventError::CommandParse(e) => {
                let mut r = String::from_str("failed to parse command from input: ");
                r.append(e.to_string().as_str());
                r
            },
            EventError::DiceRollParse(e) => {
                let mut r = String::from_str("failed to parse dice roll from input: ");
                let d = e.to_string();
                r.append(d.as_str());
                r
            },
            EventError::Agent(e) => {
                let mut r = String::from_str("agent error: ");
                let d = e.to_string();
                r.append(d.as_str());
                r
            },
        }
    }
}

/// What kind of handling an event asks for.
#[derive(Debug, Clone, Copy, PartialEq, Eq, Structural)]
pub enum EventType {
    Command,
    LanguageModel,
    Plain,
}

/// An event the bot can handle, stripped of any command prefix.
#[derive(Debug, PartialEq)]
pub struct Event {
    pub user: User,
    pub content: LmResponse,
    pub event_type: EventType,
    pub channel: Channel,
    pub timestamp: EventTimestamp,
}

/// An event as values.
pub struct EventView {
    pub user: User,
    pub content: Seq<MessagePart>,
    pub event_type: EventType,
    pub channel: Channel,
    pub timestamp: EventTimestamp,
}

impl View for Event {
    type V = EventView;

    open spec fn view(&self) -> EventView {
        EventView {
            user: self.user,
            content: self.content.parts_view(),
            event_type: self.event_type,
            channel: self.channel,
            timestamp: self.timestamp,
        }
    }
}

/// The views of a list of events.
pub open spec fn event_views(v: Seq<Event>) -> Seq<EventView> {
    v.map_values(|e: Event| e@)
}

impl Clone for Event {
    fn clone(&self) -> (r: Self)
        ensures
            r@ == self@,
    {
        Event {
            user: self.user.clone(),
            content: self.content.clone(),
            event_type: self.event_type,
            channel: self.channel,
            timestamp: self.timestamp,
        }
    }
}

/// The text and type an event gets from a chat input: a command, or a
/// plain input that carries the command prefix (which then becomes a
/// command), loses the prefix and the whitespace around the rest.
pub open spec fn event_new_spec(content: Seq<char>, event_type: EventType) -> (Seq<char>, EventType) {
    if event_type == EventType::Plain {
        match strip_prefix_spec(content) {
            Ok(stripped) => (stripped, EventType::Command),
            Err(_) => (content, EventType::Plain),
        }
    } else if event_type == EventType::Command {
        match strip_prefix_spec(content) {
            Ok(stripped) => (stripped, EventType::Command),
            Err(_) => (content, EventType::Command),
        }
    } else {
        (content, event_type)
    }
}

impl Event {
    /// An event created now.
    pub fn create(user: User, content: LmResponse, event_type: EventType, channel: Channel) -> (r:
        Event)
        ensures
            r.user == user,
            r.content == content,
            r.event_type == event_type,
            r.channel == channel,
    {
        Event { user, content, event_type, channel, timestamp: EventTimestamp::now() }
    }

    /// The event for a chat input. A command input loses the command
    /// prefix, and a plain input that starts with it becomes a command
    /// without it; the event is always in the debug channel.
    pub fn new(chat_input: ChatInput, event_type: EventType) -> (r: Result<Self, CommandParseError>)
        ensures
            r matches Ok(e) && {
                &&& e.user == chat_input.user
                &&& e.channel == Channel::Debug
                &&& e.event_type == event_new_spec(chat_input.content@, event_type).1
                &&& e.content.parts_view().len() == 1
                &&& part_view(e.content.parts_view()[0]) == (false, event_new_spec(
                    chat_input.content@,
                    event_type,
                ).0)
            },
    {
        let user = chat_input.user.clone();
        let (content, event_type) = if event_type == EventType::Plain {
            match chat_input.strip_prefix() {
                Ok(content) => (content, EventType::Command),
                Err(_) => (chat_input.content.clone(), EventType::Plain),
            }
        } else if event_type == EventType::Command {
            match chat_input.strip_prefix() {
                Ok(content) => (content, EventType::Command),
                Err(_) => (chat_input.content.clone(), EventType::Command),
            }
        } else {
            (chat_input.content.clone(), event_type)
        };
        Ok(Event::create(user, LmResponse::raw(content.as_str()), event_type, Channel::Debug))
    }
}

/// The log of every event the bot has handled, oldest first.
#[derive(Debug, Clone)]
pub struct EventLog {
    events: Vec<Event>,
}

impl EventLog {
    pub closed spec fn events_view(&self) -> Seq<EventView> {
        event_views(self.events@)
    }

    /// A log holding the given events.
    pub fn new(initial_events: Vec<Event>) -> (r: Self)
        ensures
            r.events_view() == event_views(initial_events@),
    {
        EventLog { events: initial_events }
    }

    /// Adds an event at the end.
    pub fn log_event(&mut self, event: Event)
        ensures
            final(self).events_view() == old(self).events_view().push(event@),
    {
        self.events.push(event);
        proof {
            assert(event_views(self.events@) =~= event_views(old(self).events@).push(event@));
        }
    }

    /// A copy of all events.
    pub fn get_events(&self) -> (r: Vec<Event>)
        ensures
            event_views(r@) == self.events_view(),
    {
        copy_events(&self.events)
    }
}

/// A copy of a list of events.
pub fn copy_events(events: &Vec<Event>) -> (r: Vec<Event>)
    ensures
        event_views(r@) == event_views(events@),
{
    let mut r: Vec<Event> = Vec::new();
    let mut i: usize = 0;
    while i < events.len()
        invariant
            i <= events.len(),
            event_views(r@) == event_views(events@.take(i as int)),
        decreases events.len() - i,
    {
        let e = events[i].clone();
        let ghost before = event_views(r@);
        r.push(e);
        proof {
            assert(event_views(r@) =~= before.push(e@));
            assert(event_views(events@.take(i + 1)) =~= event_views(events@.take(i as int)).push(
                events@[i as int]@,
            ));
        }
        i = i + 1;
    }
    proof {
        assert(events@.take(events.len() as int) =~= events@);
    }
    r
}

/// What processing an event gave: the responses of the consumers that
/// ran here, and whether a chat agent must answer the event as well.
#[derive(Debug)]
pub struct Processed {
    pub responses: Vec<Response>,
    pub ask_agent: bool,
}

/// Logs every event and hands it to the command consumer (if any) and,
/// for language model events, to the chat agent (if any), which the
/// caller runs.
#[derive(Debug, Clone)]
pub struct EventProcessor<TRoller> {
    events: EventLog,
    consumers: Vec<CommandConsumer<TRoller>>,
    has_agent: bool,
}

impl<TRoller: RollerImpl> EventProcessor<TRoller> {
    pub closed spec fn events_view(&self) -> Seq<EventView> {
        self.events.events_view()
    }

    /// The command consumers, in the order they were added.
    pub closed spec fn consumers_view(&self) -> Seq<CommandConsumer<TRoller>> {
        self.consumers@
    }

    pub closed spec fn has_agent_view(&self) -> bool {
        self.has_agent
    }

    /// A processor with no consumers, whose log starts with the system
    /// prompt.
    pub fn new(system_prompt: &str) -> (r: Self)
        ensures
            r.events_view().len() == 1,
            r.events_view()[0].user == User::System,
            r.events_view()[0].event_type == EventType::LanguageModel,
            r.events_view()[0].content.len() == 1,
            part_view(r.events_view()[0].content[0]) == (false, system_prompt@),
            r.consumers_view().len() == 0,
            !r.has_agent_view(),
    {
        let mut initial: Vec<Event> = Vec::new();
        initial.push(system_prompt_event(system_prompt));
        EventProcessor { events: EventLog::new(initial), consumers: Vec::new(), has_agent: false }
    }

    /// The processor with one more command consumer, after the others.
    pub fn with_consumer(self, consumer: CommandConsumer<TRoller>) -> (r: Self)
        ensures
            r.events_view() == self.events_view(),
            r.consumers_view() == self.consumers_view().push(consumer),
            r.has_agent_view() == self.has_agent_view(),
    {
        let mut consumers = self.consumers;
        consumers.push(consumer);
        EventProcessor { events: self.events, consumers, has_agent: self.has_agent }
    }

    /// The processor with a chat agent, which the caller runs.
    pub fn with_agent(self) -> (r: Self)
        ensures
            r.events_view() == self.events_view(),
            r.consumers_view() == self.consumers_view(),
            r.has_agent_view(),
    {
        EventProcessor { events: self.events, consumers: self.consumers, has_agent: true }
    }

    /// Logs the event and hands it to every consumer that takes it, once
    /// each and in order; the responses are those of the consumers that
    /// answered, and a consumer that fails gives no response. The chat
    /// agent is asked when there is one and the event is for the language
    /// model.
    pub fn process(&mut self, event: Event) -> (r: Processed)
        ensures
            final(self).events_view() == old(self).events_view().push(event@),
            final(self).consumers_view() == old(self).consumers_view(),
            final(self).has_agent_view() == old(self).has_agent_view(),
            r.ask_agent == (old(self).has_agent_view() && event.event_type
                == EventType::LanguageModel),
            exists|answers: Seq<Result<Response, EventError>>|
                {
                    &&& answers.len() == old(self).consumers_view().len()
                    &&& forall|i: int|
                        0 <= i < answers.len() && (#[trigger] old(self).consumers_view()[i]).takes(
                            event,
                        ) ==> old(self).consumers_view()[i].answers(event, answers[i])
                    &&& r.responses@ == ok_answers(old(self).consumers_view(), event, answers)
                },
    {
        self.events.log_event(event.clone());
        let responses = propagate_event(&self.consumers, &event);
        let ask_agent = self.has_agent && crate::nlp::agent_should_consume_event(&event);
        Processed { responses, ask_agent }
    }

    /// A copy of every event logged so far.
    pub fn dump_events(&self) -> (r: Vec<Event>)
        ensures
            event_views(r@) == self.events_view(),
    {
        self.events.get_events()
    }
}

impl EventProcessor<tyche::dice::roller::FastRand> {
    /// A processor with commands rolling dice from `seed`, and a chat
    /// agent.
    pub fn with_rng(system_prompt: &str, seed: u64) -> (r: Self)
        ensures
            r.events_view().len() == 1,
            r.events_view()[0].user == User::System,
            part_view(r.events_view()[0].content[0]) == (false, system_prompt@),
            r.consumers_view().len() == 1,
            r.consumers_view()[0].pastas_view().len() == 0,
            r.has_agent_view(),
    {
        let commands = CommandConsumer::new(DiceRoller::with_rng(seed));
        EventProcessor::new(system_prompt).with_consumer(commands).with_agent()
    }

    /// A processor with commands rolling dice seeded from the
    /// environment, and no chat agent.
    pub fn with_default_rng(system_prompt: &str) -> (r: Self)
        ensures
            r.events_view().len() == 1,
            r.events_view()[0].user == User::System,
            part_view(r.events_view()[0].content[0]) == (false, system_prompt@),
            r.consumers_view().len() == 1,
            r.consumers_view()[0].pastas_view().len() == 0,
            !r.has_agent_view(),
    {
        let commands = CommandConsumer::new(DiceRoller::with_default_rng());
        EventProcessor::new(system_prompt).with_consumer(commands)
    }
}

/// Something that answers events, such as the command handler.
pub trait EventConsumer {
    /// Whether the consumer takes the event.
    spec fn takes(&self, event: Event) -> bool;

    /// Whether `answer` is an answer the consumer can give to the event.
    spec fn answers(&self, event: Event, answer: Result<Response, EventError>) -> bool;

    fn should_consume_event(&self, event: &Event) -> (r: bool)
        ensures
            r == self.takes(*event),
    ;

    fn consume_event(&self, event: &Event) -> (r: Result<Response, EventError>)
        ensures
            self.answers(*event, r),
    ;
}

/// The responses of consumers that took an event and answered it
/// without an error, in the consumers' order, given each one's answer.
pub open spec fn ok_answers<C: EventConsumer>(
    consumers: Seq<C>,
    event: Event,
    answers: Seq<Result<Response, EventError>>,
) -> Seq<Response>
    decreases consumers.len(),
{
    if consumers.len() == 0 {
        seq![]
    } else {
        let i = consumers.len() - 1;
        let rest = ok_answers(consumers.drop_last(), event, answers.take(i));
        if consumers[i].takes(event) && answers[i] is Ok {
            rest.push(answers[i]->Ok_0)
        } else {
            rest
        }
    }
}

/// Hands an event to every consumer that takes it, once each and in
/// order, and keeps the responses of those that answered; a consumer
/// that fails gives no response.
pub fn propagate_event<C: EventConsumer>(consumers: &Vec<C>, event: &Event) -> (r: Vec<Response>)
    ensures
        exists|answers: Seq<Result<Response, EventError>>|
            {
                &&& answers.len() == consumers@.len()
                &&& forall|i: int|
                    0 <= i < answers.len() && (#[trigger] consumers@[i]).takes(*event)
                        ==> consumers@[i].answers(*event, answers[i])
                &&& r@ == ok_answers(consumers@, *event, answers)
            },
{
    let mut r: Vec<Response> = Vec::new();
    let ghost mut answers: Seq<Result<Response, EventError>> = seq![];
    let mut i: usize = 0;
    proof {
        assert(consumers@.take(0) =~= Seq::<C>::empty());
    }
    while i < consumers.len()
        invariant
            i <= consumers.len(),
            answers.len() == i,
            forall|j: int|
                0 <= j < i && (#[trigger] consumers@[j]).takes(*event) ==> consumers@[j].answers(
                    *event,
                    answers[j],
                ),
            r@ == ok_answers(consumers@.take(i as int), *event, answers),
        decreases consumers.len() - i,
    {
        let ghost before = answers;
        let ghost cs = consumers@.take(i + 1);
        if consumers[i].should_consume_event(event) {
            let answer = consumers[i].consume_event(event);
            let ghost given = answer;
            proof {
                answers = answers.push(given);
            }
            match answer {
                Ok(response) => {
                    r.push(response);
                },
                Err(_) => {},
            }
        } else {
            proof {
                answers = answers.push(vstd::pervasive::arbitrary());
            }
        }
        proof {
            assert(cs.drop_last() =~= consumers@.take(i as int));
            assert(answers.take(i as int) =~= before);
            assert(cs[i as int] == consumers@[i as int]);
        }
        i = i + 1;
    }
    proof {
        assert(consumers@.take(consumers.len() as int) =~= consumers@);
    }
    r
}

impl Processed {
    /// All responses to the event: the consumers' responses, then the
    /// chat agent's answer as a bot response when it succeeded. A failed
    /// answer gives no response.
    pub fn with_agent_answer(self, answer: Result<Event, AgentError>) -> (r: Vec<Response>)
        ensures
            match answer {
                Ok(e) => {
                    &&& r@.len() == self.responses@.len() + 1
                    &&& r@.take(self.responses@.len() as int) == self.responses@
                    &&& r@.last() matches Response::Bot(c) && c.parts_view() == e.content.parts_view()
                },
                Err(_) => r@ == self.responses@,
            },
    {
        let mut r = self.responses;
        let ghost before = r@;
        match answer {
            Ok(e) => {
                r.push(crate::nlp::agent_response(&e));
                proof {
                    assert(r@.take(before.len() as int) =~= before);
                }
            },
            Err(_) => {},
        }
        r
    }
}

} // verus!
