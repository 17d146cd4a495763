//! Commands: parsing command text and running commands.
use vstd::prelude::*;

use crate::copypasta::{copy_pasta, copy_pasta_names, lookup, CopyPastas};
use crate::dice::{
    dice_error_kind, dice_expr_accepts, dice_parse_error, dice_roll_text, DiceRollError,
    DiceRollResult, DiceRoller, RollerImpl,
    HELP_MESSAGE,
};
use crate::event_processor::{Event, EventConsumer, EventError, EventType};
use crate::Response;
use crate::nlp::response::{display_part, MessagePart};
use crate::text::{
    chars_eq_str, chars_of, debug_str, join, join_from, split_words, str_debug, string_of, views,
    words,
};

verus! {

/// Why a text is not a command.
#[derive(Debug, Clone, PartialEq)]
pub enum CommandParseError {
    MissingPrefix(String),
    MissingCommand(String),
    UndefinedCommand { command: String, args: Option<String> },
}

/// A parse error as text values.
pub enum CommandParseErrorView {
    MissingPrefix(Seq<char>),
    MissingCommand(Seq<char>),
    UndefinedCommand { command: Seq<char>, args: Option<Seq<char>> },
}

pub open spec fn opt_view(o: Option<String>) -> Option<Seq<char>> {
    match o {
        Some(s) => Some(s@),
        None => None,
    }
}

pub open spec fn parse_error_view(e: CommandParseError) -> CommandParseErrorView {
    match e {
        CommandParseError::MissingPrefix(s) => CommandParseErrorView::MissingPrefix(s@),
        CommandParseError::MissingCommand(s) => CommandParseErrorView::MissingCommand(s@),
        CommandParseError::UndefinedCommand { command, args } =>
            CommandParseErrorView::UndefinedCommand { command: command@, args: opt_view(args) },
    }
}

/// `{:?}` of an optional text.
pub open spec fn opt_debug(o: Option<Seq<char>>) -> Seq<char> {
    match o {
        Some(s) => "Some("@ + str_debug(s) + ")"@,
        None => "None"@,
    }
}

/// The message of a parse error.
pub open spec fn parse_error_text(e: CommandParseErrorView) -> Seq<char> {
    match e {
        CommandParseErrorView::MissingPrefix(s) => "input is missing prefix "@ + s,
        CommandParseErrorView::MissingCommand(s) => "input is missing command "@ + s,
        CommandParseErrorView::UndefinedCommand { command, args } => "undefined command in input '"@
            + command + "' with args "@ + opt_debug(args),
    }
}

/// `{:?}` of an optional text.
pub fn debug_option(o: &Option<String>) -> (r: String)
    ensures
        r@ == opt_debug(opt_view(*o)),
{
    match o {
        Some(s) => {
            let mut r = String::from_str("Some(");
            r.append(debug_str(s.as_str()).as_str());
            r.append(")");
            r
        },
        None => String::from_str("None"),
    }
}

impl CommandParseError {
    /// The error's message (`Display` for the error).
    pub fn to_string(&self) -> (r: String)
        ensures
            r@ == parse_error_text(parse_error_view(*self)),
    {
        match self {
            CommandParseError::MissingPrefix(s) => {
                let mut r = String::from_str("input is missing prefix ");
                r.append(s.as_str());
                r
            },
            CommandParseError::MissingCommand(s) => {
                let mut r = String::from_str("input is missing command ");
                r.append(s.as_str());
                r
            },
            CommandParseError::UndefinedCommand { command, args } => {
                let mut r = String::from_str("undefined command in input '");
                r.append(command.as_str());
                r.append("' with args ");
                r.append(debug_option(args).as_str());
                r
            },
        }
    }
}

/// A command for the bot.
#[derive(Debug, Clone, PartialEq)]
pub enum Command {
    /// make Ultron say something
    Echo(String),
    /// roll some dice
    Roll(String),
    /// things that bear repeating
    Copypasta(String),
    /// get help
    Help,
}

/// A command as text values.
pub enum CommandView {
    Echo(Seq<char>),
    Roll(Seq<char>),
    Copypasta(Seq<char>),
    Help,
}

pub open spec fn command_view(c: Command) -> CommandView {
    match c {
        Command::Echo(s) => CommandView::Echo(s@),
        Command::Roll(s) => CommandView::Roll(s@),
        Command::Copypasta(s) => CommandView::Copypasta(s@),
        Command::Help => CommandView::Help,
    }
}

/// A command text: the first word names the command, the other words
/// joined by single spaces are its argument.
pub open spec fn parse_command_spec(input: Seq<char>) -> Result<CommandView, CommandParseErrorView> {
    let ws = words(input);
    if ws.len() == 0 {
        Err(CommandParseErrorView::MissingCommand(input))
    } else {
        let rest = join(ws.subrange(1, ws.len() as int), seq![' ']);
        let c = ws[0];
        if c == "echo"@ {
            Ok(CommandView::Echo(rest))
        } else if c == "roll"@ {
            Ok(CommandView::Roll(rest))
        } else if c == "pasta"@ {
            Ok(CommandView::Copypasta(rest))
        } else if c == "help"@ {
            Ok(CommandView::Help)
        } else {
            Err(
                CommandParseErrorView::UndefinedCommand {
                    command: c,
                    args: if rest.len() == 0 {
                        None
                    } else {
                        Some(rest)
                    },
                },
            )
        }
    }
}

pub open spec fn parse_result_view(r: Result<Command, CommandParseError>) -> Result<
    CommandView,
    CommandParseErrorView,
> {
    match r {
        Ok(c) => Ok(command_view(c)),
        Err(e) => Err(parse_error_view(e)),
    }
}

/// The help text: each command with what it does.
pub const COMMAND_HELP: &'static str = "\n✨`echo` 👉 make Ultron say something\n✨`roll` 👉 roll some dice\n✨`copypasta` 👉 things that bear repeating\n✨`help` 👉 get help";

/// The list of copy pastas: a heading, then each name on a line.
pub open spec fn pasta_list_text(names: Seq<Seq<char>>) -> Seq<char> {
    "types of pasta 🍝:\n"@ + join(names.map_values(|n: Seq<char>| "✨`"@ + n + "`"@), seq!['\n'])
}

/// What a copy pasta command answers.
pub open spec fn pasta_reply(pastas: Seq<(Seq<char>, Seq<char>)>, input: Seq<char>) -> Seq<char> {
    if input == "list"@ {
        pasta_list_text(pastas.map_values(|e: (Seq<char>, Seq<char>)| e.0))
    } else {
        match lookup(pastas, input) {
            Some(t) => t,
            None => "try again loser"@,
        }
    }
}

/// What running a command answers.
pub open spec fn execute_post(
    c: CommandView,
    pastas: Seq<(Seq<char>, Seq<char>)>,
    r: Result<String, EventError>,
) -> bool {
    match c {
        CommandView::Echo(m) => r matches Ok(t) && t@ == m,
        CommandView::Help => r matches Ok(t) && t@ == COMMAND_HELP@,
        CommandView::Copypasta(input) => r matches Ok(t) && t@ == pasta_reply(pastas, input),
        CommandView::Roll(input) => {
            &&& input == "help"@ ==> (r matches Ok(t) && t@ == HELP_MESSAGE@)
            &&& input != "help"@ ==> (!dice_expr_accepts(input) <==> (r matches Err(
                EventError::DiceRollParse(e),
            ) && dice_error_kind(e) == 0))
            &&& r matches Err(EventError::DiceRollParse(DiceRollError::Parse(e)))
                ==> dice_parse_error(input) == Some(e.details@)
            &&& r matches Ok(t) ==> (input != "help"@ ==> exists|ex: Seq<char>, total: int|
                t@ == dice_roll_text(ex, total))
            &&& r matches Err(e) ==> e is DiceRollParse
        },
    }
}

/// The command an event asks for, as text values.
pub open spec fn event_command_spec(e: Event) -> Result<CommandView, CommandParseErrorView> {
    if e.event_type == EventType::Command {
        parse_command_spec(event_text(e))
    } else {
        Err(CommandParseErrorView::MissingPrefix(event_text(e)))
    }
}

/// What consuming an event answers: the parse error of an event that is
/// no command, or what running its command answers.
pub open spec fn consume_post(
    e: Event,
    pastas: Seq<(Seq<char>, Seq<char>)>,
    r: Result<String, EventError>,
) -> bool {
    match event_command_spec(e) {
        Err(ev) => r matches Err(EventError::CommandParse(pe)) && parse_error_view(pe) == ev,
        Ok(cv) => execute_post(cv, pastas, r),
    }
}

/// What a command is run with.
pub struct CommandContext<'a, T> {
    pub dice_roller: DiceRoller<T>,
    pub copy_pastas: &'a CopyPastas,
}

/// The text of an event's content.
pub open spec fn event_text(e: Event) -> Seq<char> {
    join(e.content.parts_view().map_values(|p: MessagePart| display_part(p)), seq!['\n'])
}

impl Command {
    /// Parses a command text.
    pub fn from_str(input: &str) -> (r: Result<Command, CommandParseError>)
        ensures
            parse_result_view(r) == parse_command_spec(input@),
    {
        let chars = chars_of(input);
        let ws = split_words(&chars);
        if ws.len() == 0 {
            return Err(CommandParseError::MissingCommand(String::from_str(input)));
        }
        let sep: Vec<char> = vec![' '];
        let rest_chars = join_from(&ws, 1, &sep);
        proof {
            assert(sep@ =~= seq![' ']);
            assert(views(ws@)[0] == ws@[0]@);
        }
        let rest = string_of(&rest_chars);
        let command = &ws[0];
        if chars_eq_str(command, "echo") {
            Ok(Command::Echo(rest))
        } else if chars_eq_str(command, "roll") {
            Ok(Command::Roll(rest))
        } else if chars_eq_str(command, "pasta") {
            Ok(Command::Copypasta(rest))
        } else if chars_eq_str(command, "help") {
            Ok(Command::Help)
        } else {
            let args = if rest_chars.len() == 0 {
                None
            } else {
                Some(rest)
            };
            Err(CommandParseError::UndefinedCommand { command: string_of(command), args })
        }
    }

    /// The command an event asks for: a command event's text parsed,
    /// anything else refused as missing the prefix.
    pub fn try_from_event(event: &Event) -> (r: Result<Command, CommandParseError>)
        ensures
            event.event_type == EventType::Command ==> parse_result_view(r) == parse_command_spec(
                event_text(*event),
            ),
            event.event_type != EventType::Command ==> parse_result_view(r) == Err::<
                CommandView,
                CommandParseErrorView,
            >(CommandParseErrorView::MissingPrefix(event_text(*event))),
    {
        let text = event.content.to_string();
        match event.event_type {
            EventType::Command => Command::from_str(text.as_str()),
            _ => Err(CommandParseError::MissingPrefix(text)),
        }
    }

    /// Runs the command.
    pub fn execute<TRoller: RollerImpl>(self, context: CommandContext<TRoller>) -> (r: Result<
        String,
        EventError,
    >)
        ensures
            execute_post(command_view(self), context.copy_pastas.view_entries(), r),
    {
        match self {
            Command::Echo(message) => Ok(message),
            Command::Roll(input) => {
                match DiceRollResult::from_str(input.as_str(), context.dice_roller) {
                    Ok(result) => Ok(result.to_string()),
                    Err(e) => Err(EventError::DiceRollParse(e)),
                }
            },
            Command::Help => Ok(String::from_str(COMMAND_HELP)),
            Command::Copypasta(input) => {
                if chars_eq_str(&chars_of(input.as_str()), "list") {
                    Ok(pasta_list(context.copy_pastas))
                } else {
                    match copy_pasta(context.copy_pastas, input.as_str()) {
                        Some(t) => Ok(t),
                        None => Ok(String::from_str("try again loser")),
                    }
                }
            },
        }
    }
}

/// The list of copy pastas as chat text.
fn pasta_list(pastas: &CopyPastas) -> (r: String)
    ensures
        r@ == pasta_list_text(pastas.view_entries().map_values(|e: (Seq<char>, Seq<char>)| e.0)),
{
    let names = copy_pasta_names(pastas);
    let ghost nv = names@.map_values(|s: String| s@);
    let mut lines: Vec<Vec<char>> = Vec::new();
    let mut i: usize = 0;
    while i < names.len()
        invariant
            i <= names.len(),
            nv == names@.map_values(|s: String| s@),
            views(lines@) == nv.take(i as int).map_values(|n: Seq<char>| "✨`"@ + n + "`"@),
        decreases names.len() - i,
    {
        let ghost before = views(lines@);
        let mut line = chars_of("✨`");
        crate::text::push_all(&mut line, &chars_of(names[i].as_str()));
        crate::text::push_all(&mut line, &chars_of("`"));
        lines.push(line);
        proof {
            assert(nv[i as int] == names@[i as int]@);
            assert(line@ == "✨`"@ + nv[i as int] + "`"@);
            assert(views(lines@) =~= before.push(line@));
            assert(views(lines@) =~= nv.take(i + 1).map_values(|n: Seq<char>| "✨`"@ + n + "`"@));
        }
        i = i + 1;
    }
    proof {
        assert(nv.take(names.len() as int) =~= nv);
        assert(views(lines@).subrange(0, lines.len() as int) =~= views(lines@));
    }
    let sep: Vec<char> = vec!['\n'];
    proof {
        assert(sep@ =~= seq!['\n']);
    }
    let body = join_from(&lines, 0, &sep);
    let mut r = String::from_str("types of pasta 🍝:\n");
    r.append(string_of(&body).as_str());
    r
}

/// Consumes events and answers the commands in them.
#[derive(Debug, Clone)]
pub struct CommandConsumer<TRoller> {
    pub dice_roller: DiceRoller<TRoller>,
    copy_pastas: CopyPastas,
}

impl<TRoller: RollerImpl> CommandConsumer<TRoller> {
    pub closed spec fn pastas_view(&self) -> Seq<(Seq<char>, Seq<char>)> {
        self.copy_pastas.view_entries()
    }

    /// The roller the consumer rolls dice with.
    pub closed spec fn roller_view(&self) -> DiceRoller<TRoller> {
        self.dice_roller
    }

    /// A consumer that rolls dice with `dice_roller` and knows no copy
    /// pastas.
    pub fn new(dice_roller: DiceRoller<TRoller>) -> (r: Self)
        ensures
            r.roller_view() == dice_roller,
            r.pastas_view().len() == 0,
    {
        CommandConsumer { dice_roller, copy_pastas: CopyPastas::empty() }
    }

    /// The consumer with the given copy pastas.
    pub fn with_copy_pastas(self, copy_pastas: CopyPastas) -> (r: Self)
        ensures
            r.roller_view() == self.roller_view(),
            r.pastas_view() == copy_pastas.view_entries(),
    {
        CommandConsumer { dice_roller: self.dice_roller, copy_pastas }
    }

    /// Parses the command in an event and runs it.
    pub fn consume(&self, event: &Event) -> (r: Result<String, EventError>)
        ensures
            consume_post(*event, self.pastas_view(), r),
    {
        let command = match Command::try_from_event(event) {
            Ok(c) => c,
            Err(e) => return Err(EventError::CommandParse(e)),
        };
        let context = CommandContext {
            dice_roller: self.dice_roller.clone(),
            copy_pastas: &self.copy_pastas,
        };
        command.execute(context)
    }
}

/// The response a command's answer becomes: its text as plain chat.
pub open spec fn as_chat_response(res: Result<String, EventError>) -> Result<Response, EventError> {
    match res {
        Ok(t) => Ok(Response::PlainChat(t)),
        Err(e) => Err(e),
    }
}

impl<TRoller: RollerImpl> EventConsumer for CommandConsumer<TRoller> {
    /// The command consumer takes every event.
    open spec fn takes(&self, event: Event) -> bool {
        true
    }

    /// The answer to the command in the event, as plain chat.
    open spec fn answers(&self, event: Event, answer: Result<Response, EventError>) -> bool {
        exists|res: Result<String, EventError>|
            #[trigger] consume_post(event, self.pastas_view(), res) && answer == as_chat_response(
                res,
            )
    }

    fn should_consume_event(&self, event: &Event) -> (r: bool) {
        true
    }

    fn consume_event(&self, event: &Event) -> (r: Result<Response, EventError>) {
        let res = self.consume(event);
        let ghost given = res;
        let r = match res {
            Ok(t) => Ok(Response::PlainChat(t)),
            Err(e) => Err(e),
        };
        proof {
            assert(consume_post(*event, self.pastas_view(), given) && r == as_chat_response(given));
        }
        r
    }
}

impl CommandConsumer<tyche::dice::roller::Max> {
    /// A consumer whose dice always show their highest side.
    pub fn with_max_dice_roller() -> (r: Self)
        ensures
            r.pastas_view().len() == 0,
    {
        Self::new(DiceRoller::max())
    }
}

/// A command's argument is every word after the command's name, joined
/// by single spaces; split into words again it gives back exactly those
/// words, so none is dropped or changed (`roll d6 + d8` rolls
/// `d6 + d8`, `echo hello world` echoes `hello world`).
pub proof fn lemma_command_argument_is_rest_of_words(input: Seq<char>)
    requires
        words(input).len() > 0,
    ensures
        ({
            let ws = words(input);
            let rest = ws.subrange(1, ws.len() as int);
            let arg = join(rest, seq![' ']);
            &&& ws[0] == "echo"@ ==> parse_command_spec(input) == Ok::<
                CommandView,
                CommandParseErrorView,
            >(CommandView::Echo(arg))
            &&& ws[0] == "roll"@ ==> parse_command_spec(input) == Ok::<
                CommandView,
                CommandParseErrorView,
            >(CommandView::Roll(arg))
            &&& ws[0] == "pasta"@ ==> parse_command_spec(input) == Ok::<
                CommandView,
                CommandParseErrorView,
            >(CommandView::Copypasta(arg))
            &&& words(arg) == rest
        }),
{
    let ws = words(input);
    let rest = ws.subrange(1, ws.len() as int);
    crate::text::lemma_words_are_words(input);
    assert forall|i: int| 0 <= i < rest.len() implies crate::text::is_word(#[trigger] rest[i]) by {
        assert(rest[i] == ws[i + 1]);
    }
    crate::text::lemma_words_of_joined(rest);
    reveal_strlit("echo");
    reveal_strlit("roll");
    reveal_strlit("pasta");
    assert("roll"@ != "echo"@) by {
        assert("roll"@[0] != "echo"@[0]);
    }
    assert("pasta"@ != "echo"@) by {
        assert("pasta"@.len() != "echo"@.len());
    }
    assert("pasta"@ != "roll"@) by {
        assert("pasta"@.len() != "roll"@.len());
    }
}

} // verus!
