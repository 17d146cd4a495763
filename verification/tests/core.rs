use ultron::dice::{tool_error_code, DiceRollError, ToolErrorCode};
use ultron::http_server::{TraceLevel, TracingMiddleware};
use ultron::chatbot::ChatInput;
use ultron::command::{Command, CommandConsumer, CommandParseError};
use ultron::copypasta::{copy_pasta, copy_pasta_names, CopyPastas};
use ultron::dice::{DiceRollResult, DiceRoller};
use ultron::event_processor::{Event, EventProcessor, EventType};
use ultron::http_server::{
    healthcheck, index, response_body, BotInput, OpenApiTag, Route, ServerError,
};
use ultron::nlp::response::{
    split_next_thinking_section, LmResponse, MessagePart, MessagePartsIterator,
};
use ultron::{Channel, Response, User};
use ultron::nlp::lm::{LanguageModel, ModelName};
use ultron::nlp::{AgentError, ChatAgentConfig, LanguageModelError, LmChatAgent};

const PASTA_TABLE: &str = r#"
googlers = "The key point here is our programmers are Googlers."
linux = "I'd just like to interject for a moment."
rust = "Rust has zero-cost abstractions, move semantics, guaranteed memory safety, threads without data races, trait-based generics, pattern matching, type inference, minimal runtime and efficient C bindings."
"#;

#[test]
fn command_parse() {
    let command: Command = Command::from_str("echo hello").unwrap();
    assert_eq!(command, Command::Echo("hello".to_string()));
}

#[test]
fn command_parse_missing_command() {
    let command: Result<Command, CommandParseError> = Command::from_str("");
    assert_eq!(
        command.expect_err("should fail to parse"),
        CommandParseError::MissingCommand("".to_string())
    );
}

#[test]
fn command_parse_undefined_command() {
    let command: Result<Command, CommandParseError> = Command::from_str("undefined hello");
    assert_eq!(
        command.expect_err("should fail to parse"),
        CommandParseError::UndefinedCommand {
            command: "undefined".to_string(),
            args: Some("hello".to_string()),
        }
    );
}

/// The copy pasta table the bot ships with, by name.
const SHIPPED_PASTAS: &str = r#"
googlers = "The key point here is our programmers are Googlers, they’re not researchers."
linux = "I'd just like to interject for a moment."
mr_robot = "To be fair, you have to have a very high IQ to understand Mr. Robot."
open_source_maintainers = "Most maintainers start working on open source software because it’s fun."
rick_and_morty = "To be fair, you have to have a very high IQ to understand Rick and Morty."
rust = "Rust has zero-cost abstractions, move semantics, guaranteed memory safety, threads without data races, trait-based generics, pattern matching, type inference, minimal runtime and efficient C bindings."
"#;

#[test]
fn test_copy_pasta_names() {
    let pastas = CopyPastas::from_toml(SHIPPED_PASTAS).expect("the table is valid TOML");
    let names: std::collections::BTreeSet<String> = copy_pasta_names(&pastas).into_iter().collect();
    let expected: std::collections::BTreeSet<String> = [
        "googlers",
        "linux",
        "mr_robot",
        "open_source_maintainers",
        "rick_and_morty",
        "rust",
    ]
    .iter()
    .map(|s| s.to_string())
    .collect();
    assert_eq!(names, expected);
}

#[test]
fn test_copy_pasta() {
    let pastas = CopyPastas::from_toml(SHIPPED_PASTAS).expect("the table is valid TOML");
    let pasta = copy_pasta(&pastas, "rust").expect("should find rust pasta");
    assert_eq!(pasta, "Rust has zero-cost abstractions, move semantics, guaranteed memory safety, threads without data races, trait-based generics, pattern matching, type inference, minimal runtime and efficient C bindings.");
}

#[test]
fn test_copy_pasta_nonexistent() {
    let pastas = CopyPastas::from_toml(PASTA_TABLE).expect("the table is valid TOML");
    let pasta = copy_pasta(&pastas, "nonexistent");
    assert!(pasta.is_none());
}

#[test]
fn copy_pasta_found_by_name() {
    let pastas = CopyPastas::from_toml(PASTA_TABLE).expect("the table is valid TOML");
    let pasta = copy_pasta(&pastas, "rust").expect("should find rust pasta");
    assert_eq!(pasta, "Rust has zero-cost abstractions, move semantics, guaranteed memory safety, threads without data races, trait-based generics, pattern matching, type inference, minimal runtime and efficient C bindings.");
    let names = copy_pasta_names(&pastas);
    assert_eq!(names, vec!["googlers".to_string(), "linux".to_string(), "rust".to_string()]);
}

#[test]
fn copy_pasta_table_rejects_bad_toml() {
    assert!(CopyPastas::from_toml("this is = = not toml").is_err());
}

#[test]
fn user_name_display_snapshots() {
    let user = User::Normal("test_user".to_string());
    assert_eq!(user.to_string(), "test_user");

    let user = User::Ultron;
    assert_eq!(user.to_string(), "ultron");

    let user = User::Anonymous;
    assert_eq!(user.to_string(), "anonymous");
}

#[test]
fn user_from_name_recognizes_the_bot() {
    assert_eq!(User::from_name("ultron"), User::Ultron);
    assert_eq!(User::from_name("Ultron"), User::Ultron);
    assert_eq!(User::from_name("someone"), User::Normal("someone".to_string()));
}

#[test]
fn split_next_thinking_section_works() {
    let message = "This is a test <think>thinking part</think> and another part.";
    let start_delim = "<think>";
    let end_delim = "</think>";
    let result = split_next_thinking_section(message, start_delim, end_delim);
    assert!(result.is_some());
    let (first_section, thinking_section, rest_of_message) = result.unwrap();
    assert_eq!(first_section, "This is a test ");
    assert_eq!(thinking_section, "thinking part");
    assert_eq!(rest_of_message, " and another part.");
}

#[test]
fn thinking_iterator_works() {
    let message = "This is a test <think>thinking part</think> and another part.";
    let start_delim = "<think>";
    let end_delim = "</think>";
    let mut iterator = MessagePartsIterator::new(message, start_delim, end_delim);
    let first_part = iterator.next().unwrap();
    assert_eq!(first_part, MessagePart::Text("This is a test ".to_string()));
    let thinking_part = iterator.next().unwrap();
    assert_eq!(
        thinking_part,
        MessagePart::Thinking("thinking part".to_string())
    );
    let second_part = iterator.next().unwrap();
    assert_eq!(
        second_part,
        MessagePart::Text(" and another part.".to_string())
    );
    assert!(iterator.next().is_none());
}

#[test]
fn thinking_iterator_handles_no_thinking() {
    let message = "This is a test message without thinking parts.";
    let start_delim = "<think>";
    let end_delim = "</think>";
    let mut iterator = MessagePartsIterator::new(message, start_delim, end_delim);
    let first_part = iterator.next().unwrap();
    assert_eq!(first_part, MessagePart::Text(message.to_string()));
    assert!(iterator.next().is_none());
}

#[test]
fn thinking_iterator_handles_multiple_thinking_sections() {
    let message = "This is a test <think>thinking part 1</think> and another <think>thinking part 2</think>.";
    let start_delim = "<think>";
    let end_delim = "</think>";
    let mut iterator = MessagePartsIterator::new(message, start_delim, end_delim);
    let first_part = iterator.next().unwrap();
    assert_eq!(first_part, MessagePart::Text("This is a test ".to_string()));
    let thinking_part1 = iterator.next().unwrap();
    assert_eq!(
        thinking_part1,
        MessagePart::Thinking("thinking part 1".to_string())
    );
    let second_part = iterator.next().unwrap();
    assert_eq!(second_part, MessagePart::Text(" and another ".to_string()));
    let thinking_part2 = iterator.next().unwrap();
    assert_eq!(
        thinking_part2,
        MessagePart::Thinking("thinking part 2".to_string())
    );
    let last_part = iterator.next().unwrap();
    assert_eq!(last_part, MessagePart::Text(".".to_string()));
    assert!(iterator.next().is_none());
}

#[test]
fn thinking_iterator_parts_rebuild_the_message() {
    let message = "a <think>b</think> c";
    let iterator = MessagePartsIterator::new(message, "<think>", "</think>");
    let response = iterator.collect_response();
    assert_eq!(response.to_string(), "a \n<think>b</think>\n c");
    assert_eq!(response.render_without_thinking_parts(), "a \n c");
}

#[test]
fn bot_message_render_without_thinking_parts() {
    let message = LmResponse::from_parts(vec![
        MessagePart::Text("This is a test".to_string()),
        MessagePart::Thinking("thinking part".to_string()),
        MessagePart::Text("and another part".to_string()),
    ]);
    let rendered = message.render_without_thinking_parts();
    assert_eq!(rendered, "This is a test\nand another part");
}

#[test]
fn bot_message_render_without_thinking_parts_no_thinking_parts() {
    let message = LmResponse::from_parts(vec![MessagePart::Text("This is a test".to_string())]);
    let rendered = message.render_without_thinking_parts();
    assert_eq!(rendered, "This is a test");
}

#[test]
fn strip_prefix() {
    let chat_input: ChatInput = ChatInput::anonymous("!ultron hello", Channel::Debug);
    let input: Event =
        Event::new(chat_input, EventType::Plain).expect("should parse chat input to api input");
    assert_eq!(input.user, User::Anonymous);
    assert_eq!(input.content, LmResponse::raw("hello"));
}

#[test]
fn event_processor_it_works() {
    let event: ChatInput = ChatInput::anonymous("!ultron echo hello", Channel::Debug);
    let event: Event = Event::new(event, EventType::Plain).expect("should parse chat input to event");
    let mut processor = EventProcessor::new("you are ultron")
        .with_consumer(CommandConsumer::new(DiceRoller::max()));
    let responses = processor.process(event).responses;

    assert_eq!(responses.len(), 1);
    assert_eq!(responses[0], Response::PlainChat("hello".to_string()));
}

#[test]
fn event_processor_logs_every_event() {
    let mut processor = EventProcessor::new("system prompt")
        .with_consumer(CommandConsumer::new(DiceRoller::max()));
    let plain = Event::new(ChatInput::anonymous("just chatting", Channel::Debug), EventType::Plain)
        .expect("plain input is an event");
    let processed = processor.process(plain);
    assert!(processed.responses.is_empty());
    assert!(!processed.ask_agent);
    let events = processor.dump_events();
    assert_eq!(events.len(), 2);
    assert_eq!(events[0].user, User::System);
    assert_eq!(events[1].content, LmResponse::raw("just chatting"));
}

#[test]
fn simple_roll() {
    let good_rolls = [
        "1d20",
        "2d6 + 3",
        "4d6 + 2d8 - 2",
    ];
    for roll in good_rolls {
        let result = DiceRollResult::from_str(roll, DiceRoller::max()).expect("failed to parse roll");
        if let DiceRollResult::Roll(dice_roll) = result {
            assert!(!dice_roll.to_string().is_empty());
        } else {
            panic!("expected roll, got help");
        }
    }
}

#[test]
fn dice_roll_with_max_roller_totals_highest_sides() {
    let result = DiceRollResult::from_str("2d6 + 3", DiceRoller::max()).expect("failed to parse roll");
    match result {
        DiceRollResult::Roll(dice_roll) => assert_eq!(dice_roll.total(), 15),
        DiceRollResult::Help(_) => panic!("expected roll, got help"),
    }
}

#[test]
fn dice_help_is_not_a_roll() {
    let result = DiceRollResult::from_str("help", DiceRoller::max()).expect("help parses");
    assert!(matches!(result, DiceRollResult::Help(_)));
}

#[test]
fn test_index() {
    assert_eq!(index(), "Hello, World!".to_string());
    assert_eq!(healthcheck(), "OK".to_string());
}

#[test]
fn routes_and_tags_have_their_paths() {
    assert_eq!(Route::Command.as_str(), "/command");
    assert_eq!(Route::Index.as_str(), "/");
    assert_eq!(Route::ApiDoc.as_str(), "/api_doc");
    assert_eq!(Route::Mcp.as_str(), "/mcp");
    assert_eq!(OpenApiTag::BotCommand.as_str(), "bot_command");
    assert_eq!(OpenApiTag::Telemetry.as_str(), "telemetry");
    assert_eq!(OpenApiTag::Meta.as_str(), "meta");
}

#[test]
fn test_bot() {
    let mut processor = EventProcessor::new("system prompt")
        .with_consumer(CommandConsumer::new(DiceRoller::max()));
    let bot_input = BotInput {
        channel: Channel::Debug,
        user: "anonymous".to_string(),
        event_input: "echo hello".to_string(),
        event_type: EventType::Command,
    };
    let responses = processor.process(bot_input.to_event()).responses;
    let results: Vec<String> = responses.iter().map(response_body).collect();
    assert_eq!(results, vec!["hello".to_string()]);
}

#[test]
fn response_bodies() {
    assert_eq!(response_body(&Response::Ignored), "ignored");
    let bot = Response::Bot(LmResponse::from_parts(vec![
        MessagePart::Thinking("hmm".to_string()),
        MessagePart::Text("answer".to_string()),
    ]));
    assert_eq!(response_body(&bot), "answer");
}

#[test]
fn server_error_messages() {
    assert_eq!(ServerError::UnableToBindPort(8080).to_string(), "unable to bind to port 8080");
    assert_eq!(ServerError::OpenApiDocGeneration.to_string(), "failed to generate OpenAPI doc");
    assert_eq!(ServerError::ChatBot("down".to_string()).to_string(), "error invoking chat bot: down");
    assert_eq!(ServerError::OpenApiDocGeneration.status_code(), 500);
}

#[test]
fn system_prompt_collects_system_events() {
    let processor = EventProcessor::<tyche::dice::roller::Max>::new("line one");
    let events = processor.dump_events();
    assert_eq!(ultron::mcp::system_prompt(&events), "line one");
    let mut processor = processor;
    let chat = Event::new(ChatInput::anonymous("hi", Channel::Debug), EventType::Plain).unwrap();
    processor.process(chat);
    let events = processor.dump_events();
    assert_eq!(ultron::mcp::system_prompt(&events), "line one");
}

#[test]
fn mcp_roll_dice_rejects_bad_expressions() {
    let result = ultron::mcp::roll_dice(DiceRoller::max(), "this is not dice");
    assert!(result.is_err());
    let roll = ultron::mcp::roll_dice(DiceRoller::max(), "3d4").expect("a valid roll");
    assert_eq!(roll.total(), 12);
}

#[test]
fn language_model_needs_a_url() {
    let err = LanguageModel::ollama("not a url", ModelName::from_name("m")).unwrap_err();
    assert_eq!(err, LanguageModelError::UrlParse { url: "not a url".to_string() });
    assert_eq!(err.to_string(), "could not parse URL: not a url");
    let model = LanguageModel::ollama("http://localhost:11434", ModelName::from_name("m"))
        .expect("a URL is accepted");
    assert_eq!(model.endpoint, "http://localhost:11434");
}

#[test]
fn chat_agent_keeps_the_conversation() {
    let config = ChatAgentConfig {
        llm_uri: "http://localhost:11434".to_string(),
        llm_model: ModelName::from_name("llama3.2:latest"),
        system_prompt: "prompt.md".to_string(),
    };
    let mut agent = LmChatAgent::load(config, "be helpful").expect("a URL is accepted");
    let asked = Event::new(ChatInput::anonymous("hello", Channel::Dnd), EventType::LanguageModel)
        .unwrap();
    let input = agent.begin_chat(&asked);
    assert_eq!(input.messages.len(), 2);
    assert_eq!(input.messages[0].0, User::System);
    assert_eq!(input.messages[0].1, "be helpful");
    assert_eq!(input.messages[1].1, "hello");
    assert_eq!(input.channel, Channel::Debug);

    let failed = agent.finish_chat(Err(LanguageModelError::EmptyEvent));
    assert!(matches!(failed, Err(AgentError::LanguageModel(LanguageModelError::EmptyEvent))));

    let answer = Event::create(User::Ultron, LmResponse::raw("hi!"), EventType::LanguageModel, Channel::Debug);
    let answered = agent.finish_chat(Ok(answer)).expect("an answer is passed on");
    assert_eq!(answered.content, LmResponse::raw("hi!"));
    let next = agent.begin_chat(&asked);
    assert_eq!(next.messages.len(), 4);
    assert_eq!(next.messages[2].1, "hi!");

    let bad = ChatAgentConfig {
        llm_uri: "nope".to_string(),
        llm_model: ModelName::from_name("m"),
        system_prompt: "prompt.md".to_string(),
    };
    assert!(LmChatAgent::load(bad, "x").is_err());
}

#[test]
fn agent_answers_join_the_responses() {
    let mut processor = EventProcessor::new("system")
        .with_consumer(CommandConsumer::new(DiceRoller::max()))
        .with_agent();
    let event = Event::new(ChatInput::anonymous("what's up", Channel::Debug), EventType::LanguageModel)
        .unwrap();
    let processed = processor.process(event);
    assert!(processed.ask_agent);
    let answer = Event::create(User::Ultron, LmResponse::raw("not much"), EventType::LanguageModel, Channel::Debug);
    let responses = processed.with_agent_answer(Ok(answer));
    assert_eq!(responses, vec![Response::Bot(LmResponse::raw("not much"))]);
}

#[test]
fn split_thinking_section_rebuilds_message() {
    let message = "before <think>in between</think> after";
    let (a, b, c) = split_next_thinking_section(message, "<think>", "</think>").unwrap();
    assert_eq!(format!("{a}<think>{b}</think>{c}"), message);
    assert!(split_next_thinking_section("no sections here", "<think>", "</think>").is_none());
}

#[test]
fn echo_and_pasta_commands_run() {
    let pastas = CopyPastas::from_toml(PASTA_TABLE).expect("the table is valid TOML");
    let consumer = CommandConsumer::new(DiceRoller::max()).with_copy_pastas(pastas);
    let mut processor = EventProcessor::new("system").with_consumer(consumer);
    let list = Event::new(ChatInput::anonymous("!ultron pasta list", Channel::Debug), EventType::Plain).unwrap();
    assert_eq!(
        processor.process(list).responses,
        vec![Response::PlainChat("types of pasta 🍝:\n✨`googlers`\n✨`linux`\n✨`rust`".to_string())]
    );
    let missing = Event::new(ChatInput::anonymous("!ultron pasta soup", Channel::Debug), EventType::Plain).unwrap();
    assert_eq!(
        processor.process(missing).responses,
        vec![Response::PlainChat("try again loser".to_string())]
    );
    let unknown = Event::new(ChatInput::anonymous("!ultron dance", Channel::Debug), EventType::Plain).unwrap();
    assert!(processor.process(unknown).responses.is_empty());
    assert_eq!(processor.dump_events().len(), 4);
}

#[test]
fn dice_parse_errors_carry_the_parser_details() {
    let err = match DiceRollResult::from_str("not dice at all", DiceRoller::max()) {
        Err(e) => e,
        Ok(_) => panic!("expected a parse error"),
    };
    let details = match &err {
        ultron::dice::DiceRollError::Parse(e) => e.details.clone(),
        other => panic!("expected a parse error, got {:?}", other),
    };
    assert!(!details.is_empty());
    assert_eq!(err.to_string(), format!("failed to parse dice roll from input: {}", details));
}

#[test]
fn dice_rollers_and_tool_error_codes() {
    let roller = DiceRoller::from_roller(tyche::dice::roller::Max::default());
    match DiceRollResult::from_str("d8", roller).expect("a valid roll") {
        DiceRollResult::Roll(roll) => assert_eq!(roll.total(), 8),
        DiceRollResult::Help(_) => panic!("expected a roll"),
    }
    let parse = DiceRollResult::from_str("d", DiceRoller::max()).err().expect("a parse error");
    assert!(matches!(parse, DiceRollError::Parse(_)));
    assert_eq!(tool_error_code(&parse), ToolErrorCode::InvalidRequest);
    let division = DiceRollResult::from_str("d6 / 0", DiceRoller::max()).err().expect("a calc error");
    assert!(matches!(division, DiceRollError::Calc(_)));
    assert_eq!(tool_error_code(&division), ToolErrorCode::InvalidParams);
    assert!(division.to_string().starts_with("failed to calculate dice roll: "));
}

#[test]
fn max_dice_consumer_rolls_highest_sides() {
    let consumer = CommandConsumer::with_max_dice_roller();
    let event = Event::new(ChatInput::anonymous("roll 2d6", Channel::Debug), EventType::Command)
        .unwrap();
    let answer = consumer.consume(&event).expect("the roll runs");
    assert!(answer.ends_with("_ = **12**"), "{}", answer);
}

#[test]
fn tracing_settings_and_default_model() {
    let settings = TracingMiddleware::new().with_level(TraceLevel::Warn).with_include_headers(false);
    assert_eq!(settings.level, TraceLevel::Warn);
    assert!(!settings.include_headers);
    assert_eq!(ModelName::default_model().as_str(), "deepseek-r1:8b");
}

#[test]
fn server_errors_carry_the_event_error() {
    let err = ServerError::Event(ultron::event_processor::EventError::Agent(AgentError::NoEvents));
    assert_eq!(err.to_string(), "error processing event: agent error: no events provided");
}

#[test]
fn internal_server_errors_name_the_file() {
    let err = ServerError::Internal(ultron::error::FileError::FileRead {
        source: "No such file or directory (os error 2)".to_string(),
        path: "prompts/ultron.md".to_string(),
    });
    assert_eq!(
        err.to_string(),
        "internal server error: failed to read file \"prompts/ultron.md\": No such file or directory (os error 2)"
    );
}

#[test]
fn command_events_lose_the_command_prefix() {
    let ev = Event::new(ChatInput::anonymous("!ultron echo hi", Channel::Debug), EventType::Command)
        .unwrap();
    assert_eq!(ev.content, LmResponse::raw("echo hi"));
    assert_eq!(ev.event_type, EventType::Command);
    let bare = Event::new(ChatInput::anonymous("echo hi", Channel::Debug), EventType::Command)
        .unwrap();
    assert_eq!(bare.content, LmResponse::raw("echo hi"));
    let processor_answer = EventProcessor::new("system")
        .with_consumer(CommandConsumer::new(DiceRoller::max()))
        .process(ev)
        .responses;
    assert_eq!(processor_answer, vec![Response::PlainChat("hi".to_string())]);
}

#[test]
fn users_come_back_from_their_shown_names() {
    for user in [User::Ultron, User::Normal("test_user".to_string())] {
        assert_eq!(User::from_name(&user.to_string()), user);
    }
    assert_eq!(
        User::from_name(&User::Anonymous.to_string()),
        User::Normal("anonymous".to_string())
    );
}

#[test]
fn message_parts_are_few_and_text_parts_hold_text() {
    let message = "a<think>b</think><think></think>c";
    let parts = MessagePartsIterator::new(message, "<think>", "</think>").collect_response();
    let parts = parts.parts().clone();
    assert!(parts.len() <= message.chars().count());
    for part in &parts {
        if let MessagePart::Text(t) = part {
            assert!(!t.is_empty());
        }
    }
    assert_eq!(
        parts,
        vec![
            MessagePart::Text("a".to_string()),
            MessagePart::Thinking("b".to_string()),
            MessagePart::Thinking("".to_string()),
            MessagePart::Text("c".to_string()),
        ]
    );
}

#[test]
fn events_reach_every_consumer_once() {
    use_consumers();
}

fn use_consumers() {
    let consumers = vec![
        CommandConsumer::new(DiceRoller::max()),
        CommandConsumer::with_max_dice_roller(),
    ];
    let event = Event::new(ChatInput::anonymous("echo hi", Channel::Debug), EventType::Command)
        .unwrap();
    assert_eq!(
        ultron::event_processor::propagate_event(&consumers, &event),
        vec![Response::PlainChat("hi".to_string()), Response::PlainChat("hi".to_string())]
    );
    let plain = Event::new(ChatInput::anonymous("hello there", Channel::Debug), EventType::Plain)
        .unwrap();
    assert!(ultron::event_processor::propagate_event(&consumers, &plain).is_empty());
}

#[test]
fn processor_asks_each_consumer_once() {
    let mut processor = EventProcessor::new("system")
        .with_consumer(CommandConsumer::new(DiceRoller::max()))
        .with_consumer(CommandConsumer::with_max_dice_roller());
    let event = Event::new(ChatInput::anonymous("!ultron echo twice", Channel::Debug), EventType::Plain)
        .unwrap();
    let processed = processor.process(event);
    assert_eq!(
        processed.responses,
        vec![Response::PlainChat("twice".to_string()), Response::PlainChat("twice".to_string())]
    );
    assert_eq!(processor.dump_events().len(), 2);
}
