use ultron::nlp::{AgentError, LanguageModelError};
use ultron::dice::{DiceRollError, DiceRollResult, DiceRoller, HELP_MESSAGE};
use ultron::command::CommandParseError;
use ultron::discord::{
    event_error_message, mentions_ultron, message_event_type, message_user, receive_channel,
    response_chunks, send_target, split_message, Channels, DiscordBotError,
    DEFAULT_DEBUG_CHANNEL_ID, DEFAULT_DND_CHANNEL_ID, FUN_ZONE_STREAM_CHANNEL_ID, ULTRON_USER_ID,
};
use ultron::event_processor::{EventError, EventType};
use ultron::grafana::{alert_message, GrafanaRoute};
use ultron::nlp::response::LmResponse;
use ultron::{Channel, Response, User};
use ultron::discord::{message_event, DEFAULT_GENERAL_CHANNEL_ID};

#[test]
fn split_message_works() {
    let message = "This is a test message that should be split into multiple chunks.";
    let max_length = 20;
    let chunks = split_message(message, max_length);
    assert_eq!(chunks.len(), 4);
    assert_eq!(chunks[0], "This is a test");
    assert_eq!(chunks[1], "message that should");
    assert_eq!(chunks[2], "be split into");
    assert_eq!(chunks[3], "multiple chunks.");
}

#[test]
fn split_markdown_syntax() {
    let message = "This is a **test** message with `code` and [link](https://example.com).";
    let max_length = 30;
    let chunks = split_message(message, max_length);
    assert_eq!(chunks.len(), 3);
    assert_eq!(chunks[0], "This is a **test** message");
    assert_eq!(chunks[1], "with `code` and");
    assert_eq!(chunks[2], "[link](https://example.com).");
}

#[test]
fn split_message_keeps_long_words_whole() {
    let chunks = split_message("tiny enormousword x", 5);
    assert_eq!(chunks, vec!["tiny".to_string(), "enormousword".to_string(), "x".to_string()]);
}

#[test]
fn split_message_of_blank_text_is_empty() {
    assert!(split_message("   \n\t ", 10).is_empty());
}

#[test]
fn channels_round_trip() {
    let channels = Channels::new();
    for channel in [
        Channel::Debug,
        Channel::Psa,
        Channel::Dnd,
        Channel::FunZoneBots,
        Channel::FunZoneStream,
    ] {
        let id = *channels.by_name(&channel).expect("every channel is configured");
        assert_eq!(channels.by_id(&id), Some(&channel));
    }
    assert_eq!(channels.by_id(&DEFAULT_DEBUG_CHANNEL_ID), Some(&Channel::Debug));
    assert_eq!(channels.by_id(&FUN_ZONE_STREAM_CHANNEL_ID), Some(&Channel::FunZoneStream));
    assert_eq!(channels.by_id(&1), None);
}

#[test]
fn send_and_receive_channels() {
    let channels = Channels::new();
    assert_eq!(send_target(&channels, Channel::Dnd).unwrap(), DEFAULT_DND_CHANNEL_ID);
    assert_eq!(receive_channel(&channels, DEFAULT_DND_CHANNEL_ID).unwrap(), Channel::Dnd);
    let err = receive_channel(&channels, 42).unwrap_err();
    assert_eq!(err.to_string(), "channel not recognized, `42`");
}

#[test]
fn discord_error_messages() {
    assert_eq!(
        DiscordBotError::ChannelNotConfigured { channel: Channel::Psa }.to_string(),
        "channel not configured, `Psa`"
    );
    assert_eq!(
        DiscordBotError::MissingToken.to_string(),
        "missing token. set DISCORD_TOKEN environment variable"
    );
}

#[test]
fn message_authors_and_mentions() {
    assert_eq!(message_user(ULTRON_USER_ID, "whoever"), User::Ultron);
    assert_eq!(message_user(5, "bob"), User::Normal("bob".to_string()));
    assert!(mentions_ultron(&vec![1, ULTRON_USER_ID], "hi"));
    assert!(mentions_ultron(&vec![], "hey <@&777660234842898483> there"));
    assert!(!mentions_ultron(&vec![1, 2], "hello"));
    assert_eq!(message_event_type(true), EventType::LanguageModel);
    assert_eq!(message_event_type(false), EventType::Plain);
}

#[test]
fn event_error_replies() {
    let missing = EventError::CommandParse(CommandParseError::MissingCommand("".to_string()));
    let reply = event_error_message(&missing).expect("a missing command is answered");
    assert!(reply.starts_with("ya blew it: \n\n"));
    assert!(reply.contains("roll a d20"));

    let undefined = EventError::CommandParse(CommandParseError::UndefinedCommand {
        command: "dance".to_string(),
        args: Some("now".to_string()),
    });
    let reply = event_error_message(&undefined).expect("an undefined command is answered");
    assert!(reply.starts_with("ya blew it: undefined command 'dance' with args Some(\"now\")\n\n"));

    let no_prefix = EventError::CommandParse(CommandParseError::MissingPrefix("hi".to_string()));
    assert!(event_error_message(&no_prefix).is_none());
}

#[test]
fn response_chunks_of_responses() {
    assert!(response_chunks(&Response::Ignored).is_empty());
    let chunks = response_chunks(&Response::PlainChat("hello   world".to_string()));
    assert_eq!(chunks, vec!["hello world".to_string()]);
    let chunks = response_chunks(&Response::Bot(LmResponse::raw("a bot answer")));
    assert_eq!(chunks, vec!["a bot answer".to_string()]);
}

#[test]
fn grafana_alert_text() {
    assert_eq!(GrafanaRoute::path(), "/grafana");
    assert_eq!(
        alert_message("Disk full", "the disk is full"),
        "# 🚨🚨🚨🚨 Disk full 🚨🚨🚨🚨\n\nthe disk is full"
    );
}

#[test]
fn discord_messages_become_events() {
    let channels = Channels::new();
    let event = message_event(&channels, DEFAULT_GENERAL_CHANNEL_ID, 5, "bob", &vec![], "!ultron echo hi")
        .expect("the channel is served");
    assert_eq!(event.user, User::Normal("bob".to_string()));
    assert_eq!(event.event_type, EventType::Command);
    assert_eq!(event.content, LmResponse::raw("echo hi"));
    assert_eq!(event.channel, Channel::Debug);

    let event = message_event(&channels, DEFAULT_GENERAL_CHANNEL_ID, ULTRON_USER_ID, "me", &vec![ULTRON_USER_ID], "hello")
        .unwrap();
    assert_eq!(event.user, User::Ultron);
    assert_eq!(event.event_type, EventType::LanguageModel);

    let err = message_event(&channels, 3, 5, "bob", &vec![], "hi").unwrap_err();
    assert_eq!(err.to_string(), "channel not recognized, `3`");
}

#[test]
fn dice_errors_are_answered_with_the_parser_details() {
    let err = match DiceRollResult::from_str("d", DiceRoller::max()) {
        Err(e) => e,
        Ok(_) => panic!("expected a parse error"),
    };
    let details = match &err {
        DiceRollError::Parse(e) => e.details.clone(),
        other => panic!("expected a parse error, got {:?}", other),
    };
    let reply = event_error_message(&EventError::DiceRollParse(err)).expect("a reply");
    assert_eq!(
        reply,
        format!("ya blew it: failed to parse dice roll from input: {}\n\n{}", details, HELP_MESSAGE)
    );
}

#[test]
fn event_errors_name_the_dice_parser_details() {
    let err = DiceRollResult::from_str("d", DiceRoller::max()).err().expect("a parse error");
    let details = match &err {
        DiceRollError::Parse(e) => e.details.clone(),
        other => panic!("expected a parse error, got {:?}", other),
    };
    assert_eq!(
        EventError::DiceRollParse(err).to_string(),
        format!(
            "failed to parse dice roll from input: failed to parse dice roll from input: {}",
            details
        )
    );
}

#[test]
fn agent_errors_hurt_the_brain() {
    let err = EventError::Agent(AgentError::LanguageModel(LanguageModelError::EmptyEvent));
    assert_eq!(err.to_string(), "agent error: language model error: empty event provided for chat");
    assert_eq!(
        event_error_message(&EventError::Agent(AgentError::NoEvents)),
        Some(format!("brain hurty: no events provided\n{}", HELP_MESSAGE))
    );
}
