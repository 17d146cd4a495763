//! The coin bot's commands: read from chat messages that start with `!`
//! and from emoji reactions.
use vstd::prelude::*;

use crate::chat::{Message, User};
use crate::copypasta::{builtin_pasta, GNU_PLUS_LINUX, GOOGLERS, RICK_AND_MORTY, RUST};
use crate::error::BotError;
use crate::gambling::{Gamble, Game, Prize, State};
use crate::text::{
    chars_eq_str, chars_of, decimal, format_i64, int_error_debug, parse_i64, parse_i64_spec, IntErrorKind,
    second_field, second_field_of, split_once_char, split_once_spec, string_of, trim, trim_chars,
};

verus! {

/// What the bot answers to `!ping`.
pub const PING: &'static str = "hello";

/// What the bot answers to `!about`.
pub const ABOUT: &'static str = "https://github.com/covercash2/ultron";

/// The sides of the dice of a gamble.
pub const GAMBLE_DICE_SIDES: u32 = 10;

/// Every command of the coin bot.
#[derive(Debug, Clone, PartialEq)]
pub enum Command {
    /// print the help message
    Help,
    /// answer a ping
    Ping,
    /// print what the bot is
    About,
    GetAllBalances { server_id: u64, channel_id: u64 },
    Transfer { from_user: u64, to_user: u64, amount: i64 },
    Daily { server_id: u64, user_id: u64 },
    Tip { server_id: u64, from_user: u64, to_user: u64 },
    Untip { server_id: u64, from_user: u64, to_user: u64 },
    Gamble(Gamble),
    /// show the items for sale
    Shop,
    /// show a user's items
    Inventory { server_id: u64, user_id: u64 },
    CopyPasta { text: String },
    /// the message is not a command
    NotACommand,
}

/// A command as values.
pub enum CommandView {
    Help,
    Ping,
    About,
    GetAllBalances { server_id: u64, channel_id: u64 },
    Transfer { from_user: u64, to_user: u64, amount: i64 },
    Daily { server_id: u64, user_id: u64 },
    Tip { server_id: u64, from_user: u64, to_user: u64 },
    Untip { server_id: u64, from_user: u64, to_user: u64 },
    Gamble(Gamble),
    Shop,
    Inventory { server_id: u64, user_id: u64 },
    CopyPasta { text: Seq<char> },
    NotACommand,
}

pub open spec fn command_view(c: Command) -> CommandView {
    match c {
        Command::Help => CommandView::Help,
        Command::Ping => CommandView::Ping,
        Command::About => CommandView::About,
        Command::GetAllBalances { server_id, channel_id } => CommandView::GetAllBalances {
            server_id,
            channel_id,
        },
        Command::Transfer { from_user, to_user, amount } => CommandView::Transfer {
            from_user,
            to_user,
            amount,
        },
        Command::Daily { server_id, user_id } => CommandView::Daily { server_id, user_id },
        Command::Tip { server_id, from_user, to_user } => CommandView::Tip {
            server_id,
            from_user,
            to_user,
        },
        Command::Untip { server_id, from_user, to_user } => CommandView::Untip {
            server_id,
            from_user,
            to_user,
        },
        Command::Gamble(g) => CommandView::Gamble(g),
        Command::Shop => CommandView::Shop,
        Command::Inventory { server_id, user_id } => CommandView::Inventory { server_id, user_id },
        Command::CopyPasta { text } => CommandView::CopyPasta { text: text@ },
        Command::NotACommand => CommandView::NotACommand,
    }
}

/// Why a message is not a valid command.
pub enum ParseFailure {
    /// no command has this name; the message
    Unknown(Seq<char>),
    /// the command's arguments are wrong; the message
    Parse(Seq<char>),
}

/// `r` is the command or the failure `s`.
pub open spec fn parsed_as(r: Result<Command, BotError>, s: Result<CommandView, ParseFailure>) -> bool {
    match r {
        Ok(c) => s == Ok::<CommandView, ParseFailure>(command_view(c)),
        Err(BotError::UnknownCommand(m)) => s == Err::<CommandView, ParseFailure>(
            ParseFailure::Unknown(m@),
        ),
        Err(BotError::CommandParse(m)) => s == Err::<CommandView, ParseFailure>(
            ParseFailure::Parse(m@),
        ),
        Err(_) => false,
    }
}

/// `!gamble`: `all`, or a positive number of coins, played on ten-sided
/// dice.
pub open spec fn gamble_spec(user_id: u64, args: Seq<char>) -> Result<CommandView, ParseFailure> {
    let a = trim(args);
    if a == "all"@ {
        Ok(
            CommandView::Gamble(
                Gamble {
                    player_id: user_id,
                    prize: Prize::AllCoins,
                    game: Game::DiceRoll(GAMBLE_DICE_SIDES),
                    state: State::Waiting,
                },
            ),
        )
    } else {
        match parse_i64_spec(a) {
            Ok(n) => if n > 0 {
                Ok(
                    CommandView::Gamble(
                        Gamble {
                            player_id: user_id,
                            prize: Prize::Coins(n as i64),
                            game: Game::DiceRoll(GAMBLE_DICE_SIDES),
                            state: State::Waiting,
                        },
                    ),
                )
            } else {
                Err(ParseFailure::Parse("negative gamble amount: "@ + decimal(n)))
            },
            Err(_) => Err(ParseFailure::Parse("unable to parse gamble args: "@ + a)),
        }
    }
}

/// `!give @user amount`: one mentioned user, and a non-negative amount
/// as the second space-separated argument.
pub open spec fn give_spec(from_user: u64, mentions: Seq<u64>, args: Seq<char>) -> Result<
    CommandView,
    ParseFailure,
> {
    if mentions.len() == 0 {
        Err(ParseFailure::Parse("no users mentioned in give command"@))
    } else if mentions.len() > 1 {
        Err(ParseFailure::Parse("for now you can only give one user coins"@))
    } else {
        match second_field(args, ' ') {
            None => Err(ParseFailure::Parse("unable to get amount argument"@)),
            Some(f) => match parse_i64_spec(f) {
                Err(k) => Err(ParseFailure::Parse("command should end with amount: "@ + int_error_debug(k))),
                Ok(n) => if n < 0 {
                    Err(ParseFailure::Parse("cannot transfer a negative amount"@))
                } else {
                    Ok(CommandView::Transfer { from_user, to_user: mentions[0], amount: n as i64 })
                },
            },
        }
    }
}

/// `!copypasta name`, for the four built-in names.
pub open spec fn copypasta_spec(args: Seq<char>) -> Result<CommandView, ParseFailure> {
    if args == "linux"@ {
        Ok(CommandView::CopyPasta { text: GNU_PLUS_LINUX@ })
    } else if args == "googlers"@ {
        Ok(CommandView::CopyPasta { text: GOOGLERS@ })
    } else if args == "rust"@ {
        Ok(CommandView::CopyPasta { text: RUST@ })
    } else if args == "rick and morty"@ {
        Ok(CommandView::CopyPasta { text: RICK_AND_MORTY@ })
    } else {
        Err(ParseFailure::Parse("unknown copypasta"@))
    }
}

/// The ids of the mentioned users.
pub open spec fn mention_ids(mentions: Seq<User>) -> Seq<u64> {
    mentions.map_values(|u: User| u.id)
}

/// What a message means: a command when it starts with `!`, its name
/// running up to the first space and its arguments after it.
pub open spec fn parse_message_spec(
    content: Seq<char>,
    server_id: u64,
    channel_id: u64,
    user_id: u64,
    mentions: Seq<u64>,
) -> Result<CommandView, ParseFailure> {
    if content.len() == 0 || content[0] != '!' {
        Ok(CommandView::NotACommand)
    } else {
        let rest = content.skip(1);
        let (name, args) = match split_once_spec(rest, ' ') {
            Some(p) => p,
            None => (rest, Seq::<char>::empty()),
        };
        if name == "help"@ {
            Ok(CommandView::Help)
        } else if name == "ping"@ {
            Ok(CommandView::Ping)
        } else if name == "about"@ {
            Ok(CommandView::About)
        } else if name == "coins"@ {
            Ok(CommandView::GetAllBalances { server_id, channel_id })
        } else if name == "daily"@ {
            Ok(CommandView::Daily { server_id, user_id })
        } else if name == "shop"@ {
            Ok(CommandView::Shop)
        } else if name == "inventory"@ {
            Ok(CommandView::Inventory { server_id, user_id })
        } else if name == "gamble"@ {
            gamble_spec(user_id, args)
        } else if name == "copypasta"@ {
            copypasta_spec(args)
        } else if name == "give"@ {
            give_spec(user_id, mentions, args)
        } else {
            Err(ParseFailure::Unknown("unknown command: "@ + name))
        }
    }
}

/// The emoji that tip a message's author.
pub open spec fn tip_emoji(e: Seq<char>) -> bool {
    ||| e == "🪙"@
    ||| e == "👍"@
    ||| e == "🔥"@
    ||| e == "UP"@
    ||| e == "CRYN"@
    ||| e == "BADASS"@
    ||| e == "LAUGH"@
}

/// Whether a reaction with this emoji (or custom emoji name) tips.
pub fn is_tip_emoji(e: &str) -> (r: bool)
    ensures
        r == tip_emoji(e@),
{
    let c = chars_of(e);
    chars_eq_str(&c, "🪙") || chars_eq_str(&c, "👍") || chars_eq_str(&c, "🔥") || chars_eq_str(
        &c,
        "UP",
    ) || chars_eq_str(&c, "CRYN") || chars_eq_str(&c, "BADASS") || chars_eq_str(&c, "LAUGH")
}

/// What a reaction means: `tip` when it tips, otherwise no command. A
/// reaction needs a user and a named emoji.
pub open spec fn reaction_spec(
    server_id: u64,
    to_user: u64,
    from_user: Option<u64>,
    emoji: Option<Seq<char>>,
    tip: CommandView,
) -> Result<CommandView, ParseFailure> {
    match from_user {
        None => Err(ParseFailure::Parse("no user in reaction"@)),
        Some(_) => match emoji {
            None => Err(ParseFailure::Parse("no name found for custom emoji"@)),
            Some(e) => if tip_emoji(e) {
                Ok(tip)
            } else {
                Ok(CommandView::NotACommand)
            },
        },
    }
}

pub open spec fn opt_text(o: Option<String>) -> Option<Seq<char>> {
    match o {
        Some(s) => Some(s@),
        None => None,
    }
}

fn parse_failure(message: &str) -> (r: BotError)
    ensures
        r matches BotError::CommandParse(m) && m@ == message@,
{
    BotError::CommandParse(String::from_str(message))
}

impl Command {
    /// The command in a chat message; a message that does not start with
    /// `!` is no command.
    pub fn parse_message(message: &Message) -> (r: Result<Self, BotError>)
        ensures
            parsed_as(
                r,
                parse_message_spec(
                    message.content@,
                    message.server.id,
                    message.channel.id,
                    message.user.id,
                    mention_ids(message.mentions@),
                ),
            ),
    {
        let content = chars_of(message.content.as_str());
        let server_id = message.server.id;
        let user_id = message.user.id;
        if content.len() == 0 || content[0] != '!' {
            return Ok(Command::NotACommand);
        }
        let rest = crate::text::subvec(&content, 1, content.len());
        proof {
            assert(rest@ =~= message.content@.skip(1));
        }
        let (name, args) = match split_once_char(&rest, ' ') {
            Some(p) => p,
            None => {
                let empty: Vec<char> = Vec::new();
                proof {
                    assert(empty@ =~= Seq::<char>::empty());
                }
                (rest, empty)
            },
        };
        if chars_eq_str(&name, "help") {
            Ok(Command::Help)
        } else if chars_eq_str(&name, "ping") {
            Ok(Command::Ping)
        } else if chars_eq_str(&name, "about") {
            Ok(Command::About)
        } else if chars_eq_str(&name, "coins") {
            Ok(Command::GetAllBalances { server_id, channel_id: message.channel.id })
        } else if chars_eq_str(&name, "daily") {
            Ok(Command::Daily { server_id, user_id })
        } else if chars_eq_str(&name, "shop") {
            Ok(Command::Shop)
        } else if chars_eq_str(&name, "inventory") {
            Ok(Command::Inventory { server_id, user_id })
        } else if chars_eq_str(&name, "gamble") {
            parse_gamble(user_id, &args)
        } else if chars_eq_str(&name, "copypasta") {
            if chars_eq_str(&args, "linux") {
                Ok(Command::CopyPasta { text: String::from_str(GNU_PLUS_LINUX) })
            } else if chars_eq_str(&args, "googlers") {
                Ok(Command::CopyPasta { text: String::from_str(GOOGLERS) })
            } else if chars_eq_str(&args, "rust") {
                Ok(Command::CopyPasta { text: String::from_str(RUST) })
            } else if chars_eq_str(&args, "rick and morty") {
                Ok(Command::CopyPasta { text: String::from_str(RICK_AND_MORTY) })
            } else {
                Err(parse_failure("unknown copypasta"))
            }
        } else if chars_eq_str(&name, "give") {
            parse_give(message, &args)
        } else {
            let mut m = String::from_str("unknown command: ");
            m.append(string_of(&name).as_str());
            Err(BotError::UnknownCommand(m))
        }
    }

    /// The command of a reaction that was added: a tip from the reacting
    /// user to the message's author when the emoji tips.
    pub fn parse_reaction(server_id: u64, to_user: u64, from_user: Option<u64>, emoji: Option<
        String,
    >) -> (r: Result<Self, BotError>)
        ensures
            parsed_as(
                r,
                reaction_spec(
                    server_id,
                    to_user,
                    from_user,
                    opt_text(emoji),
                    CommandView::Tip { server_id, from_user: from_user.unwrap(), to_user },
                ),
            ),
    {
        let from = match from_user {
            Some(id) => id,
            None => return Err(parse_failure("no user in reaction")),
        };
        let e = match emoji {
            Some(e) => e,
            None => return Err(parse_failure("no name found for custom emoji")),
        };
        if is_tip_emoji(e.as_str()) {
            Ok(Command::Tip { server_id, from_user: from, to_user })
        } else {
            Ok(Command::NotACommand)
        }
    }

    /// The command of a reaction that was removed: the tip is taken back
    /// when the emoji tips.
    pub fn parse_reaction_removed(server_id: u64, to_user: u64, from_user: Option<u64>, emoji: Option<
        String,
    >) -> (r: Result<Self, BotError>)
        ensures
            parsed_as(
                r,
                reaction_spec(
                    server_id,
                    to_user,
                    from_user,
                    opt_text(emoji),
                    CommandView::Untip { server_id, from_user: from_user.unwrap(), to_user },
                ),
            ),
    {
        let from = match from_user {
            Some(id) => id,
            None => return Err(parse_failure("no user in reaction")),
        };
        let e = match emoji {
            Some(e) => e,
            None => return Err(parse_failure("no name found for custom emoji")),
        };
        if is_tip_emoji(e.as_str()) {
            Ok(Command::Untip { server_id, from_user: from, to_user })
        } else {
            Ok(Command::NotACommand)
        }
    }
}

/// The arguments of `!gamble`.
fn parse_gamble(user_id: u64, args: &Vec<char>) -> (r: Result<Command, BotError>)
    ensures
        parsed_as(r, gamble_spec(user_id, args@)),
{
    let a = trim_chars(args);
    if chars_eq_str(&a, "all") {
        let game = Game::DiceRoll(GAMBLE_DICE_SIDES);
        Ok(Command::Gamble(Gamble::new(user_id, Prize::AllCoins, game)))
    } else {
        match parse_i64(&a) {
            Ok(amount) => {
                if amount > 0 {
                    let game = Game::DiceRoll(GAMBLE_DICE_SIDES);
                    Ok(Command::Gamble(Gamble::new(user_id, Prize::Coins(amount), game)))
                } else {
                    let mut m = String::from_str("negative gamble amount: ");
                    m.append(string_of(&format_i64(amount)).as_str());
                    Err(BotError::CommandParse(m))
                }
            },
            Err(_) => {
                let mut m = String::from_str("unable to parse gamble args: ");
                m.append(string_of(&a).as_str());
                Err(BotError::CommandParse(m))
            },
        }
    }
}

/// The arguments of `!give`.
fn parse_give(message: &Message, args: &Vec<char>) -> (r: Result<Command, BotError>)
    ensures
        parsed_as(r, give_spec(message.user.id, mention_ids(message.mentions@), args@)),
{
    let n = message.mentions.len();
    if n == 0 {
        return Err(parse_failure("no users mentioned in give command"));
    } else if n > 1 {
        return Err(parse_failure("for now you can only give one user coins"));
    }
    let to_user = message.mentions[0].id;
    let from_user = message.user.id;
    let field = match second_field_of(args, ' ') {
        Some(f) => f,
        None => return Err(parse_failure("unable to get amount argument")),
    };
    match parse_i64(&field) {
        Err(k) => {
            let mut m = String::from_str("command should end with amount: ");
            m.append(k.debug_text().as_str());
            Err(BotError::CommandParse(m))
        },
        Ok(amount) => {
            if amount < 0 {
                Err(parse_failure("cannot transfer a negative amount"))
            } else {
                Ok(Command::Transfer { from_user, to_user, amount })
            }
        },
    }
}

/// `!gamble N` stakes exactly `N` coins on ten-sided dice, for every
/// positive `N` written in decimal.
pub proof fn lemma_gamble_amount_read_back(
    server_id: u64,
    channel_id: u64,
    user_id: u64,
    mentions: Seq<u64>,
    n: i64,
)
    requires
        n > 0,
    ensures
        parse_message_spec("!gamble "@ + decimal(n as int), server_id, channel_id, user_id, mentions)
            == Ok::<CommandView, ParseFailure>(
            CommandView::Gamble(
                Gamble {
                    player_id: user_id,
                    prize: Prize::Coins(n),
                    game: Game::DiceRoll(GAMBLE_DICE_SIDES),
                    state: State::Waiting,
                },
            ),
        ),
{
    reveal_strlit("!gamble ");
    reveal_strlit("gamble ");
    reveal_strlit("gamble");
    reveal_strlit("all");
    reveal_strlit("help");
    reveal_strlit("ping");
    reveal_strlit("about");
    reveal_strlit("coins");
    reveal_strlit("daily");
    reveal_strlit("shop");
    reveal_strlit("inventory");
    let d = decimal(n as int);
    crate::text::lemma_nat_digits_first(n as nat);
    crate::text::lemma_nat_digits_all_digits(n as nat);
    crate::text::lemma_parse_format_i64(n);
    let content = "!gamble "@ + d;
    let rest = content.skip(1);
    assert("!gamble "@ =~= seq!['!'] + "gamble "@);
    assert(content =~= seq!['!'] + ("gamble "@ + d));
    assert(rest =~= "gamble "@ + d);
    crate::text::lemma_find_char_first(rest, ' ', 0, 6);
    assert(rest.take(6) =~= "gamble"@);
    assert(rest.skip(7) =~= d);
    crate::text::lemma_digit_not_ws(d[0]);
    crate::text::lemma_digit_not_ws(d.last());
    crate::text::lemma_trim_no_edges(d);
    assert(d != "all"@) by {
        assert(d[0] != "all"@[0]);
    }
}

/// `!give @someone N` moves exactly `N` coins to the one mentioned user,
/// for every `N` from zero up written in decimal (the mention written
/// without spaces).
pub proof fn lemma_give_amount_read_back(
    server_id: u64,
    channel_id: u64,
    from_user: u64,
    to_user: u64,
    mention: Seq<char>,
    n: i64,
)
    requires
        n >= 0,
        forall|i: int| 0 <= i < mention.len() ==> mention[i] != ' ',
    ensures
        parse_message_spec(
            "!give "@ + mention + " "@ + decimal(n as int),
            server_id,
            channel_id,
            from_user,
            seq![to_user],
        ) == Ok::<CommandView, ParseFailure>(
            CommandView::Transfer { from_user, to_user, amount: n },
        ),
{
    reveal_strlit("!give ");
    reveal_strlit("give ");
    reveal_strlit("give");
    reveal_strlit(" ");
    reveal_strlit("help");
    reveal_strlit("ping");
    reveal_strlit("about");
    reveal_strlit("coins");
    reveal_strlit("daily");
    reveal_strlit("shop");
    reveal_strlit("inventory");
    reveal_strlit("gamble");
    reveal_strlit("copypasta");
    let d = decimal(n as int);
    crate::text::lemma_nat_digits_first(n as nat);
    crate::text::lemma_nat_digits_all_digits(n as nat);
    crate::text::lemma_parse_format_i64(n);
    let content = "!give "@ + mention + " "@ + d;
    let rest = content.skip(1);
    let args = mention + " "@ + d;
    assert("!give "@ =~= seq!['!'] + "give "@);
    assert(content =~= seq!['!'] + ("give "@ + args));
    assert(rest =~= "give "@ + args);
    crate::text::lemma_find_char_first(rest, ' ', 0, 4);
    assert(rest.take(4) =~= "give"@);
    assert(rest.skip(5) =~= args);
    let m = mention.len() as int;
    assert forall|i: int| 0 <= i < m implies args[i] != ' ' by {
        assert(args[i] == mention[i]);
    }
    crate::text::lemma_find_char_first(args, ' ', 0, m);
    assert forall|i: int| m + 1 <= i < args.len() implies args[i] != ' ' by {
        assert(args[i] == d[i - m - 1]);
    }
    crate::text::lemma_find_char_none(args, ' ', m + 1);
    assert(args.skip(m + 1) =~= d);
    assert(split_once_spec(rest, ' ') == Some((rest.take(4), rest.skip(5))));
    assert(second_field(args, ' ') == Some(d));
    assert(parse_i64_spec(d) == Ok::<int, IntErrorKind>(n as int));
    assert(give_spec(from_user, seq![to_user], args) == Ok::<CommandView, ParseFailure>(
        CommandView::Transfer { from_user, to_user, amount: n },
    ));
    assert(content.len() > 0 && content[0] == '!');
    assert("give"@ != "help"@) by {
        assert("give"@[0] != "help"@[0]);
    }
    assert("give"@ != "ping"@) by {
        assert("give"@[0] != "ping"@[0]);
    }
    assert("give"@ != "about"@) by {
        assert("give"@.len() != "about"@.len());
    }
    assert("give"@ != "coins"@) by {
        assert("give"@.len() != "coins"@.len());
    }
    assert("give"@ != "daily"@) by {
        assert("give"@.len() != "daily"@.len());
    }
    assert("give"@ != "shop"@) by {
        assert("give"@[0] != "shop"@[0]);
    }
    assert("give"@ != "inventory"@) by {
        assert("give"@.len() != "inventory"@.len());
    }
    assert("give"@ != "gamble"@) by {
        assert("give"@.len() != "gamble"@.len());
    }
    assert("give"@ != "copypasta"@) by {
        assert("give"@.len() != "copypasta"@.len());
    }
}

/// `!copypasta <name>` posts the built-in copy pasta stored under that
/// name in the copy pasta table: the parsed text, when there is one, is
/// the table's text for the name, and each of the four names the command
/// knows is parsed.
pub proof fn lemma_copypasta_command_matches_table(
    server_id: u64,
    channel_id: u64,
    user_id: u64,
    mentions: Seq<u64>,
    name: Seq<char>,
)
    ensures
        parse_message_spec("!copypasta "@ + name, server_id, channel_id, user_id, mentions) matches Ok(
            CommandView::CopyPasta { text },
        ) ==> builtin_pasta(name) == Some(text),
        (name == "linux"@ || name == "googlers"@ || name == "rust"@ || name
            == "rick and morty"@) ==> parse_message_spec(
            "!copypasta "@ + name,
            server_id,
            channel_id,
            user_id,
            mentions,
        ) == Ok::<CommandView, ParseFailure>(CommandView::CopyPasta { text: builtin_pasta(name)->0 }),
{
    reveal_strlit("!copypasta ");
    reveal_strlit("copypasta ");
    reveal_strlit("copypasta");
    reveal_strlit("help");
    reveal_strlit("ping");
    reveal_strlit("about");
    reveal_strlit("coins");
    reveal_strlit("daily");
    reveal_strlit("shop");
    reveal_strlit("inventory");
    reveal_strlit("gamble");
    let content = "!copypasta "@ + name;
    let rest = content.skip(1);
    assert("!copypasta "@ =~= seq!['!'] + "copypasta "@);
    assert(content =~= seq!['!'] + ("copypasta "@ + name));
    assert(rest =~= "copypasta "@ + name);
    crate::text::lemma_find_char_first(rest, ' ', 0, 9);
    assert(rest.take(9) =~= "copypasta"@);
    assert(rest.skip(10) =~= name);
    assert(split_once_spec(rest, ' ') == Some(("copypasta"@, name)));
    assert(content.len() > 0 && content[0] == '!');
    assert("copypasta"@ != "help"@) by {
        assert("copypasta"@.len() != "help"@.len());
    }
    assert("copypasta"@ != "ping"@) by {
        assert("copypasta"@.len() != "ping"@.len());
    }
    assert("copypasta"@ != "about"@) by {
        assert("copypasta"@.len() != "about"@.len());
    }
    assert("copypasta"@ != "coins"@) by {
        assert("copypasta"@.len() != "coins"@.len());
    }
    assert("copypasta"@ != "daily"@) by {
        assert("copypasta"@.len() != "daily"@.len());
    }
    assert("copypasta"@ != "shop"@) by {
        assert("copypasta"@.len() != "shop"@.len());
    }
    assert("copypasta"@ != "inventory"@) by {
        assert("copypasta"@[0] != "inventory"@[0]);
    }
    assert("copypasta"@ != "gamble"@) by {
        assert("copypasta"@.len() != "gamble"@.len());
    }
    assert(parse_message_spec(content, server_id, channel_id, user_id, mentions) == copypasta_spec(
        name,
    ));
}

/// The tipping emoji are exactly 🪙, 👍 and 🔥 and the custom emoji UP,
/// CRYN, BADASS and LAUGH: a reaction with one of them on a message
/// tips its author (and, taken back, untips), and any other reaction is
/// no command.
pub proof fn lemma_tip_emojis(server_id: u64, to_user: u64, from_user: u64, emoji: Seq<char>)
    ensures
        tip_emoji("🪙"@),
        tip_emoji("👍"@),
        tip_emoji("🔥"@),
        tip_emoji("UP"@),
        tip_emoji("CRYN"@),
        tip_emoji("BADASS"@),
        tip_emoji("LAUGH"@),
        ({
            let listed = emoji == "🪙"@ || emoji == "👍"@ || emoji == "🔥"@ || emoji == "UP"@
                || emoji == "CRYN"@ || emoji == "BADASS"@ || emoji == "LAUGH"@;
            let tip = CommandView::Tip { server_id, from_user, to_user };
            let untip = CommandView::Untip { server_id, from_user, to_user };
            &&& listed ==> reaction_spec(server_id, to_user, Some(from_user), Some(emoji), tip)
                == Ok::<CommandView, ParseFailure>(tip)
            &&& listed ==> reaction_spec(server_id, to_user, Some(from_user), Some(emoji), untip)
                == Ok::<CommandView, ParseFailure>(untip)
            &&& !listed ==> reaction_spec(server_id, to_user, Some(from_user), Some(emoji), tip)
                == Ok::<CommandView, ParseFailure>(CommandView::NotACommand)
            &&& !listed ==> reaction_spec(server_id, to_user, Some(from_user), Some(emoji), untip)
                == Ok::<CommandView, ParseFailure>(CommandView::NotACommand)
        }),
{
}

} // verus!
