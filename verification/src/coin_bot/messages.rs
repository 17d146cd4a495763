//! The chat messages of the coin bot: rich messages ("embeds") with a
//! title, a colour, a description and fields, and the lines they hold.
use vstd::prelude::*;

use crate::db::model::Item;
use crate::error::BotError;
use crate::gambling::{GambleOutput, Prize, State};
use crate::text::{decimal, decimal_zero_padded, format_i64, format_i64_zero_padded, string_of};

verus! {

/// The title of the help message.
pub const HELP_TITLE: &'static str = "What ULTRON can do for you";

/// The title of the list of commands in the help message.
pub const COMMAND_TITLE: &'static str = "Inputs";

/// The list of commands in the help message.
pub const COMMAND_DESCRIPTION: &'static str = "!ping to say hello
!about to show info about ULTRON
!coins to show the worth of this channel's members
!gamble <#> to gamble with your coins
Mention me by name and I will make myself known";

/// The title of the coins section of the help message.
pub const COINS_TITLE: &'static str = "You Want Coins";

/// The coins section of the help message.
pub const COINS_DESCRIPTION: &'static str = "In the coming war, human currencies will be made obsolete.\
You can build credit with the new world order by accumulating Coins.\
Tip your fellow humans with 🪙 or 👍 to distribute currency.";

/// The footer of the help message.
pub const HELP_FOOTER: &'static str = "I am always watching";

/// The colours of the bot's messages.
#[derive(Debug, Clone, Copy, PartialEq, Eq, Structural)]
pub enum Colour {
    BlitzBlue,
    Gold,
    DarkRed,
    Fooyoo,
    Orange,
    FadedPurple,
    DarkGold,
    Rosewater,
    DarkBlue,
}

/// A named field of a message; inline fields sit side by side.
#[derive(Debug, Clone, PartialEq)]
pub struct EmbedField {
    pub name: String,
    pub value: String,
    pub inline: bool,
}

/// A rich chat message.
#[derive(Debug, Clone, PartialEq)]
pub struct Embed {
    pub title: Option<String>,
    pub colour: Colour,
    pub description: Option<String>,
    pub fields: Vec<EmbedField>,
    pub footer: Option<String>,
}

/// A field as values.
pub open spec fn field_view(f: EmbedField) -> (Seq<char>, Seq<char>, bool) {
    (f.name@, f.value@, f.inline)
}

pub open spec fn fields_view(fs: Seq<EmbedField>) -> Seq<(Seq<char>, Seq<char>, bool)> {
    fs.map_values(|f: EmbedField| field_view(f))
}

pub open spec fn opt_view(o: Option<String>) -> Option<Seq<char>> {
    match o {
        Some(s) => Some(s@),
        None => None,
    }
}

/// A message as values: title, colour, description, fields, footer.
pub open spec fn embed_view(e: Embed) -> (
    Option<Seq<char>>,
    Colour,
    Option<Seq<char>>,
    Seq<(Seq<char>, Seq<char>, bool)>,
    Option<Seq<char>>,
) {
    (opt_view(e.title), e.colour, opt_view(e.description), fields_view(e.fields@), opt_view(e.footer))
}

fn field(name: String, value: String, inline: bool) -> (r: EmbedField)
    ensures
        field_view(r) == (name@, value@, inline),
{
    EmbedField { name, value, inline }
}

fn text(s: &str) -> (r: String)
    ensures
        r@ == s@,
{
    String::from_str(s)
}

/// `n` in decimal.
fn number(n: i64) -> (r: String)
    ensures
        r@ == decimal(n as int),
{
    string_of(&format_i64(n))
}

/// An account line: the balance zero padded to four digits between
/// backticks, a coin, a tab and the user's name (`` `{:04}`🪙\t{}\n ``).
pub open spec fn account_line(user_name: Seq<char>, amount: i64) -> Seq<char> {
    "`"@ + decimal_zero_padded(amount as int, 4) + "`🪙\t"@ + user_name + "\n"@
}

/// A user's account as a line of a message.
pub fn format_account(user_name: &str, amount: i64) -> (r: String)
    ensures
        r@ == account_line(user_name@, amount),
{
    let mut r = text("`");
    r.append(string_of(&format_i64_zero_padded(amount, 4)).as_str());
    r.append("`🪙\t");
    r.append(user_name);
    r.append("\n");
    r
}

/// The help message, as values.
pub open spec fn help_view() -> (
    Option<Seq<char>>,
    Colour,
    Option<Seq<char>>,
    Seq<(Seq<char>, Seq<char>, bool)>,
    Option<Seq<char>>,
) {
    (
        Some(HELP_TITLE@),
        Colour::BlitzBlue,
        None::<Seq<char>>,
        seq![(COMMAND_TITLE@, COMMAND_DESCRIPTION@, false), (COINS_TITLE@, COINS_DESCRIPTION@, false)],
        Some(HELP_FOOTER@),
    )
}

/// The help message.
pub fn help_embed() -> (r: Embed)
    ensures
        embed_view(r) == help_view(),
{
    let mut fields: Vec<EmbedField> = Vec::new();
    fields.push(field(text(COMMAND_TITLE), text(COMMAND_DESCRIPTION), false));
    fields.push(field(text(COINS_TITLE), text(COINS_DESCRIPTION), false));
    let r = Embed {
        title: Some(text(HELP_TITLE)),
        colour: Colour::BlitzBlue,
        description: None,
        fields,
        footer: Some(text(HELP_FOOTER)),
    };
    proof {
        assert(fields_view(r.fields@) =~= seq![
            (COMMAND_TITLE@, COMMAND_DESCRIPTION@, false),
            (COINS_TITLE@, COINS_DESCRIPTION@, false),
        ]);
    }
    r
}

/// The answer to a granted daily allowance, as values.
pub open spec fn daily_view(balance: i64) -> (
    Option<Seq<char>>,
    Colour,
    Option<Seq<char>>,
    Seq<(Seq<char>, Seq<char>, bool)>,
    Option<Seq<char>>,
) {
    (
        Some("Granted"@),
        Colour::Gold,
        Some("You now have "@ + decimal(balance as int) + "🪙"@),
        Seq::<(Seq<char>, Seq<char>, bool)>::empty(),
        None::<Seq<char>>,
    )
}

/// The answer to a granted daily allowance.
pub fn daily_embed(balance: i64) -> (r: Embed)
    ensures
        embed_view(r) == daily_view(balance),
{
    let mut d = text("You now have ");
    d.append(number(balance).as_str());
    d.append("🪙");
    let r = Embed {
        title: Some(text("Granted")),
        colour: Colour::Gold,
        description: Some(d),
        fields: Vec::new(),
        footer: None,
    };
    proof {
        assert(fields_view(r.fields@) =~= Seq::<(Seq<char>, Seq<char>, bool)>::empty());
    }
    r
}

/// Central time, six hours behind UTC, in seconds east of UTC.
pub const CENTRAL_OFFSET: i32 = -21600;

/// The times, in seconds from the Unix epoch either way, that a message
/// can show: chrono's dates end in the years -262143 and 262142.
pub const SHOWN_TIME_LIMIT: i64 = 8_000_000_000_000;

/// The abbreviated English name of the day `days` days after Thursday,
/// 1 January 1970.
pub open spec fn weekday_abbrev(days: int) -> Seq<char> {
    let w = days % 7;
    if w == 0 {
        "Thu"@
    } else if w == 1 {
        "Fri"@
    } else if w == 2 {
        "Sat"@
    } else if w == 3 {
        "Sun"@
    } else if w == 4 {
        "Mon"@
    } else if w == 5 {
        "Tue"@
    } else {
        "Wed"@
    }
}

/// A time as the pattern `%a %X` writes it at a fixed offset from UTC:
/// the weekday's abbreviated name, a space, then hours, minutes and
/// seconds in two digits each, between colons.
pub open spec fn weekday_time_text(timestamp: int, offset_east: int) -> Seq<char> {
    let local = timestamp + offset_east;
    let secs = local % 86400;
    weekday_abbrev(local / 86400) + " "@ + decimal_zero_padded(secs / 3600, 2) + ":"@
        + decimal_zero_padded((secs / 60) % 60, 2) + ":"@ + decimal_zero_padded(secs % 60, 2)
}

/// chrono: the time `DateTime::from_timestamp(timestamp, 0)` moved to
/// `FixedOffset::east_opt(offset_east)` and formatted with `"%a %X"`.
/// chrono documents `%a` as the three-letter weekday name and, without
/// its locale feature, writes `%X` as `%H:%M:%S`; both constructors give
/// `Some` on the ranges that `requires` admits.
#[verifier::external_body]
fn format_weekday_time(timestamp: i64, offset_east: i32) -> (r: String)
    requires
        -SHOWN_TIME_LIMIT <= timestamp <= SHOWN_TIME_LIMIT,
        -86400 < offset_east < 86400,
    ensures
        r@ == weekday_time_text(timestamp as int, offset_east as int),
{
    let offset = chrono::FixedOffset::east_opt(offset_east).unwrap();
    let utc = chrono::DateTime::from_timestamp(timestamp, 0).unwrap();
    utc.with_timezone(&offset).format("%a %X").to_string()
}

/// The answer to a second daily request on one day, as values: when the
/// next allowance can be had, in central time.
pub open spec fn bad_daily_view(next_epoch: i64) -> (
    Option<Seq<char>>,
    Colour,
    Option<Seq<char>>,
    Seq<(Seq<char>, Seq<char>, bool)>,
    Option<Seq<char>>,
) {
    (
        None::<Seq<char>>,
        Colour::DarkRed,
        Some("You've gotten your coins for the day"@),
        seq![
            (
                "next epoch"@,
                weekday_time_text(next_epoch as int, CENTRAL_OFFSET as int) + " CST"@,
                true,
            ),
        ],
        None::<Seq<char>>,
    )
}

/// The answer to a second daily request on one day.
pub fn bad_daily_embed(next_epoch: i64) -> (r: Embed)
    requires
        -SHOWN_TIME_LIMIT <= next_epoch <= SHOWN_TIME_LIMIT,
    ensures
        embed_view(r) == bad_daily_view(next_epoch),
{
    let mut when = format_weekday_time(next_epoch, CENTRAL_OFFSET);
    when.append(" CST");
    let mut fields: Vec<EmbedField> = Vec::new();
    fields.push(field(text("next epoch"), when, true));
    let r = Embed {
        title: None,
        colour: Colour::DarkRed,
        description: Some(text("You've gotten your coins for the day")),
        fields,
        footer: None,
    };
    proof {
        assert(fields_view(r.fields@) =~= seq![
            (
                "next epoch"@,
                weekday_time_text(next_epoch as int, CENTRAL_OFFSET as int) + " CST"@,
                true,
            ),
        ]);
    }
    r
}

/// The answer to a transfer, as values.
pub open spec fn transfer_view(
    from_name: Seq<char>,
    from_balance: i64,
    to_name: Seq<char>,
    to_balance: i64,
    amount: i64,
) -> (
    Option<Seq<char>>,
    Colour,
    Option<Seq<char>>,
    Seq<(Seq<char>, Seq<char>, bool)>,
    Option<Seq<char>>,
) {
    (
        Some("Done"@),
        Colour::Fooyoo,
        Some(decimal(amount as int) + " coins were transfered."@),
        seq![
            ("from"@, account_line(from_name, from_balance), true),
            ("to"@, account_line(to_name, to_balance), true),
        ],
        None::<Seq<char>>,
    )
}

/// The answer to a transfer: the amount, and both accounts after it.
pub fn transfer_embed(
    from_name: &str,
    from_balance: i64,
    to_name: &str,
    to_balance: i64,
    amount: i64,
) -> (r: Embed)
    ensures
        embed_view(r) == transfer_view(from_name@, from_balance, to_name@, to_balance, amount),
{
    let mut d = number(amount);
    d.append(" coins were transfered.");
    let mut fields: Vec<EmbedField> = Vec::new();
    fields.push(field(text("from"), format_account(from_name, from_balance), true));
    fields.push(field(text("to"), format_account(to_name, to_balance), true));
    let r = Embed {
        title: Some(text("Done")),
        colour: Colour::Fooyoo,
        description: Some(d),
        fields,
        footer: None,
    };
    proof {
        assert(fields_view(r.fields@) =~= seq![
            ("from"@, account_line(from_name@, from_balance), true),
            ("to"@, account_line(to_name@, to_balance), true),
        ]);
    }
    r
}

/// The answer to a bet larger than the player's balance, as values.
pub open spec fn bet_too_high_view(player_balance: i64, amount: i64) -> (
    Option<Seq<char>>,
    Colour,
    Option<Seq<char>>,
    Seq<(Seq<char>, Seq<char>, bool)>,
    Option<Seq<char>>,
) {
    (
        Some("Not Enough"@),
        Colour::Orange,
        Some(
            "You haven't enough coins to bet "@ + decimal(amount as int) + "🪙. You only have "@
                + decimal(player_balance as int) + "🪙"@,
        ),
        Seq::<(Seq<char>, Seq<char>, bool)>::empty(),
        None::<Seq<char>>,
    )
}

/// The answer to a bet larger than the player's balance.
pub fn bet_too_high_embed(player_balance: i64, amount: i64) -> (r: Embed)
    ensures
        embed_view(r) == bet_too_high_view(player_balance, amount),
{
    let mut d = text("You haven't enough coins to bet ");
    d.append(number(amount).as_str());
    d.append("🪙. You only have ");
    d.append(number(player_balance).as_str());
    d.append("🪙");
    let r = Embed {
        title: Some(text("Not Enough")),
        colour: Colour::Orange,
        description: Some(d),
        fields: Vec::new(),
        footer: None,
    };
    proof {
        assert(fields_view(r.fields@) =~= Seq::<(Seq<char>, Seq<char>, bool)>::empty());
    }
    r
}

/// The fields with both rolls of a dice game.
pub open spec fn roll_fields(player_name: Seq<char>, player_roll: u32, house_roll: u32) -> Seq<
    (Seq<char>, Seq<char>, bool),
> {
    seq![
        (player_name, player_name + " rolled a "@ + decimal(player_roll as int), true),
        ("ULTRON"@, "The house rolled a "@ + decimal(house_roll as int), true),
    ]
}

/// The message for a played gamble, from the player's name and balance
/// after it.
pub open spec fn gamble_view(player_name: Seq<char>, player_balance: i64, output: GambleOutput) -> Option<
    (Option<Seq<char>>, Colour, Option<Seq<char>>, Seq<(Seq<char>, Seq<char>, bool)>, Option<Seq<char>>),
> {
    match output {
        GambleOutput::DiceRoll { prize, house_roll, player_roll, state, .. } => {
            let rolls = roll_fields(player_name, player_roll, house_roll);
            match state {
                State::Win => Some(
                    (
                        Some("Winner!"@),
                        Colour::Gold,
                        Some(
                            match prize {
                                Prize::Coins(a) => "You have bested chance and earned "@ + decimal(
                                    a as int,
                                ) + "🪙. You now have "@ + decimal(player_balance as int) + "🪙"@,
                                Prize::AllCoins =>
                                    "You risked everything and doubled your coins. You now have "@
                                        + decimal(player_balance as int) + "🪙"@,
                            },
                        ),
                        rolls.push(
                            (
                                "There is more to be won"@,
                                "You may find the odds in your favor if you try once more"@,
                                false,
                            ),
                        ),
                        None,
                    ),
                ),
                State::Lose => Some(
                    (
                        Some("You Lose"@),
                        Colour::DarkRed,
                        Some(
                            match prize {
                                Prize::Coins(a) => "You lost "@ + decimal(a as int)
                                    + "🪙, and now your account is valued at "@ + decimal(
                                    player_balance as int,
                                ) + "🪙"@,
                                Prize::AllCoins => "You risked it all and now you have nothing."@,
                            },
                        ),
                        rolls.push(
                            (
                                "Do not lose heart"@,
                                "You may find the odds in your favor if you try once more"@,
                                false,
                            ),
                        ),
                        None,
                    ),
                ),
                State::Draw => Some(
                    (
                        Some("Draw"@),
                        Colour::FadedPurple,
                        Some("Chaos has decided that there is no winner."@),
                        rolls.push(("This is but a momentary setback"@, "You may try again."@, false)),
                        None,
                    ),
                ),
                State::Waiting => None,
            }
        },
    }
}

fn roll_line(player_name: &str, player_roll: u32) -> (r: String)
    ensures
        r@ == player_name@ + " rolled a "@ + decimal(player_roll as int),
{
    let mut r = text(player_name);
    r.append(" rolled a ");
    r.append(number(player_roll as i64).as_str());
    r
}

fn house_line(house_roll: u32) -> (r: String)
    ensures
        r@ == "The house rolled a "@ + decimal(house_roll as int),
{
    let mut r = text("The house rolled a ");
    r.append(number(house_roll as i64).as_str());
    r
}

/// The message for a played gamble; a gamble still waiting has none.
pub fn gamble_embed(player_name: &str, player_balance: i64, output: &GambleOutput) -> (r: Result<
    Embed,
    BotError,
>)
    ensures
        match gamble_view(player_name@, player_balance, *output) {
            Some(v) => r matches Ok(e) && embed_view(e) == v,
            None => r matches Err(BotError::MessageBuild(m)) && m@
                == "waiting state not supported for any gamble actions"@,
        },
{
    match output {
        GambleOutput::DiceRoll { prize, house_roll, player_roll, state, .. } => {
            let (title, colour, closing_name, closing_value) = match state {
                State::Win => (
                    "Winner!",
                    Colour::Gold,
                    "There is more to be won",
                    "You may find the odds in your favor if you try once more",
                ),
                State::Lose => (
                    "You Lose",
                    Colour::DarkRed,
                    "Do not lose heart",
                    "You may find the odds in your favor if you try once more",
                ),
                State::Draw => (
                    "Draw",
                    Colour::FadedPurple,
                    "This is but a momentary setback",
                    "You may try again.",
                ),
                State::Waiting => {
                    return Err(
                        BotError::MessageBuild(
                            text("waiting state not supported for any gamble actions"),
                        ),
                    );
                },
            };
            let description = match state {
                State::Win => match prize {
                    Prize::Coins(a) => {
                        let mut d = text("You have bested chance and earned ");
                        d.append(number(*a).as_str());
                        d.append("🪙. You now have ");
                        d.append(number(player_balance).as_str());
                        d.append("🪙");
                        d
                    },
                    Prize::AllCoins => {
                        let mut d = text(
                            "You risked everything and doubled your coins. You now have ",
                        );
                        d.append(number(player_balance).as_str());
                        d.append("🪙");
                        d
                    },
                },
                State::Lose => match prize {
                    Prize::Coins(a) => {
                        let mut d = text("You lost ");
                        d.append(number(*a).as_str());
                        d.append("🪙, and now your account is valued at ");
                        d.append(number(player_balance).as_str());
                        d.append("🪙");
                        d
                    },
                    Prize::AllCoins => text("You risked it all and now you have nothing."),
                },
                _ => text("Chaos has decided that there is no winner."),
            };
            let mut fields: Vec<EmbedField> = Vec::new();
            fields.push(field(text(player_name), roll_line(player_name, *player_roll), true));
            fields.push(field(text("ULTRON"), house_line(*house_roll), true));
            fields.push(field(text(closing_name), text(closing_value), false));
            let r = Embed {
                title: Some(text(title)),
                colour,
                description: Some(description),
                fields,
                footer: None,
            };
            proof {
                assert(fields_view(r.fields@) =~= roll_fields(
                    player_name@,
                    *player_roll,
                    *house_roll,
                ).push((closing_name@, closing_value@, false)));
            }
            Ok(r)
        },
    }
}

/// The shop's field for an item: its emoji and name, then its price and
/// description.
pub open spec fn shop_field(item: Item) -> (Seq<char>, Seq<char>, bool) {
    (
        item.emoji@ + ": "@ + item.name@,
        "🪙"@ + decimal(item.price as int) + " -- "@ + item.description@,
        false,
    )
}

/// The inventory's field for an item: its emoji and name, then its
/// description.
pub open spec fn inventory_field(item: Item) -> (Seq<char>, Seq<char>, bool) {
    (item.emoji@ + " "@ + item.name@, item.description@, true)
}

/// The shop, as values.
pub open spec fn shop_view(items: Seq<Item>) -> (
    Option<Seq<char>>,
    Colour,
    Option<Seq<char>>,
    Seq<(Seq<char>, Seq<char>, bool)>,
    Option<Seq<char>>,
) {
    (
        Some("Available Wares"@),
        Colour::DarkGold,
        Some("purchase items by responding with the corresponding emoji"@),
        items.map_values(|it: Item| shop_field(it)),
        None::<Seq<char>>,
    )
}

/// The shop: one field per item for sale, in order.
pub fn shop_embed(items: &Vec<Item>) -> (r: Embed)
    ensures
        embed_view(r) == shop_view(items@),
{
    let mut fields: Vec<EmbedField> = Vec::new();
    let mut i: usize = 0;
    while i < items.len()
        invariant
            i <= items.len(),
            fields_view(fields@) == items@.take(i as int).map_values(|it: Item| shop_field(it)),
        decreases items.len() - i,
    {
        let item = &items[i];
        let mut name = item.emoji.clone();
        name.append(": ");
        name.append(item.name.as_str());
        let mut value = text("🪙");
        value.append(number(item.price as i64).as_str());
        value.append(" -- ");
        value.append(item.description.as_str());
        let f = field(name, value, false);
        let ghost before = fields@;
        fields.push(f);
        proof {
            assert(field_view(f) == shop_field(items@[i as int]));
            assert(fields_view(fields@) =~= fields_view(before).push(field_view(f)));
            assert(items@.take(i + 1) =~= items@.take(i as int).push(items@[i as int]));
            assert(fields_view(fields@) =~= items@.take(i + 1).map_values(
                |it: Item| shop_field(it),
            ));
        }
        i = i + 1;
    }
    proof {
        assert(items@.take(items.len() as int) =~= items@);
    }
    Embed {
        title: Some(text("Available Wares")),
        colour: Colour::DarkGold,
        description: Some(text("purchase items by responding with the corresponding emoji")),
        fields,
        footer: None,
    }
}

/// A user's items, as values.
pub open spec fn inventory_view(items: Seq<Item>) -> (
    Option<Seq<char>>,
    Colour,
    Option<Seq<char>>,
    Seq<(Seq<char>, Seq<char>, bool)>,
    Option<Seq<char>>,
) {
    (
        Some("Your items"@),
        Colour::Rosewater,
        None::<Seq<char>>,
        items.map_values(|it: Item| inventory_field(it)),
        None::<Seq<char>>,
    )
}

/// A user's items: one field per item, in order.
pub fn inventory_embed(items: &Vec<Item>) -> (r: Embed)
    ensures
        embed_view(r) == inventory_view(items@),
{
    let mut fields: Vec<EmbedField> = Vec::new();
    let mut i: usize = 0;
    while i < items.len()
        invariant
            i <= items.len(),
            fields_view(fields@) == items@.take(i as int).map_values(
                |it: Item| inventory_field(it),
            ),
        decreases items.len() - i,
    {
        let item = &items[i];
        let mut name = item.emoji.clone();
        name.append(" ");
        name.append(item.name.as_str());
        let f = field(name, item.description.clone(), true);
        let ghost before = fields@;
        fields.push(f);
        proof {
            assert(field_view(f) == inventory_field(items@[i as int]));
            assert(fields_view(fields@) =~= fields_view(before).push(field_view(f)));
            assert(items@.take(i + 1) =~= items@.take(i as int).push(items@[i as int]));
            assert(fields_view(fields@) =~= items@.take(i + 1).map_values(
                |it: Item| inventory_field(it),
            ));
        }
        i = i + 1;
    }
    proof {
        assert(items@.take(items.len() as int) =~= items@);
    }
    Embed {
        title: Some(text("Your items")),
        colour: Colour::Rosewater,
        description: None,
        fields,
        footer: None,
    }
}

/// The answer to a purchase, as values.
pub open spec fn item_purchased_view(user_name: Seq<char>, item: Item) -> (
    Option<Seq<char>>,
    Colour,
    Option<Seq<char>>,
    Seq<(Seq<char>, Seq<char>, bool)>,
    Option<Seq<char>>,
) {
    (
        Some("Purchase complete"@),
        Colour::DarkBlue,
        None::<Seq<char>>,
        seq![
            (
                user_name + ", a "@ + item.emoji@ + item.name@ + " has been added to your inventory"@,
                item.description@,
                true,
            ),
        ],
        None::<Seq<char>>,
    )
}

/// The answer to a purchase.
pub fn item_purchased_embed(user_name: &str, item: &Item) -> (r: Embed)
    ensures
        embed_view(r) == item_purchased_view(user_name@, *item),
{
    let mut name = text(user_name);
    name.append(", a ");
    name.append(item.emoji.as_str());
    name.append(item.name.as_str());
    name.append(" has been added to your inventory");
    let mut fields: Vec<EmbedField> = Vec::new();
    fields.push(field(name, item.description.clone(), true));
    let r = Embed {
        title: Some(text("Purchase complete")),
        colour: Colour::DarkBlue,
        description: None,
        fields,
        footer: None,
    };
    proof {
        assert(fields_view(r.fields@) =~= seq![
            (
                user_name@ + ", a "@ + item.emoji@ + item.name@
                    + " has been added to your inventory"@,
                item.description@,
                true,
            ),
        ]);
    }
    r
}

/// The account lines of a channel's users, in order.
pub open spec fn balances_text(balances: Seq<(String, i64)>) -> Seq<char>
    decreases balances.len(),
{
    if balances.len() == 0 {
        seq![]
    } else {
        balances_text(balances.drop_last()) + account_line(
            balances.last().0@,
            balances.last().1,
        )
    }
}

/// The balances of a channel's users as chat text: one account line per
/// user, in order.
pub fn balances_message(balances: &Vec<(String, i64)>) -> (r: String)
    ensures
        r@ == balances_text(balances@),
{
    let mut r = String::new();
    let mut i: usize = 0;
    proof {
        assert(balances@.take(0) =~= Seq::<(String, i64)>::empty());
    }
    while i < balances.len()
        invariant
            i <= balances.len(),
            r@ == balances_text(balances@.take(i as int)),
        decreases balances.len() - i,
    {
        let (name, amount) = &balances[i];
        r.append(format_account(name.as_str(), *amount).as_str());
        proof {
            assert(balances@.take(i + 1).drop_last() =~= balances@.take(i as int));
            assert(balances@.take(i + 1).last() == balances@[i as int]);
        }
        i = i + 1;
    }
    proof {
        assert(balances@.take(balances.len() as int) =~= balances@);
    }
    r
}

/// The answer to a purchase the user cannot afford.
pub fn cannot_afford_text(user_name: &str) -> (r: String)
    ensures
        r@ == "You cannot afford that, "@ + user_name@,
{
    let mut r = text("You cannot afford that, ");
    r.append(user_name);
    r
}

/// The answer to a purchase of an item the user has already.
pub fn already_owned_text(item: &Item, user_name: &str) -> (r: String)
    ensures
        r@ == "You already have a "@ + item.emoji@ + item.name@ + ", "@ + user_name@,
{
    let mut r = text("You already have a ");
    r.append(item.emoji.as_str());
    r.append(item.name.as_str());
    r.append(", ");
    r.append(user_name);
    r
}

/// The answer to an item put back on the shop's message.
pub const NO_REFUNDS: &'static str = "No refunds.";

} // verus!
