//! Discord-side decisions of the bot: which channels it serves, who wrote
//! a message and how it is meant, what a failed event is answered with,
//! and splitting long replies into message-sized chunks.
use vstd::prelude::*;

use std::collections::HashMap;

use crate::command::{opt_debug, opt_view, parse_error_text, parse_error_view, CommandParseError};
use crate::dice::{DiceRollError, HELP_MESSAGE};
use crate::chatbot::ChatInput;
use crate::event_processor::{event_new_spec, Event, EventError, EventType};
use crate::nlp::agent_error_text;
use crate::nlp::response::part_view;
use crate::http_server::response_body_spec;
use crate::{is_named, Channel, Response, User};
use crate::text::{
    chars_of, is_word, join, lemma_trim_no_edges, lemma_words_are_words, push_all, split_words,
    string_of, trim, trim_chars, views, words,
};

verus! {

/// The longest message Discord accepts, in bytes.
pub const DISCORD_MAX_MESSAGE_LENGTH: usize = 2000;

/// Bytes that `c` takes in UTF-8.
pub open spec fn utf8_len(c: char) -> nat {
    let x = c as u32;
    if x < 0x80 {
        1
    } else if x < 0x800 {
        2
    } else if x < 0x10000 {
        3
    } else {
        4
    }
}

/// Bytes that `s` takes in UTF-8 (`str::len`).
pub open spec fn byte_len(s: Seq<char>) -> nat
    decreases s.len(),
{
    if s.len() == 0 {
        0
    } else {
        byte_len(s.drop_last()) + utf8_len(s.last())
    }
}

/// Total number of characters in `ws`.
pub open spec fn char_count(ws: Seq<Seq<char>>) -> nat
    decreases ws.len(),
{
    if ws.len() == 0 {
        0
    } else {
        char_count(ws.drop_last()) + ws.last().len()
    }
}

/// The state after packing `ws` greedily: finished chunks, and the chunk
/// being filled. A word goes into the current chunk, after a space, as
/// long as the chunk plus a space plus the word stay within `max` bytes;
/// otherwise the current chunk (if any) is finished first.
pub open spec fn pack(ws: Seq<Seq<char>>, max: nat) -> (Seq<Seq<char>>, Seq<char>)
    decreases ws.len(),
{
    if ws.len() == 0 {
        (seq![], seq![])
    } else {
        let (chunks, cur) = pack(ws.drop_last(), max);
        let w = ws.last();
        let (chunks2, cur2) = if byte_len(cur) + byte_len(w) + 1 > max {
            (
                if cur.len() > 0 {
                    chunks.push(trim(cur))
                } else {
                    chunks
                },
                seq![],
            )
        } else {
            (chunks, cur)
        };
        (
            chunks2,
            if cur2.len() > 0 {
                cur2 + seq![' '] + w
            } else {
                w
            },
        )
    }
}

/// The chunks that `split_message(message, max)` returns.
pub open spec fn split_message_spec(message: Seq<char>, max: nat) -> Seq<Seq<char>> {
    let (chunks, cur) = pack(words(message), max);
    if cur.len() > 0 {
        chunks.push(trim(cur))
    } else {
        chunks
    }
}

/// The views of a vector of strings.
pub open spec fn string_views(v: Seq<String>) -> Seq<Seq<char>> {
    v.map_values(|s: String| s@)
}

pub proof fn lemma_byte_len_concat(a: Seq<char>, b: Seq<char>)
    ensures
        byte_len(a + b) == byte_len(a) + byte_len(b),
    decreases b.len(),
{
    if b.len() == 0 {
        assert(a + b =~= a);
    } else {
        lemma_byte_len_concat(a, b.drop_last());
        assert((a + b).drop_last() =~= a + b.drop_last());
        assert((a + b).last() == b.last());
    }
}

proof fn lemma_byte_len_bound(s: Seq<char>)
    ensures
        byte_len(s) <= 4 * s.len(),
    decreases s.len(),
{
    if s.len() > 0 {
        lemma_byte_len_bound(s.drop_last());
    }
}

proof fn lemma_char_count_words(s: Seq<char>)
    ensures
        char_count(words(s)) <= s.len(),
    decreases s.len(),
{
    if s.len() > 0 {
        let t = s.drop_last();
        lemma_char_count_words(t);
        let prev = words(t);
        let c = s.last();
        if !is_ws(c) && s.len() >= 2 && !is_ws(s[s.len() - 2]) {
            assert(t.last() == s[s.len() - 2]);
            crate::text::lemma_words_nonempty(t);
            let upd = prev.update(prev.len() - 1, prev.last().push(c));
            assert(upd.drop_last() =~= prev.drop_last());
        } else if !is_ws(c) {
            assert(prev.push(seq![c]).drop_last() =~= prev);
        }
    }
}

proof fn lemma_char_count_take(ws: Seq<Seq<char>>, i: int)
    requires
        0 <= i <= ws.len(),
    ensures
        char_count(ws.take(i)) <= char_count(ws),
    decreases ws.len() - i,
{
    if i < ws.len() {
        lemma_char_count_take(ws, i + 1);
        assert(ws.take(i + 1).drop_last() =~= ws.take(i));
    } else {
        assert(ws.take(i) =~= ws);
    }
}

use crate::text::is_ws;

/// Bytes that `w` takes in UTF-8.
fn utf8_byte_len(w: &Vec<char>) -> (n: u128)
    ensures
        n == byte_len(w@),
{
    let mut n: u128 = 0;
    let mut k: usize = 0;
    while k < w.len()
        invariant
            k <= w.len(),
            n == byte_len(w@.take(k as int)),
            n <= 4 * k,
        decreases w.len() - k,
    {
        let x = w[k] as u32;
        let b: u128 = if x < 0x80 {
            1
        } else if x < 0x800 {
            2
        } else if x < 0x10000 {
            3
        } else {
            4
        };
        proof {
            assert(w@.take(k + 1).drop_last() =~= w@.take(k as int));
            assert(w@.take(k + 1).last() == w@[k as int]);
        }
        n = n + b;
        k = k + 1;
    }
    proof {
        assert(w@.take(w.len() as int) =~= w@);
    }
    n
}

/// Splits a message into chunks of at most `max_length` bytes while
/// keeping words whole: words are packed greedily, separated by single
/// spaces. A word longer than `max_length` gets a chunk of its own.
pub fn split_message(message: &str, max_length: usize) -> (chunks: Vec<String>)
    ensures
        string_views(chunks@) == split_message_spec(message@, max_length as nat),
{
    let chars = chars_of(message);
    let ws = split_words(&chars);
    let ghost wsv = views(ws@);
    proof {
        lemma_char_count_words(chars@);
        lemma_words_are_words(chars@);
    }
    let total = chars.len();
    let mut chunks: Vec<String> = Vec::new();
    let mut cur: Vec<char> = Vec::new();
    let mut cur_bytes: u128 = 0;
    let mut i: usize = 0;
    proof {
        assert(wsv.take(0) =~= Seq::<Seq<char>>::empty());
        assert(string_views(chunks@) =~= Seq::<Seq<char>>::empty());
    }
    while i < ws.len()
        invariant
            i <= ws.len(),
            wsv == views(ws@),
            wsv == words(chars@),
            chars@ == message@,
            chars@.len() == total,
            char_count(wsv) <= chars@.len(),
            forall|j: int| 0 <= j < wsv.len() ==> is_word(#[trigger] wsv[j]),
            (string_views(chunks@), cur@) == pack(wsv.take(i as int), max_length as nat),
            cur_bytes == byte_len(cur@),
            cur@.len() <= 2 * char_count(wsv.take(i as int)),
        decreases ws.len() - i,
    {
        let w = &ws[i];
        let w_bytes = utf8_byte_len(w);
        let ghost old_chunks = string_views(chunks@);
        let ghost old_cur = cur@;
        proof {
            let t = wsv.take(i + 1);
            assert(t.drop_last() =~= wsv.take(i as int));
            assert(t.last() == w@);
            lemma_char_count_take(wsv, i + 1);
            lemma_byte_len_bound(cur@);
            lemma_byte_len_bound(w@);
            assert(is_word(wsv[i as int]));
            assert(char_count(t) == char_count(wsv.take(i as int)) + w@.len());
            assert(cur_bytes <= 8 * chars@.len());
            assert(w_bytes <= 4 * chars@.len());
        }
        if cur_bytes + w_bytes + 1 > max_length as u128 {
            if cur.len() > 0 {
                let trimmed = trim_chars(&cur);
                chunks.push(string_of(&trimmed));
                proof {
                    assert(string_views(chunks@) =~= old_chunks.push(trim(old_cur)));
                }
            }
            cur = Vec::new();
            cur_bytes = 0;
        }
        let ghost mid = cur@;
        if cur.len() > 0 {
            cur.push(' ');
            proof {
                assert(cur@ =~= mid + seq![' ']);
                lemma_byte_len_concat(mid, seq![' ']);
                assert(byte_len(seq![' ']) == 1) by {
                    reveal_with_fuel(byte_len, 2);
                    assert(seq![' '].drop_last() =~= Seq::<char>::empty());
                    assert((' ' as u32) == 32);
                }
            }
            cur_bytes = cur_bytes + 1;
        }
        let ghost mid2 = cur@;
        push_all(&mut cur, w);
        proof {
            assert(cur@ =~= mid2 + w@);
            lemma_byte_len_concat(mid2, w@);
        }
        cur_bytes = cur_bytes + w_bytes;
        proof {
            if mid.len() > 0 {
                assert(cur@ =~= mid + seq![' '] + w@);
            } else {
                assert(cur@ =~= w@);
            }
        }
        i = i + 1;
    }
    proof {
        assert(wsv.take(ws.len() as int) =~= wsv);
    }
    if cur.len() > 0 {
        let trimmed = trim_chars(&cur);
        let ghost before = string_views(chunks@);
        chunks.push(string_of(&trimmed));
        proof {
            assert(string_views(chunks@) =~= before.push(trim(cur@)));
        }
    }
    chunks
}

// ---------------------------------------------------------------------
// laws of split_message
// ---------------------------------------------------------------------

proof fn lemma_join_push(xs: Seq<Seq<char>>, y: Seq<char>, sep: Seq<char>)
    ensures
        join(xs.push(y), sep) == if xs.len() == 0 {
            y
        } else {
            join(xs, sep) + sep + y
        },
{
    assert(xs.push(y).drop_last() =~= xs);
    assert(xs.push(y).last() == y);
}

/// What holds after packing a sequence of words.
spec fn pack_ok(ws: Seq<Seq<char>>, max: nat) -> bool {
    let (chunks, cur) = pack(ws, max);
    &&& (cur.len() == 0 <==> ws.len() == 0)
    &&& (cur.len() == 0 ==> chunks.len() == 0)
    &&& (cur.len() > 0 ==> !is_ws(cur[0]) && !is_ws(cur.last()))
    &&& join(
        if cur.len() > 0 {
            chunks.push(cur)
        } else {
            chunks
        },
        seq![' '],
    ) == join(ws, seq![' '])
    &&& forall|i: int|
        0 <= i < chunks.len() ==> byte_len(#[trigger] chunks[i]) <= max || is_word(chunks[i])
    &&& (byte_len(cur) <= max || is_word(cur))
}

proof fn lemma_pack(ws: Seq<Seq<char>>, max: nat)
    requires
        forall|j: int| 0 <= j < ws.len() ==> is_word(#[trigger] ws[j]),
    ensures
        pack_ok(ws, max),
    decreases ws.len(),
{
    let sp: Seq<char> = seq![' '];
    if ws.len() > 0 {
        let prev = ws.drop_last();
        assert forall|j: int| 0 <= j < prev.len() implies is_word(#[trigger] prev[j]) by {
            assert(prev[j] == ws[j]);
        }
        lemma_pack(prev, max);
        let (chunks, cur) = pack(prev, max);
        let w = ws.last();
        assert(is_word(ws[ws.len() - 1]));
        assert(w.len() > 0 && !is_ws(w[0]) && !is_ws(w.last()));
        lemma_join_push(prev, w, sp);
        let (chunks2, cur2) = pack(ws, max);
        if byte_len(cur) + byte_len(w) + 1 > max {
            if cur.len() > 0 {
                lemma_trim_no_edges(cur);
                assert(chunks2 == chunks.push(cur));
                assert(cur2 == w);
                lemma_join_push(chunks.push(cur), w, sp);
                assert forall|i: int|
                    0 <= i < chunks2.len() implies byte_len(#[trigger] chunks2[i]) <= max
                    || is_word(chunks2[i]) by {
                    if i < chunks.len() {
                        assert(chunks2[i] == chunks[i]);
                    }
                }
            } else {
                assert(chunks2 == chunks);
                assert(cur2 == w);
                assert(chunks.len() == 0);
                lemma_join_push(chunks, w, sp);
            }
        } else {
            assert(chunks2 == chunks);
            if cur.len() > 0 {
                assert(cur2 == cur + sp + w);
                lemma_join_push(chunks, cur, sp);
                lemma_join_push(chunks, cur + sp + w, sp);
                assert(join(chunks.push(cur2), sp) =~= join(chunks.push(cur), sp) + sp + w);
                lemma_byte_len_concat(cur, sp);
                lemma_byte_len_concat(cur + sp, w);
                assert(byte_len(sp) == 1) by {
                    reveal_with_fuel(byte_len, 2);
                    assert(sp.drop_last() =~= Seq::<char>::empty());
                    assert((' ' as u32) == 32);
                }
                assert(cur2[0] == cur[0]);
                assert(cur2.last() == w.last());
            } else {
                assert(cur2 == w);
                assert(chunks.len() == 0);
                lemma_join_push(chunks, w, sp);
            }
        }
    } else {
        assert(pack(ws, max) == (Seq::<Seq<char>>::empty(), Seq::<char>::empty()));
    }
}

/// `split_message` loses no word and keeps their order: joining the
/// chunks with single spaces gives the message's words joined the same way.
pub proof fn lemma_split_message_keeps_words(message: Seq<char>, max: nat)
    ensures
        join(split_message_spec(message, max), seq![' ']) == join(words(message), seq![' ']),
{
    lemma_words_are_words(message);
    lemma_pack(words(message), max);
    let (chunks, cur) = pack(words(message), max);
    if cur.len() > 0 {
        lemma_trim_no_edges(cur);
    }
}

/// Every chunk of `split_message` fits in `max` bytes, unless it is a
/// single word (a word longer than `max` is never cut).
pub proof fn lemma_split_message_chunk_size(message: Seq<char>, max: nat)
    ensures
        forall|i: int|
            0 <= i < split_message_spec(message, max).len() ==> byte_len(
                #[trigger] split_message_spec(message, max)[i],
            ) <= max || is_word(split_message_spec(message, max)[i]),
{
    lemma_words_are_words(message);
    lemma_pack(words(message), max);
    let (chunks, cur) = pack(words(message), max);
    if cur.len() > 0 {
        lemma_trim_no_edges(cur);
        let r = chunks.push(trim(cur));
        assert forall|i: int| 0 <= i < r.len() implies byte_len(#[trigger] r[i]) <= max || is_word(
            r[i],
        ) by {
            if i < chunks.len() {
                assert(r[i] == chunks[i]);
            }
        }
    }
}


// ---------------------------------------------------------------------
// channels, users and events
// ---------------------------------------------------------------------

broadcast use vstd::std_specs::hash::group_hash_axioms;

/// The debug channel (ultron#ultron-test).
pub const DEFAULT_DEBUG_CHANNEL_ID: u64 = 777725275856699402;

/// The general channel, for announcements.
pub const DEFAULT_GENERAL_CHANNEL_ID: u64 = 777658379212161077;

/// The role-playing channel.
pub const DEFAULT_DND_CHANNEL_ID: u64 = 874085144284258325;

/// FunZone#stream.
pub const FUN_ZONE_STREAM_CHANNEL_ID: u64 = 1375319100124827748;

/// FunZone#bots.
pub const FUN_ZONE_BOT_CHANNEL_ID: u64 = 1249097633520160808;

/// The user id of the bot itself.
pub const ULTRON_USER_ID: u64 = 777627943144652801;

/// The text that mentions the bot's role in a message.
pub const ULTRON_USER_ID_STR: &'static str = "<@&777660234842898483>";

/// The Discord channel of each chat channel.
pub open spec fn channel_id_of(c: Channel) -> u64 {
    match c {
        Channel::Debug => DEFAULT_DEBUG_CHANNEL_ID,
        Channel::Psa => DEFAULT_GENERAL_CHANNEL_ID,
        Channel::Dnd => DEFAULT_DND_CHANNEL_ID,
        Channel::FunZoneBots => FUN_ZONE_BOT_CHANNEL_ID,
        Channel::FunZoneStream => FUN_ZONE_STREAM_CHANNEL_ID,
    }
}

/// The chat channels by Discord channel.
pub open spec fn channels_by_id() -> Map<u64, Channel> {
    map![
        DEFAULT_DEBUG_CHANNEL_ID => Channel::Debug,
        DEFAULT_GENERAL_CHANNEL_ID => Channel::Psa,
        DEFAULT_DND_CHANNEL_ID => Channel::Dnd,
        FUN_ZONE_BOT_CHANNEL_ID => Channel::FunZoneBots,
        FUN_ZONE_STREAM_CHANNEL_ID => Channel::FunZoneStream,
    ]
}

/// The channels the bot serves, both ways.
#[derive(Debug, Clone)]
pub struct Channels {
    by_id: HashMap<u64, Channel>,
    by_name: Vec<(Channel, u64)>,
}

impl Channels {
    /// The chat channel of each known Discord channel.
    pub closed spec fn by_id_view(&self) -> Map<u64, Channel> {
        self.by_id@
    }

    /// The Discord channel of each chat channel, in configuration order.
    pub closed spec fn by_name_view(&self) -> Seq<(Channel, u64)> {
        self.by_name@
    }

    /// The configured channels.
    pub fn new() -> (r: Self)
        ensures
            r.by_id_view() == channels_by_id(),
            r.by_name_view() == seq![
                (Channel::Debug, DEFAULT_DEBUG_CHANNEL_ID),
                (Channel::Psa, DEFAULT_GENERAL_CHANNEL_ID),
                (Channel::Dnd, DEFAULT_DND_CHANNEL_ID),
                (Channel::FunZoneBots, FUN_ZONE_BOT_CHANNEL_ID),
                (Channel::FunZoneStream, FUN_ZONE_STREAM_CHANNEL_ID),
            ],
    {
        let mut by_name: Vec<(Channel, u64)> = Vec::new();
        by_name.push((Channel::Debug, DEFAULT_DEBUG_CHANNEL_ID));
        by_name.push((Channel::Psa, DEFAULT_GENERAL_CHANNEL_ID));
        by_name.push((Channel::Dnd, DEFAULT_DND_CHANNEL_ID));
        by_name.push((Channel::FunZoneBots, FUN_ZONE_BOT_CHANNEL_ID));
        by_name.push((Channel::FunZoneStream, FUN_ZONE_STREAM_CHANNEL_ID));
        let mut by_id: HashMap<u64, Channel> = HashMap::new();
        let mut i: usize = 0;
        while i < by_name.len()
            invariant
                i <= by_name.len(),
                by_name@ == seq![
                    (Channel::Debug, DEFAULT_DEBUG_CHANNEL_ID),
                    (Channel::Psa, DEFAULT_GENERAL_CHANNEL_ID),
                    (Channel::Dnd, DEFAULT_DND_CHANNEL_ID),
                    (Channel::FunZoneBots, FUN_ZONE_BOT_CHANNEL_ID),
                    (Channel::FunZoneStream, FUN_ZONE_STREAM_CHANNEL_ID),
                ],
                by_id@ == Map::new(
                    |k: u64| exists|j: int| 0 <= j < i && by_name@[j].1 == k,
                    |k: u64| channels_by_id()[k],
                ),
            decreases by_name.len() - i,
        {
            let (channel, id) = by_name[i];
            by_id.insert(id, channel);
            proof {
                assert(by_id@ =~= Map::new(
                    |k: u64| exists|j: int| 0 <= j < i + 1 && by_name@[j].1 == k,
                    |k: u64| channels_by_id()[k],
                )) by {
                    assert(by_name@[i as int].1 == id);
                    assert(channels_by_id()[id] == channel);
                }
            }
            i = i + 1;
        }
        proof {
            assert(by_id@ =~= channels_by_id()) by {
                assert(by_name@[0].1 == DEFAULT_DEBUG_CHANNEL_ID);
                assert(by_name@[1].1 == DEFAULT_GENERAL_CHANNEL_ID);
                assert(by_name@[2].1 == DEFAULT_DND_CHANNEL_ID);
                assert(by_name@[3].1 == FUN_ZONE_BOT_CHANNEL_ID);
                assert(by_name@[4].1 == FUN_ZONE_STREAM_CHANNEL_ID);
            }
        }
        Channels { by_id, by_name }
    }

    /// The chat channel of a Discord channel, if the bot serves it.
    pub fn by_id(&self, channel_id: &u64) -> (r: Option<&Channel>)
        ensures
            match r {
                Some(c) => self.by_id_view().contains_key(*channel_id) && *c == self.by_id_view()[*channel_id],
                None => !self.by_id_view().contains_key(*channel_id),
            },
    {
        self.by_id.get(channel_id)
    }

    /// The Discord channel of a chat channel: the first configured one.
    pub fn by_name(&self, channel: &Channel) -> (r: Option<&u64>)
        ensures
            match r {
                Some(id) => exists|j: int|
                    0 <= j < self.by_name_view().len() && self.by_name_view()[j] == (*channel, *id)
                        && forall|k: int| 0 <= k < j ==> self.by_name_view()[k].0 != *channel,
                None => forall|j: int|
                    0 <= j < self.by_name_view().len() ==> self.by_name_view()[j].0 != *channel,
            },
    {
        let mut i: usize = 0;
        while i < self.by_name.len()
            invariant
                i <= self.by_name.len(),
                forall|k: int| 0 <= k < i ==> self.by_name@[k].0 != *channel,
            decreases self.by_name.len() - i,
        {
            if self.by_name[i].0 == *channel {
                return Some(&self.by_name[i].1);
            }
            i = i + 1;
        }
        None
    }
}

/// Every channel the bot serves can be found again from its Discord
/// channel, and every served Discord channel leads back to it.
pub proof fn lemma_channels_round_trip(c: Channel)
    ensures
        channels_by_id().contains_key(channel_id_of(c)),
        channels_by_id()[channel_id_of(c)] == c,
{
}

/// The author of a Discord message: the bot itself for its own user id,
/// otherwise the user of that name.
pub fn message_user(author_id: u64, author_name: &str) -> (r: User)
    ensures
        author_id == ULTRON_USER_ID ==> r == User::Ultron,
        author_id != ULTRON_USER_ID ==> is_named(r, author_name@),
{
    if author_id == ULTRON_USER_ID {
        User::Ultron
    } else {
        User::from_name(author_name)
    }
}

/// Whether a message is addressed to the bot: it mentions the bot's user
/// or its role.
pub fn mentions_ultron(mentioned_user_ids: &Vec<u64>, content: &str) -> (r: bool)
    ensures
        r == (mentioned_user_ids@.contains(ULTRON_USER_ID) || crate::text::contains_seq(
            content@,
            ULTRON_USER_ID_STR@,
        )),
{
    let mut i: usize = 0;
    while i < mentioned_user_ids.len()
        invariant
            i <= mentioned_user_ids.len(),
            forall|k: int| 0 <= k < i ==> mentioned_user_ids@[k] != ULTRON_USER_ID,
        decreases mentioned_user_ids.len() - i,
    {
        if mentioned_user_ids[i] == ULTRON_USER_ID {
            proof {
                assert(mentioned_user_ids@[i as int] == ULTRON_USER_ID);
            }
            return true;
        }
        i = i + 1;
    }
    let c = chars_of(content);
    let m = chars_of(ULTRON_USER_ID_STR);
    crate::text::contains_chars(&c, &m)
}

/// How a message is handled: messages addressed to the bot go to the
/// language model, the others are plain.
pub fn message_event_type(mentions_bot: bool) -> (r: EventType)
    ensures
        mentions_bot ==> r == EventType::LanguageModel,
        !mentions_bot ==> r == EventType::Plain,
{
    if mentions_bot {
        EventType::LanguageModel
    } else {
        EventType::Plain
    }
}

/// The reply to an event that failed, if any: parse errors with the
/// dice help, language model failures as "brain hurty"; a message
/// without the command prefix gets no reply.
pub open spec fn event_error_reply(e: EventError, detail: Seq<char>) -> Option<Seq<char>> {
    match e {
        EventError::CommandParse(c) => match c {
            CommandParseError::MissingCommand(m) => Some(
                "ya blew it: "@ + m@ + "\n\n"@ + HELP_MESSAGE@,
            ),
            CommandParseError::UndefinedCommand { command, args } => Some(
                "ya blew it: undefined command '"@ + command@ + "' with args "@ + opt_debug(
                    opt_view(args),
                ) + "\n\n"@ + HELP_MESSAGE@,
            ),
            CommandParseError::MissingPrefix(_) => None,
        },
        EventError::Agent(_) => Some("brain hurty: "@ + detail + "\n"@ + HELP_MESSAGE@),
        EventError::DiceRollParse(_) => Some("ya blew it: "@ + detail + "\n\n"@ + HELP_MESSAGE@),
    }
}

/// The reply to an event that failed, if any. The message of a language
/// model or dice failure is the error's own; for a dice expression the
/// parser rejects, that is the parser's details.
pub fn event_error_message(error: &EventError) -> (r: Option<String>)
    ensures
        exists|detail: Seq<char>|
            match #[trigger] event_error_reply(*error, detail) {
                Some(m) => r matches Some(s) && s@ == m,
                None => r is None,
            },
        *error matches EventError::DiceRollParse(DiceRollError::Parse(pe)) ==> r matches Some(s)
            && s@ == event_error_reply(
            *error,
            "failed to parse dice roll from input: "@ + pe.details@,
        )->0,
        *error matches EventError::Agent(a) ==> r matches Some(s) && s@ == event_error_reply(
            *error,
            agent_error_text(a),
        )->0,
{
    match error {
        EventError::CommandParse(c) => match c {
            CommandParseError::MissingCommand(m) => {
                let mut r = String::from_str("ya blew it: ");
                r.append(m.as_str());
                r.append("\n\n");
                r.append(HELP_MESSAGE);
                proof {
                    assert(event_error_reply(*error, seq![]) == Some(r@));
                }
                Some(r)
            },
            CommandParseError::UndefinedCommand { command, args } => {
                let mut r = String::from_str("ya blew it: undefined command '");
                r.append(command.as_str());
                r.append("' with args ");
                r.append(crate::command::debug_option(args).as_str());
                r.append("\n\n");
                r.append(HELP_MESSAGE);
                proof {
                    assert(event_error_reply(*error, seq![]) == Some(r@));
                }
                Some(r)
            },
            CommandParseError::MissingPrefix(_) => {
                proof {
                    assert(event_error_reply(*error, seq![]) is None);
                }
                None
            },
        },
        EventError::Agent(e) => {
            let d = e.to_string();
            let mut r = String::from_str("brain hurty: ");
            r.append(d.as_str());
            r.append("\n");
            r.append(HELP_MESSAGE);
            proof {
                assert(event_error_reply(*error, d@) == Some(r@));
            }
            Some(r)
        },
        EventError::DiceRollParse(e) => {
            let d = e.to_string();
            let mut r = String::from_str("ya blew it: ");
            r.append(d.as_str());
            r.append("\n\n");
            r.append(HELP_MESSAGE);
            proof {
                assert(event_error_reply(*error, d@) == Some(r@));
            }
            Some(r)
        },
    }
}

/// The messages sent for a response: its text split into Discord-sized
/// chunks; an ignored event sends nothing.
pub fn response_chunks(response: &Response) -> (r: Vec<String>)
    ensures
        *response is Ignored ==> r@.len() == 0,
        !(*response is Ignored) ==> string_views(r@) == split_message_spec(
            response_body_spec(*response),
            DISCORD_MAX_MESSAGE_LENGTH as nat,
        ),
{
    match response {
        Response::PlainChat(message) => split_message(message.as_str(), DISCORD_MAX_MESSAGE_LENGTH),
        Response::Bot(bot_message) => {
            let message = bot_message.render_without_thinking_parts();
            split_message(message.as_str(), DISCORD_MAX_MESSAGE_LENGTH)
        },
        Response::Ignored => Vec::new(),
    }
}

/// Why the Discord bot failed.
#[derive(Debug)]
pub enum DiscordBotError {
    ChannelNotConfigured { channel: Channel },
    ChannelNotRecognized { id: u64 },
    CommandParse(CommandParseError),
    MissingAppId,
    MissingToken,
    MissingPublicKey,
    EmptyOwner,
    /// the Discord client failed; its message
    Serenity(String),
    ContentTooLong,
    /// the client's task failed; its message
    JoinError(String),
}

/// The name of a channel as written in messages.
pub open spec fn channel_name(c: Channel) -> Seq<char> {
    match c {
        Channel::Debug => "Debug"@,
        Channel::Psa => "Psa"@,
        Channel::Dnd => "Dnd"@,
        Channel::FunZoneBots => "FunZoneBots"@,
        Channel::FunZoneStream => "FunZoneStream"@,
    }
}

/// The name of a channel as written in messages.
pub fn channel_name_of(c: Channel) -> (r: &'static str)
    ensures
        r@ == channel_name(c),
{
    match c {
        Channel::Debug => "Debug",
        Channel::Psa => "Psa",
        Channel::Dnd => "Dnd",
        Channel::FunZoneBots => "FunZoneBots",
        Channel::FunZoneStream => "FunZoneStream",
    }
}

impl DiscordBotError {
    /// The error's message (`Display` for the error).
    pub fn to_string(&self) -> (r: String)
        ensures
            r@ == match *self {
                DiscordBotError::ChannelNotConfigured { channel } => "channel not configured, `"@
                    + channel_name(channel) + "`"@,
                DiscordBotError::ChannelNotRecognized { id } => "channel not recognized, `"@
                    + crate::text::nat_digits(id as nat) + "`"@,
                DiscordBotError::CommandParse(e) => parse_error_text(parse_error_view(e)),
                DiscordBotError::MissingAppId =>
                    "missing application id. set APP_ID environment variable"@,
                DiscordBotError::MissingToken =>
                    "missing token. set DISCORD_TOKEN environment variable"@,
                DiscordBotError::MissingPublicKey =>
                    "missing public key. set PUBLIC_KEY environment variable"@,
                DiscordBotError::EmptyOwner => "could not get owner from Discord"@,
                DiscordBotError::Serenity(m) => m@,
                DiscordBotError::ContentTooLong => "content is too long"@,
                DiscordBotError::JoinError(m) => m@,
            },
    {
        match self {
            DiscordBotError::ChannelNotConfigured { channel } => {
                let mut r = String::from_str("channel not configured, `");
                r.append(channel_name_of(*channel));
                r.append("`");
                r
            },
            DiscordBotError::ChannelNotRecognized { id } => {
                let mut r = String::from_str("channel not recognized, `");
                r.append(string_of(&crate::text::format_u64(*id)).as_str());
                r.append("`");
                r
            },
            DiscordBotError::CommandParse(e) => e.to_string(),
            DiscordBotError::MissingAppId => String::from_str(
                "missing application id. set APP_ID environment variable",
            ),
            DiscordBotError::MissingToken => String::from_str(
                "missing token. set DISCORD_TOKEN environment variable",
            ),
            DiscordBotError::MissingPublicKey => String::from_str(
                "missing public key. set PUBLIC_KEY environment variable",
            ),
            DiscordBotError::EmptyOwner => String::from_str("could not get owner from Discord"),
            DiscordBotError::Serenity(m) => m.clone(),
            DiscordBotError::ContentTooLong => String::from_str("content is too long"),
            DiscordBotError::JoinError(m) => m.clone(),
        }
    }
}

/// The Discord channel to send a chat channel's messages to.
pub fn send_target(channels: &Channels, channel: Channel) -> (r: Result<u64, DiscordBotError>)
    ensures
        match r {
            Ok(id) => exists|j: int|
                0 <= j < channels.by_name_view().len() && channels.by_name_view()[j] == (channel, id),
            Err(e) => e == (DiscordBotError::ChannelNotConfigured { channel }) && forall|j: int|
                0 <= j < channels.by_name_view().len() ==> channels.by_name_view()[j].0 != channel,
        },
{
    match channels.by_name(&channel) {
        Some(id) => Ok(*id),
        None => Err(DiscordBotError::ChannelNotConfigured { channel }),
    }
}

/// The chat channel of the Discord channel a message came from.
pub fn receive_channel(channels: &Channels, channel_id: u64) -> (r: Result<Channel, DiscordBotError>)
    ensures
        match r {
            Ok(c) => channels.by_id_view().contains_key(channel_id) && c == channels.by_id_view()[channel_id],
            Err(e) => e == (DiscordBotError::ChannelNotRecognized { id: channel_id })
                && !channels.by_id_view().contains_key(channel_id),
        },
{
    match channels.by_id(&channel_id) {
        Some(c) => Ok(*c),
        None => Err(DiscordBotError::ChannelNotRecognized { id: channel_id }),
    }
}

/// The event for a Discord message: it must come from a channel the bot
/// serves; its author is the bot itself or a named user, and a message
/// addressed to the bot is for the language model. The event is read as
/// any chat input (a plain message with the command prefix becomes a
/// command).
pub fn message_event(
    channels: &Channels,
    channel_id: u64,
    author_id: u64,
    author_name: &str,
    mentioned_user_ids: &Vec<u64>,
    content: &str,
) -> (r: Result<Event, DiscordBotError>)
    ensures
        !channels.by_id_view().contains_key(channel_id) ==> r == Err::<Event, DiscordBotError>(
            DiscordBotError::ChannelNotRecognized { id: channel_id },
        ),
        channels.by_id_view().contains_key(channel_id) ==> (r matches Ok(e) && {
            let addressed = mentioned_user_ids@.contains(ULTRON_USER_ID)
                || crate::text::contains_seq(content@, ULTRON_USER_ID_STR@);
            let event_type = if addressed {
                EventType::LanguageModel
            } else {
                EventType::Plain
            };
            &&& (author_id == ULTRON_USER_ID ==> e.user == User::Ultron)
            &&& (author_id != ULTRON_USER_ID ==> is_named(e.user, author_name@))
            &&& e.channel == Channel::Debug
            &&& e.event_type == event_new_spec(content@, event_type).1
            &&& e.content.parts_view().len() == 1
            &&& part_view(e.content.parts_view()[0]) == (false, event_new_spec(content@, event_type).0)
        }),
{
    let channel = receive_channel(channels, channel_id)?;
    let user = message_user(author_id, author_name);
    let event_type = message_event_type(mentions_ultron(mentioned_user_ids, content));
    let chat_input = ChatInput { user, content: String::from_str(content), channel };
    match Event::new(chat_input, event_type) {
        Ok(event) => Ok(event),
        Err(e) => Err(DiscordBotError::CommandParse(e)),
    }
}

} // verus!
