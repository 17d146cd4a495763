//! Messages from a language model: text parts and "thinking" sections
//! marked by delimiters such as `<think>` and `</think>`.
use vstd::prelude::*;

use crate::text::{chars_of, join, join_from, push_all, string_of, subvec, views};

verus! {

/// A piece of a language model message.
#[derive(Debug, PartialEq)]
pub enum MessagePart {
    /// a section between thinking delimiters, without the delimiters
    Thinking(String),
    /// ordinary text
    Text(String),
}

/// `(is_thinking, content)` of a part.
pub open spec fn part_view(p: MessagePart) -> (bool, Seq<char>) {
    match p {
        MessagePart::Thinking(t) => (true, t@),
        MessagePart::Text(t) => (false, t@),
    }
}

pub open spec fn opt_part_view(p: Option<MessagePart>) -> Option<(bool, Seq<char>)> {
    match p {
        Some(q) => Some(part_view(q)),
        None => None,
    }
}

/// The text a part was read from: a thinking part between the delimiters.
pub open spec fn part_source(p: (bool, Seq<char>), sd: Seq<char>, ed: Seq<char>) -> Seq<char> {
    if p.0 {
        sd + p.1 + ed
    } else {
        p.1
    }
}

/// The texts of the non-thinking parts, in order.
pub open spec fn visible_texts(ps: Seq<MessagePart>) -> Seq<Seq<char>>
    decreases ps.len(),
{
    if ps.len() == 0 {
        seq![]
    } else {
        let prev = visible_texts(ps.drop_last());
        match ps.last() {
            MessagePart::Text(t) => prev.push(t@),
            MessagePart::Thinking(_) => prev,
        }
    }
}

/// How a part is displayed: thinking parts inside `<think>` tags.
pub open spec fn display_part(p: MessagePart) -> Seq<char> {
    match p {
        MessagePart::Thinking(t) => "<think>"@ + t@ + "</think>"@,
        MessagePart::Text(t) => t@,
    }
}

impl Clone for MessagePart {
    fn clone(&self) -> (r: Self)
        ensures
            r == *self,
    {
        match self {
            MessagePart::Thinking(t) => MessagePart::Thinking(t.clone()),
            MessagePart::Text(t) => MessagePart::Text(t.clone()),
        }
    }
}

/// A message from a language model bot.
#[derive(Debug, PartialEq)]
pub struct LmResponse {
    parts: Vec<MessagePart>,
}

impl Clone for LmResponse {
    fn clone(&self) -> (r: Self)
        ensures
            r.parts_view() == self.parts_view(),
    {
        let mut parts: Vec<MessagePart> = Vec::new();
        let mut i: usize = 0;
        while i < self.parts.len()
            invariant
                i <= self.parts.len(),
                parts@ == self.parts@.take(i as int),
            decreases self.parts.len() - i,
        {
            parts.push(self.parts[i].clone());
            proof {
                assert(parts@ =~= self.parts@.take(i + 1));
            }
            i = i + 1;
        }
        proof {
            assert(self.parts@.take(self.parts.len() as int) =~= self.parts@);
        }
        LmResponse { parts }
    }
}

impl LmResponse {
    /// The parts of the message.
    pub closed spec fn parts_view(&self) -> Seq<MessagePart> {
        self.parts@
    }

    /// A message made of the given parts.
    pub fn from_parts(parts: Vec<MessagePart>) -> (r: LmResponse)
        ensures
            r.parts_view() == parts@,
    {
        LmResponse { parts }
    }

    /// A plain message without any thinking parts.
    pub fn raw(string: &str) -> (r: LmResponse)
        ensures
            r.parts_view().len() == 1,
            part_view(r.parts_view()[0]) == (false, string@),
    {
        let part = MessagePart::Text(String::from_str(string));
        let mut parts: Vec<MessagePart> = Vec::new();
        parts.push(part);
        LmResponse { parts }
    }

    /// The parts of the message.
    pub fn parts(&self) -> (r: &Vec<MessagePart>)
        ensures
            r@ == self.parts_view(),
    {
        &self.parts
    }

    /// The message without its thinking parts: the text parts joined by
    /// newlines.
    pub fn render_without_thinking_parts(&self) -> (r: String)
        ensures
            r@ == join(visible_texts(self.parts_view()), seq!['\n']),
    {
        let mut texts: Vec<Vec<char>> = Vec::new();
        let mut i: usize = 0;
        proof {
            assert(self.parts@.take(0) =~= Seq::<MessagePart>::empty());
            assert(views(texts@) =~= visible_texts(self.parts@.take(0)));
        }
        while i < self.parts.len()
            invariant
                i <= self.parts.len(),
                views(texts@) == visible_texts(self.parts@.take(i as int)),
            decreases self.parts.len() - i,
        {
            let ghost before = views(texts@);
            proof {
                assert(self.parts@.take(i + 1).drop_last() =~= self.parts@.take(i as int));
                assert(self.parts@.take(i + 1).last() == self.parts@[i as int]);
            }
            match &self.parts[i] {
                MessagePart::Text(t) => {
                    texts.push(chars_of(t.as_str()));
                    proof {
                        assert(views(texts@) =~= before.push(t@));
                    }
                },
                MessagePart::Thinking(_) => {},
            }
            i = i + 1;
        }
        proof {
            assert(self.parts@.take(self.parts.len() as int) =~= self.parts@);
            assert(views(texts@).subrange(0, texts.len() as int) =~= views(texts@));
        }
        let sep: Vec<char> = vec!['\n'];
        proof {
            assert(sep@ =~= seq!['\n']);
        }
        string_of(&join_from(&texts, 0, &sep))
    }

    /// The whole message as text: thinking parts inside `<think>` tags,
    /// all parts joined by newlines (`Display` for the message).
    pub fn to_string(&self) -> (r: String)
        ensures
            r@ == join(self.parts_view().map_values(|p: MessagePart| display_part(p)), seq!['\n']),
    {
        let mut shown: Vec<Vec<char>> = Vec::new();
        let mut i: usize = 0;
        while i < self.parts.len()
            invariant
                i <= self.parts.len(),
                views(shown@) == self.parts@.take(i as int).map_values(
                    |p: MessagePart| display_part(p),
                ),
            decreases self.parts.len() - i,
        {
            let ghost before = views(shown@);
            let item: Vec<char> = match &self.parts[i] {
                MessagePart::Text(t) => chars_of(t.as_str()),
                MessagePart::Thinking(t) => {
                    let mut v = chars_of("<think>");
                    push_all(&mut v, &chars_of(t.as_str()));
                    push_all(&mut v, &chars_of("</think>"));
                    v
                },
            };
            shown.push(item);
            proof {
                assert(item@ == display_part(self.parts@[i as int]));
                assert(views(shown@) =~= before.push(item@));
                assert(views(shown@) =~= self.parts@.take(i + 1).map_values(
                    |p: MessagePart| display_part(p),
                ));
            }
            i = i + 1;
        }
        proof {
            assert(self.parts@.take(self.parts.len() as int) =~= self.parts@);
            assert(views(shown@).subrange(0, shown.len() as int) =~= views(shown@));
        }
        let sep: Vec<char> = vec!['\n'];
        proof {
            assert(sep@ =~= seq!['\n']);
        }
        string_of(&join_from(&shown, 0, &sep))
    }
}

// ---------------------------------------------------------------------
// finding and splitting thinking sections
// ---------------------------------------------------------------------

/// `pat` occurs in `s` at index `i`.
pub open spec fn matches_at(s: Seq<char>, pat: Seq<char>, i: int) -> bool {
    0 <= i && i + pat.len() <= s.len() && s.subrange(i, i + pat.len()) == pat
}

/// The first index at or after `k` where `pat` occurs in `s`.
pub open spec fn find_from(s: Seq<char>, pat: Seq<char>, k: nat) -> Option<int>
    decreases s.len() - k,
{
    if k + pat.len() > s.len() {
        None
    } else if matches_at(s, pat, k as int) {
        Some(k as int)
    } else if k >= s.len() {
        None
    } else {
        find_from(s, pat, k + 1)
    }
}

/// The first index where `pat` occurs in `s` (`str::find`).
pub open spec fn find(s: Seq<char>, pat: Seq<char>) -> Option<int> {
    find_from(s, pat, 0)
}

/// The first section before the start delimiter, the thinking section
/// between the start delimiter and the first end delimiter, and the rest
/// after that end delimiter; `None` when either delimiter is missing.
pub open spec fn split_thinking_spec(m: Seq<char>, sd: Seq<char>, ed: Seq<char>) -> Option<
    (Seq<char>, Seq<char>, Seq<char>),
> {
    match (find(m, sd), find(m, ed)) {
        (Some(si), Some(ei)) => Some(
            (
                m.subrange(0, si),
                m.subrange(si + sd.len(), ei),
                m.subrange(ei + ed.len(), m.len() as int),
            ),
        ),
        _ => None,
    }
}

/// The thinking section can be cut out: the first end delimiter does not
/// begin before the first start delimiter ends. (Otherwise the slicing
/// panics.)
pub open spec fn split_is_safe(m: Seq<char>, sd: Seq<char>, ed: Seq<char>) -> bool {
    match (find(m, sd), find(m, ed)) {
        (Some(si), Some(ei)) => si + sd.len() <= ei,
        _ => true,
    }
}

/// Splitting out a thinking section loses nothing: the first section,
/// the start delimiter, the thinking, the end delimiter and the rest make
/// up the message again.
pub proof fn lemma_split_thinking_rebuilds(m: Seq<char>, sd: Seq<char>, ed: Seq<char>)
    requires
        split_is_safe(m, sd, ed),
    ensures
        split_thinking_spec(m, sd, ed) matches Some((a, b, c)) ==> a + sd + b + ed + c == m,
{
    lemma_find_bounds(m, sd, 0);
    lemma_find_bounds(m, ed, 0);
    match (find(m, sd), find(m, ed)) {
        (Some(si), Some(ei)) => {
            let (a, b, c) = split_thinking_spec(m, sd, ed).unwrap();
            assert(m.subrange(si, si + sd.len()) == sd);
            assert(m.subrange(ei, ei + ed.len()) == ed);
            assert(a + sd + b + ed + c =~= m);
        },
        _ => {},
    }
}

proof fn lemma_find_bounds(s: Seq<char>, pat: Seq<char>, k: nat)
    ensures
        find_from(s, pat, k) matches Some(i) ==> k <= i && matches_at(s, pat, i),
    decreases s.len() - k,
{
    if pat.len() == 0 && k <= s.len() {
        assert(s.subrange(k as int, k as int) =~= pat);
    }
    if k + pat.len() <= s.len() && !matches_at(s, pat, k as int) {
        lemma_find_bounds(s, pat, k + 1);
    }
}

/// Whether `pat` occurs in `s` at `k`.
fn match_at(s: &Vec<char>, pat: &Vec<char>, k: usize) -> (r: bool)
    requires
        k + pat.len() <= s.len(),
    ensures
        r == matches_at(s@, pat@, k as int),
{
    let mut j: usize = 0;
    while j < pat.len()
        invariant
            k + pat.len() <= s.len(),
            j <= pat.len(),
            forall|x: int| 0 <= x < j ==> s@[k + x] == pat@[x],
        decreases pat.len() - j,
    {
        if s[k + j] != pat[j] {
            proof {
                assert(s@.subrange(k as int, k + pat.len())[j as int] != pat@[j as int]);
            }
            return false;
        }
        j = j + 1;
    }
    proof {
        assert(s@.subrange(k as int, k + pat.len()) =~= pat@);
    }
    true
}

/// `str::find` on character vectors.
fn find_chars(s: &Vec<char>, pat: &Vec<char>) -> (r: Option<usize>)
    ensures
        match r {
            Some(i) => find(s@, pat@) == Some(i as int),
            None => find(s@, pat@) is None,
        },
{
    if pat.len() > s.len() {
        return None;
    }
    let last = s.len() - pat.len();
    let mut k: usize = 0;
    loop
        invariant
            k <= last,
            last + pat.len() == s.len(),
            find(s@, pat@) == find_from(s@, pat@, k as nat),
        decreases last - k,
    {
        if match_at(s, pat, k) {
            return Some(k);
        }
        if k == last {
            proof {
                assert(find_from(s@, pat@, (k + 1) as nat) is None);
            }
            return None;
        }
        k = k + 1;
    }
}

/// Splits a message into the section before the first start delimiter,
/// the thinking section, and the rest after the first end delimiter.
pub fn split_next_thinking_section(message: &str, start_delim: &str, end_delim: &str) -> (r:
    Option<(String, String, String)>)
    requires
        split_is_safe(message@, start_delim@, end_delim@),
    ensures
        match r {
            Some((a, b, c)) => split_thinking_spec(message@, start_delim@, end_delim@) == Some(
                (a@, b@, c@),
            ),
            None => split_thinking_spec(message@, start_delim@, end_delim@) is None,
        },
{
    let m = chars_of(message);
    let sd = chars_of(start_delim);
    let ed = chars_of(end_delim);
    match split_chars(&m, &sd, &ed) {
        Some((a, b, c)) => Some((string_of(&a), string_of(&b), string_of(&c))),
        None => None,
    }
}

fn split_chars(m: &Vec<char>, sd: &Vec<char>, ed: &Vec<char>) -> (r: Option<
    (Vec<char>, Vec<char>, Vec<char>),
>)
    requires
        split_is_safe(m@, sd@, ed@),
    ensures
        match r {
            Some((a, b, c)) => split_thinking_spec(m@, sd@, ed@) == Some((a@, b@, c@)),
            None => split_thinking_spec(m@, sd@, ed@) is None,
        },
{
    let n = m.len();
    match find_chars(m, sd) {
        None => None,
        Some(si) => match find_chars(m, ed) {
            None => None,
            Some(ei) => {
                proof {
                    lemma_find_bounds(m@, sd@, 0);
                    lemma_find_bounds(m@, ed@, 0);
                    assert(find_from(m@, ed@, 0) == Some(ei as int));
                    assert(matches_at(m@, ed@, ei as int));
                    assert(matches_at(m@, sd@, si as int));
                }
                let a = subvec(m, 0, si);
                let b = subvec(m, si + sd.len(), ei);
                let c = subvec(m, ei + ed.len(), n);
                Some((a, b, c))
            },
        },
    }
}

// ---------------------------------------------------------------------
// iterating over the parts of a message
// ---------------------------------------------------------------------

/// The part that the next step reads from `rest` (the message from the
/// cursor on).
pub open spec fn next_part_spec(rest: Seq<char>, sd: Seq<char>, ed: Seq<char>) -> Option<
    (bool, Seq<char>),
> {
    if rest.len() == 0 {
        None
    } else {
        match split_thinking_spec(rest, sd, ed) {
            Some((first, thinking, _)) => if first.len() > 0 {
                Some((false, first))
            } else {
                Some((true, thinking))
            },
            None => Some((false, rest)),
        }
    }
}

/// How many characters the next step consumes.
pub open spec fn next_advance(rest: Seq<char>, sd: Seq<char>, ed: Seq<char>) -> nat {
    match next_part_spec(rest, sd, ed) {
        Some(p) => part_source(p, sd, ed).len(),
        None => 0,
    }
}

/// Every step from `rest` on can cut out its thinking section, and the
/// steps consume the whole text.
pub open spec fn parts_safe(rest: Seq<char>, sd: Seq<char>, ed: Seq<char>) -> bool
    decreases rest.len(),
{
    if rest.len() == 0 {
        true
    } else {
        &&& split_is_safe(rest, sd, ed)
        &&& next_advance(rest, sd, ed) > 0
        &&& next_advance(rest, sd, ed) <= rest.len()
        &&& parts_safe(rest.skip(next_advance(rest, sd, ed) as int), sd, ed)
    }
}

/// The parts read from `rest` until it is consumed.
pub open spec fn all_parts(rest: Seq<char>, sd: Seq<char>, ed: Seq<char>) -> Seq<
    (bool, Seq<char>),
>
    decreases rest.len(),
{
    if rest.len() == 0 || next_advance(rest, sd, ed) == 0 || next_advance(rest, sd, ed)
        > rest.len() {
        seq![]
    } else {
        seq![next_part_spec(rest, sd, ed).unwrap()] + all_parts(
            rest.skip(next_advance(rest, sd, ed) as int),
            sd,
            ed,
        )
    }
}

/// The parts' sources laid end to end.
pub open spec fn concat_sources(ps: Seq<(bool, Seq<char>)>, sd: Seq<char>, ed: Seq<char>) -> Seq<
    char,
>
    decreases ps.len(),
{
    if ps.len() == 0 {
        seq![]
    } else {
        part_source(ps[0], sd, ed) + concat_sources(ps.drop_first(), sd, ed)
    }
}

/// The step from `rest` reads its part from the front of `rest`.
proof fn lemma_next_reads_prefix(rest: Seq<char>, sd: Seq<char>, ed: Seq<char>)
    requires
        split_is_safe(rest, sd, ed),
    ensures
        next_part_spec(rest, sd, ed) matches Some(p) ==> part_source(p, sd, ed)
            == rest.subrange(0, next_advance(rest, sd, ed) as int),
        next_advance(rest, sd, ed) <= rest.len(),
{
    lemma_find_bounds(rest, sd, 0);
    lemma_find_bounds(rest, ed, 0);
    if rest.len() > 0 {
        match split_thinking_spec(rest, sd, ed) {
            Some((first, thinking, _)) => {
                let si = find(rest, sd).unwrap();
                let ei = find(rest, ed).unwrap();
                if first.len() == 0 {
                    assert(si == 0);
                    assert(rest.subrange(0, sd.len() as int) == sd);
                    assert(rest.subrange(ei, ei + ed.len()) == ed);
                    assert(sd + thinking + ed =~= rest.subrange(0, ei + ed.len()));
                }
            },
            None => {
                assert(rest.subrange(0, rest.len() as int) =~= rest);
            },
        }
    }
}

/// Walks over a message, handing out its text and thinking parts in
/// order.
pub struct MessagePartsIterator {
    message: Vec<char>,
    start_delim: Vec<char>,
    end_delim: Vec<char>,
    cursor: usize,
}

impl MessagePartsIterator {
    pub closed spec fn message(&self) -> Seq<char> {
        self.message@
    }

    pub closed spec fn start_delim(&self) -> Seq<char> {
        self.start_delim@
    }

    pub closed spec fn end_delim(&self) -> Seq<char> {
        self.end_delim@
    }

    pub closed spec fn cursor(&self) -> nat {
        self.cursor as nat
    }

    /// The part of the message not read yet.
    pub open spec fn remaining(&self) -> Seq<char> {
        self.message().subrange(self.cursor() as int, self.message().len() as int)
    }

    pub closed spec fn wf(&self) -> bool {
        self.cursor <= self.message@.len()
    }

    pub fn new(message: &str, start_delim: &str, end_delim: &str) -> (r: Self)
        ensures
            r.wf(),
            r.message() == message@,
            r.start_delim() == start_delim@,
            r.end_delim() == end_delim@,
            r.cursor() == 0,
    {
        MessagePartsIterator {
            message: chars_of(message),
            start_delim: chars_of(start_delim),
            end_delim: chars_of(end_delim),
            cursor: 0,
        }
    }

    /// The next part of the message: the text before the next thinking
    /// section, else the thinking section, else the rest of the message.
    /// The part, read back with its delimiters, is exactly the text the
    /// cursor moves over.
    pub fn next(&mut self) -> (r: Option<MessagePart>)
        requires
            old(self).wf(),
            old(self).remaining().len() > 0 ==> split_is_safe(
                old(self).remaining(),
                old(self).start_delim(),
                old(self).end_delim(),
            ),
        ensures
            final(self).wf(),
            final(self).message() == old(self).message(),
            final(self).start_delim() == old(self).start_delim(),
            final(self).end_delim() == old(self).end_delim(),
            opt_part_view(r) == next_part_spec(
                old(self).remaining(),
                old(self).start_delim(),
                old(self).end_delim(),
            ),
            final(self).cursor() == old(self).cursor() + next_advance(
                old(self).remaining(),
                old(self).start_delim(),
                old(self).end_delim(),
            ),
            r matches Some(p) ==> part_source(
                part_view(p),
                old(self).start_delim(),
                old(self).end_delim(),
            ) == old(self).remaining().subrange(
                0,
                final(self).cursor() - old(self).cursor(),
            ),
    {
        if self.cursor >= self.message.len() {
            return None;
        }
        proof {
            lemma_next_reads_prefix(self.remaining(), self.start_delim@, self.end_delim@);
        }
        let rest = subvec(&self.message, self.cursor, self.message.len());
        match split_chars(&rest, &self.start_delim, &self.end_delim) {
            Some((first, thinking, _rest)) => {
                if first.len() > 0 {
                    self.cursor = self.cursor + first.len();
                    Some(MessagePart::Text(string_of(&first)))
                } else {
                    self.cursor = self.cursor + thinking.len() + self.start_delim.len()
                        + self.end_delim.len();
                    Some(MessagePart::Thinking(string_of(&thinking)))
                }
            },
            None => {
                self.cursor = self.message.len();
                Some(MessagePart::Text(string_of(&rest)))
            },
        }
    }

    /// Whether reading all parts from here on never panics and ends.
    pub fn can_collect(&self) -> (r: bool)
        requires
            self.wf(),
        ensures
            r == parts_safe(self.remaining(), self.start_delim(), self.end_delim()),
    {
        let mut probe = MessagePartsIterator {
            message: self.message.clone(),
            start_delim: self.start_delim.clone(),
            end_delim: self.end_delim.clone(),
            cursor: self.cursor,
        };
        proof {
            assert(probe.message@ == self.message@);
            assert(probe.start_delim@ == self.start_delim@);
            assert(probe.end_delim@ == self.end_delim@);
        }
        loop
            invariant
                probe.wf(),
                probe.message() == self.message(),
                probe.start_delim() == self.start_delim(),
                probe.end_delim() == self.end_delim(),
                parts_safe(self.remaining(), self.start_delim(), self.end_delim()) == parts_safe(
                    probe.remaining(),
                    self.start_delim(),
                    self.end_delim(),
                ),
            decreases probe.message().len() - probe.cursor(),
        {
            let ghost rest = probe.remaining();
            if probe.cursor >= probe.message.len() {
                return true;
            }
            let rest_v = subvec(&probe.message, probe.cursor, probe.message.len());
            if !split_safe_chars(&rest_v, &probe.start_delim, &probe.end_delim) {
                return false;
            }
            let before = probe.cursor;
            probe.next();
            if probe.cursor == before {
                return false;
            }
            proof {
                lemma_next_reads_prefix(rest, self.start_delim(), self.end_delim());
                assert(probe.remaining() =~= rest.skip(
                    next_advance(rest, self.start_delim(), self.end_delim()) as int,
                ));
            }
        }
    }

    /// Reads all remaining parts into a message.
    pub fn collect_response(self) -> (r: LmResponse)
        requires
            self.wf(),
            parts_safe(self.remaining(), self.start_delim(), self.end_delim()),
        ensures
            r.parts_view().map_values(|p: MessagePart| part_view(p)) == all_parts(
                self.remaining(),
                self.start_delim(),
                self.end_delim(),
            ),
    {
        let ghost start = self.remaining();
        let mut it = self;
        let mut parts: Vec<MessagePart> = Vec::new();
        loop
            invariant
                it.wf(),
                start == self.remaining(),
                it.start_delim() == self.start_delim(),
                it.end_delim() == self.end_delim(),
                parts_safe(it.remaining(), self.start_delim(), self.end_delim()),
                all_parts(start, self.start_delim(), self.end_delim()) == parts@.map_values(
                    |p: MessagePart| part_view(p),
                ) + all_parts(it.remaining(), self.start_delim(), self.end_delim()),
            decreases it.message().len() - it.cursor(),
        {
            let ghost rest = it.remaining();
            let ghost before = parts@.map_values(|p: MessagePart| part_view(p));
            match it.next() {
                None => {
                    proof {
                        assert(next_part_spec(rest, self.start_delim(), self.end_delim()) is None);
                        assert(rest.len() == 0);
                        assert(all_parts(rest, self.start_delim(), self.end_delim()) =~= seq![]);
                        assert(before =~= parts@.map_values(|p: MessagePart| part_view(p)));
                        assert(all_parts(start, self.start_delim(), self.end_delim()) =~= before);
                    }
                    let r = LmResponse { parts };
                    proof {
                        assert(r.parts_view() == parts@);
                        assert(start == self.remaining());
                        assert(r.parts_view().map_values(|p: MessagePart| part_view(p)) =~= all_parts(
                            start,
                            self.start_delim(),
                            self.end_delim(),
                        ));
                    }
                    return r;
                },
                Some(p) => {
                    proof {
                        lemma_next_reads_prefix(rest, self.start_delim(), self.end_delim());
                        assert(it.remaining() =~= rest.skip(
                            next_advance(rest, self.start_delim(), self.end_delim()) as int,
                        ));
                    }
                    parts.push(p);
                    proof {
                        assert(parts@.map_values(|p: MessagePart| part_view(p)) =~= before.push(
                            part_view(p),
                        ));
                        assert(all_parts(start, self.start_delim(), self.end_delim()) =~= parts@.map_values(
                            |p: MessagePart| part_view(p),
                        ) + all_parts(it.remaining(), self.start_delim(), self.end_delim()));
                    }
                },
            }
        }
    }
}

/// Whether the thinking section of `m` can be cut out.
fn split_safe_chars(m: &Vec<char>, sd: &Vec<char>, ed: &Vec<char>) -> (r: bool)
    ensures
        r == split_is_safe(m@, sd@, ed@),
{
    match (find_chars(m, sd), find_chars(m, ed)) {
        (Some(si), Some(ei)) => si as u128 + sd.len() as u128 <= ei as u128,
        _ => true,
    }
}

/// Reading all parts and laying their sources (thinking parts with
/// their delimiters) end to end gives back the text that was read.
pub proof fn lemma_parts_rebuild_message(rest: Seq<char>, sd: Seq<char>, ed: Seq<char>)
    requires
        parts_safe(rest, sd, ed),
    ensures
        concat_sources(all_parts(rest, sd, ed), sd, ed) == rest,
    decreases rest.len(),
{
    if rest.len() > 0 {
        let n = next_advance(rest, sd, ed);
        lemma_next_reads_prefix(rest, sd, ed);
        lemma_parts_rebuild_message(rest.skip(n as int), sd, ed);
        let ps = all_parts(rest, sd, ed);
        assert(ps.drop_first() =~= all_parts(rest.skip(n as int), sd, ed));
        assert(rest.subrange(0, n as int) + rest.skip(n as int) =~= rest);
    } else {
        assert(all_parts(rest, sd, ed) =~= seq![]);
    }
}

/// Reading all parts gives at most one part per character, and every
/// text part holds some text.
pub proof fn lemma_parts_bounds(rest: Seq<char>, sd: Seq<char>, ed: Seq<char>)
    requires
        parts_safe(rest, sd, ed),
    ensures
        all_parts(rest, sd, ed).len() <= rest.len(),
        forall|i: int|
            0 <= i < all_parts(rest, sd, ed).len() && !(#[trigger] all_parts(rest, sd, ed)[i]).0
                ==> all_parts(rest, sd, ed)[i].1.len() > 0,
    decreases rest.len(),
{
    if rest.len() > 0 {
        let n = next_advance(rest, sd, ed);
        let tail = rest.skip(n as int);
        lemma_parts_bounds(tail, sd, ed);
        let ps = all_parts(rest, sd, ed);
        let head = next_part_spec(rest, sd, ed).unwrap();
        assert(ps =~= seq![head] + all_parts(tail, sd, ed));
        assert(!head.0 ==> head.1.len() > 0);
        assert forall|i: int| 0 <= i < ps.len() && !(#[trigger] ps[i]).0 implies ps[i].1.len()
            > 0 by {
            if i > 0 {
                assert(ps[i] == all_parts(tail, sd, ed)[i - 1]);
            }
        }
    } else {
        assert(all_parts(rest, sd, ed) =~= seq![]);
    }
}

/// Once the iterator hands out no part, nothing is left to read and the
/// cursor stays put, so every later step hands out no part either.
pub proof fn lemma_no_part_stays_none(rest: Seq<char>, sd: Seq<char>, ed: Seq<char>)
    requires
        next_part_spec(rest, sd, ed) is None,
    ensures
        rest.len() == 0,
        next_advance(rest, sd, ed) == 0,
        next_part_spec(rest.skip(next_advance(rest, sd, ed) as int), sd, ed) is None,
{
    assert(rest.skip(0) =~= rest);
}

} // verus!
