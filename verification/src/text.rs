//! Character-level text handling shared by the parsers: whitespace,
//! trimming, word splitting, joining, and decimal numbers.
//!
//! Text is handled as sequences of `char`s; `String` and `&str` have the
//! same view (`Seq<char>`), so results carry over exactly.
use vstd::prelude::*;
use vstd::std_specs::iter::IteratorSpec;

verus! {

// ---------------------------------------------------------------------
// whitespace and trimming
// ---------------------------------------------------------------------

/// The Unicode `White_Space` property, which `char::is_whitespace`,
/// `str::trim` and `str::split_whitespace` use.
pub open spec fn is_ws(c: char) -> bool {
    let x = c as u32;
    ||| 0x9 <= x <= 0xD
    ||| x == 0x20
    ||| x == 0x85
    ||| x == 0xA0
    ||| x == 0x1680
    ||| 0x2000 <= x <= 0x200A
    ||| x == 0x2028
    ||| x == 0x2029
    ||| x == 0x202F
    ||| x == 0x205F
    ||| x == 0x3000
}

pub fn is_whitespace(c: char) -> (r: bool)
    ensures
        r == is_ws(c),
{
    let x = c as u32;
    (0x9 <= x && x <= 0xD) || x == 0x20 || x == 0x85 || x == 0xA0 || x == 0x1680 || (0x2000 <= x
        && x <= 0x200A) || x == 0x2028 || x == 0x2029 || x == 0x202F || x == 0x205F || x == 0x3000
}

/// `s` without its leading whitespace.
pub open spec fn trim_start(s: Seq<char>) -> Seq<char>
    decreases s.len(),
{
    if s.len() > 0 && is_ws(s[0]) {
        trim_start(s.drop_first())
    } else {
        s
    }
}

/// `s` without its trailing whitespace.
pub open spec fn trim_end(s: Seq<char>) -> Seq<char>
    decreases s.len(),
{
    if s.len() > 0 && is_ws(s.last()) {
        trim_end(s.drop_last())
    } else {
        s
    }
}

/// `s` without leading and trailing whitespace (`str::trim`).
pub open spec fn trim(s: Seq<char>) -> Seq<char> {
    trim_end(trim_start(s))
}

proof fn lemma_trim_start_at(s: Seq<char>, i: int)
    requires
        0 <= i <= s.len(),
        forall|k: int| 0 <= k < i ==> is_ws(#[trigger] s[k]),
        i == s.len() || !is_ws(s[i]),
    ensures
        trim_start(s) == s.subrange(i, s.len() as int),
    decreases i,
{
    if i > 0 {
        lemma_trim_start_at(s.drop_first(), i - 1);
        assert(s.drop_first().subrange(i - 1, s.drop_first().len() as int) =~= s.subrange(
            i,
            s.len() as int,
        ));
    } else {
        assert(s.subrange(0, s.len() as int) =~= s);
    }
}

proof fn lemma_trim_end_at(s: Seq<char>, j: int)
    requires
        0 <= j <= s.len(),
        forall|k: int| j <= k < s.len() ==> is_ws(#[trigger] s[k]),
        j == 0 || !is_ws(s[j - 1]),
    ensures
        trim_end(s) == s.subrange(0, j),
    decreases s.len() - j,
{
    if j < s.len() {
        lemma_trim_end_at(s.drop_last(), j);
        assert(s.drop_last().subrange(0, j) =~= s.subrange(0, j));
    } else {
        assert(s.subrange(0, s.len() as int) =~= s);
    }
}

/// A sequence with no whitespace at either end is its own trim.
pub proof fn lemma_trim_no_edges(s: Seq<char>)
    requires
        s.len() == 0 || (!is_ws(s[0]) && !is_ws(s.last())),
    ensures
        trim(s) == s,
{
    lemma_trim_start_at(s, 0);
    assert(s.subrange(0, s.len() as int) =~= s);
    lemma_trim_end_at(s, s.len() as int);
}

/// A copy of `s[lo..hi]`.
pub fn subvec(s: &Vec<char>, lo: usize, hi: usize) -> (r: Vec<char>)
    requires
        lo <= hi <= s.len(),
    ensures
        r@ == s@.subrange(lo as int, hi as int),
{
    let mut r: Vec<char> = Vec::new();
    let mut k = lo;
    while k < hi
        invariant
            lo <= k <= hi <= s.len(),
            r@ == s@.subrange(lo as int, k as int),
        decreases hi - k,
    {
        r.push(s[k]);
        proof {
            assert(r@ =~= s@.subrange(lo as int, k + 1));
        }
        k = k + 1;
    }
    r
}

/// Appends every character of `src` to `dst`.
pub fn push_all(dst: &mut Vec<char>, src: &Vec<char>)
    ensures
        final(dst)@ == old(dst)@ + src@,
{
    let mut k: usize = 0;
    while k < src.len()
        invariant
            k <= src.len(),
            dst@ == old(dst)@ + src@.subrange(0, k as int),
        decreases src.len() - k,
    {
        dst.push(src[k]);
        proof {
            assert(dst@ =~= old(dst)@ + src@.subrange(0, k + 1));
        }
        k = k + 1;
    }
    proof {
        assert(src@.subrange(0, src.len() as int) =~= src@);
    }
}

/// Index of the first non-whitespace character at or after `from`
/// (the length when there is none).
fn skip_ws(s: &Vec<char>, from: usize) -> (i: usize)
    requires
        from <= s.len(),
    ensures
        from <= i <= s.len(),
        forall|k: int| from <= k < i ==> is_ws(#[trigger] s@[k]),
        i == s.len() || !is_ws(s@[i as int]),
{
    let mut i = from;
    while i < s.len()
        invariant
            from <= i <= s.len(),
            forall|k: int| from <= k < i ==> is_ws(#[trigger] s@[k]),
        decreases s.len() - i,
    {
        if !is_whitespace(s[i]) {
            return i;
        }
        i = i + 1;
    }
    i
}

/// One past the last non-whitespace character at or after `lo`
/// (`lo` when there is none).
fn skip_ws_back(s: &Vec<char>, lo: usize) -> (j: usize)
    requires
        lo <= s.len(),
    ensures
        lo <= j <= s.len(),
        forall|k: int| j <= k < s.len() ==> is_ws(#[trigger] s@[k]),
        j == lo || !is_ws(s@[j - 1]),
{
    let mut j = s.len();
    while j > lo
        invariant
            lo <= j <= s.len(),
            forall|k: int| j <= k < s.len() ==> is_ws(#[trigger] s@[k]),
        decreases j,
    {
        if !is_whitespace(s[j - 1]) {
            return j;
        }
        j = j - 1;
    }
    j
}

/// `str::trim` on a character vector.
pub fn trim_chars(s: &Vec<char>) -> (r: Vec<char>)
    ensures
        r@ == trim(s@),
{
    let i = skip_ws(s, 0);
    let j = skip_ws_back(s, i);
    proof {
        lemma_trim_start_at(s@, i as int);
        let t = s@.subrange(i as int, s.len() as int);
        assert forall|k: int| (j - i) as int <= k < t.len() implies is_ws(#[trigger] t[k]) by {
            assert(t[k] == s@[i + k]);
        }
        if j > i {
            assert(t[j - i - 1] == s@[j - 1]);
        }
        lemma_trim_end_at(t, (j - i) as int);
        assert(t.subrange(0, (j - i) as int) =~= s@.subrange(i as int, j as int));
    }
    subvec(s, i, j)
}

// ---------------------------------------------------------------------
// words
// ---------------------------------------------------------------------

/// The maximal runs of non-whitespace characters of `s`, in order
/// (`str::split_whitespace`).
pub open spec fn words(s: Seq<char>) -> Seq<Seq<char>>
    decreases s.len(),
{
    if s.len() == 0 {
        seq![]
    } else {
        let prev = words(s.drop_last());
        let c = s.last();
        if is_ws(c) {
            prev
        } else if s.len() >= 2 && !is_ws(s[s.len() - 2]) {
            prev.update(prev.len() - 1, prev.last().push(c))
        } else {
            prev.push(seq![c])
        }
    }
}

/// The views of a vector of character vectors.
pub open spec fn views(v: Seq<Vec<char>>) -> Seq<Seq<char>> {
    v.map_values(|w: Vec<char>| w@)
}

/// A word is a non-empty run without whitespace.
pub open spec fn is_word(w: Seq<char>) -> bool {
    w.len() > 0 && forall|k: int| 0 <= k < w.len() ==> !is_ws(#[trigger] w[k])
}

pub proof fn lemma_words_nonempty(s: Seq<char>)
    requires
        s.len() > 0,
        !is_ws(s.last()),
    ensures
        words(s).len() > 0,
    decreases s.len(),
{
    if s.len() >= 2 && !is_ws(s[s.len() - 2]) {
        let t = s.drop_last();
        assert(t.last() == s[s.len() - 2]);
        lemma_words_nonempty(t);
    }
}

/// Every element of `words(s)` is a word.
pub proof fn lemma_words_are_words(s: Seq<char>)
    ensures
        forall|i: int| 0 <= i < words(s).len() ==> is_word(#[trigger] words(s)[i]),
    decreases s.len(),
{
    if s.len() > 0 {
        let t = s.drop_last();
        lemma_words_are_words(t);
        let prev = words(t);
        let c = s.last();
        if !is_ws(c) && s.len() >= 2 && !is_ws(s[s.len() - 2]) {
            assert(t.last() == s[s.len() - 2]);
            lemma_words_nonempty(t);
            let w = prev.last().push(c);
            assert(is_word(prev[prev.len() - 1]));
            assert forall|k: int| 0 <= k < w.len() implies !is_ws(#[trigger] w[k]) by {
                if k < w.len() - 1 {
                    assert(w[k] == prev[prev.len() - 1][k]);
                }
            }
            assert(is_word(w));
            assert forall|i: int| 0 <= i < words(s).len() implies is_word(#[trigger] words(s)[i]) by {
                if i < prev.len() - 1 {
                    assert(words(s)[i] == prev[i]);
                }
            }
        } else if !is_ws(c) {
            assert(is_word(seq![c]));
            assert forall|i: int| 0 <= i < words(s).len() implies is_word(#[trigger] words(s)[i]) by {
                if i < prev.len() {
                    assert(words(s)[i] == prev[i]);
                }
            }
        }
    }
}

/// A word on its own is one word.
pub proof fn lemma_words_of_word(w: Seq<char>)
    requires
        is_word(w),
    ensures
        words(w) == seq![w],
    decreases w.len(),
{
    assert(!is_ws(w[w.len() - 1]));
    if w.len() == 1 {
        assert(w.drop_last() =~= Seq::<char>::empty());
        assert(words(w.drop_last()) =~= Seq::<Seq<char>>::empty());
        assert(seq![w.last()] =~= w);
        assert(words(w) == words(w.drop_last()).push(seq![w.last()]));
    } else {
        let v = w.drop_last();
        assert(is_word(v)) by {
            assert forall|k: int| 0 <= k < v.len() implies !is_ws(#[trigger] v[k]) by {
                assert(v[k] == w[k]);
            }
        }
        lemma_words_of_word(v);
        assert(!is_ws(w[w.len() - 2]));
        assert(v.push(w.last()) =~= w);
        let prev = words(v);
        assert(words(w) == prev.update(prev.len() - 1, prev.last().push(w.last())));
        assert(seq![v].update(0, v.push(w.last())) =~= seq![w]);
    }
}

/// Appending a space and a word adds that word to the words.
pub proof fn lemma_words_space_word(p: Seq<char>, w: Seq<char>)
    requires
        is_word(w),
    ensures
        words(p + seq![' '] + w) == words(p).push(w),
    decreases w.len(),
{
    let q = p + seq![' '];
    assert(q.drop_last() =~= p);
    assert(is_ws(' '));
    assert(q.last() == ' ');
    assert(words(q) == words(p));
    assert(!is_ws(w[w.len() - 1]));
    let s = q + w;
    assert(p + seq![' '] + w =~= s);
    if w.len() == 1 {
        assert(s.drop_last() =~= q);
        assert(s.last() == w[0]);
        assert(s[s.len() - 2] == ' ');
        assert(words(s) == words(q).push(seq![w[0]]));
        assert(seq![w[0]] =~= w);
    } else {
        let v = w.drop_last();
        assert(is_word(v)) by {
            assert forall|k: int| 0 <= k < v.len() implies !is_ws(#[trigger] v[k]) by {
                assert(v[k] == w[k]);
            }
        }
        lemma_words_space_word(p, v);
        assert(s.drop_last() =~= q + v);
        assert(p + seq![' '] + v =~= q + v);
        assert(s.last() == w.last());
        assert(s[s.len() - 2] == v.last());
        assert(!is_ws(w[w.len() - 2]));
        assert(!is_ws(s[s.len() - 2]));
        let prev = words(p).push(v);
        assert(words(s) == prev.update(prev.len() - 1, prev.last().push(w.last())));
        assert(prev.update(prev.len() - 1, prev.last().push(w.last())) =~= words(p).push(w)) by {
            assert(v.push(w.last()) =~= w);
        }
    }
}

/// Words joined by single spaces split back into the same words.
pub proof fn lemma_words_of_joined(ws: Seq<Seq<char>>)
    requires
        forall|i: int| 0 <= i < ws.len() ==> is_word(#[trigger] ws[i]),
    ensures
        words(join(ws, seq![' '])) == ws,
    decreases ws.len(),
{
    if ws.len() == 0 {
        assert(words(join(ws, seq![' '])) =~= ws);
    } else if ws.len() == 1 {
        assert(is_word(ws[0]));
        lemma_words_of_word(ws[0]);
        assert(seq![ws[0]] =~= ws);
    } else {
        let front = ws.drop_last();
        assert forall|i: int| 0 <= i < front.len() implies is_word(#[trigger] front[i]) by {
            assert(front[i] == ws[i]);
        }
        lemma_words_of_joined(front);
        assert(is_word(ws[ws.len() - 1]));
        lemma_words_space_word(join(front, seq![' ']), ws.last());
        assert(front.push(ws.last()) =~= ws);
    }
}

/// `str::split_whitespace` on a character vector.
pub fn split_words(s: &Vec<char>) -> (r: Vec<Vec<char>>)
    ensures
        views(r@) == words(s@),
{
    let mut out: Vec<Vec<char>> = Vec::new();
    let mut i: usize = 0;
    proof {
        assert(s@.subrange(0, 0) =~= Seq::<char>::empty());
        assert(views(out@) =~= words(s@.subrange(0, 0)));
    }
    while i < s.len()
        invariant
            i <= s.len(),
            views(out@) == words(s@.subrange(0, i as int)),
        decreases s.len() - i,
    {
        let c = s[i];
        let ghost t = s@.subrange(0, i + 1);
        let ghost prev = words(s@.subrange(0, i as int));
        proof {
            assert(t.drop_last() =~= s@.subrange(0, i as int));
            assert(t.last() == c);
        }
        if is_whitespace(c) {
        } else if i >= 1 && !is_whitespace(s[i - 1]) {
            proof {
                let u = s@.subrange(0, i as int);
                assert(u.last() == s@[i - 1]);
                lemma_words_nonempty(u);
                assert(t[t.len() - 2] == s@[i - 1]);
            }
            let mut last = out.pop().unwrap();
            last.push(c);
            out.push(last);
            proof {
                assert(views(out@) =~= prev.update(prev.len() - 1, prev.last().push(c)));
            }
        } else {
            let single: Vec<char> = vec![c];
            proof {
                assert(single@ =~= seq![c]);
            }
            out.push(single);
            proof {
                if i >= 1 {
                    assert(t[t.len() - 2] == s@[i - 1]);
                }
                assert(views(out@) =~= prev.push(seq![c]));
            }
        }
        i = i + 1;
    }
    proof {
        assert(s@.subrange(0, s.len() as int) =~= s@);
    }
    out
}

/// The parts joined with `sep` between each two (`[..].join(sep)`).
pub open spec fn join(parts: Seq<Seq<char>>, sep: Seq<char>) -> Seq<char>
    decreases parts.len(),
{
    if parts.len() == 0 {
        seq![]
    } else if parts.len() == 1 {
        parts[0]
    } else {
        join(parts.drop_last(), sep) + sep + parts.last()
    }
}

/// `parts[from..].join(sep)`.
pub fn join_from(parts: &Vec<Vec<char>>, from: usize, sep: &Vec<char>) -> (r: Vec<char>)
    requires
        from <= parts.len(),
    ensures
        r@ == join(views(parts@).subrange(from as int, parts.len() as int), sep@),
{
    let mut r: Vec<char> = Vec::new();
    let mut i = from;
    proof {
        assert(views(parts@).subrange(from as int, from as int) =~= Seq::<Seq<char>>::empty());
    }
    while i < parts.len()
        invariant
            from <= i <= parts.len(),
            r@ == join(views(parts@).subrange(from as int, i as int), sep@),
        decreases parts.len() - i,
    {
        let ghost sub = views(parts@).subrange(from as int, i + 1);
        proof {
            assert(sub.drop_last() =~= views(parts@).subrange(from as int, i as int));
            assert(sub.last() == parts@[i as int]@);
        }
        if i > from {
            push_all(&mut r, sep);
        }
        push_all(&mut r, &parts[i]);
        proof {
            if i == from {
                assert(sub.len() == 1);
                assert(r@ =~= sub[0]);
            }
        }
        i = i + 1;
    }
    r
}

// ---------------------------------------------------------------------
// conversions between text types
// ---------------------------------------------------------------------

/// The characters of `s`, in order.
pub(crate) fn chars_of(s: &str) -> (v: Vec<char>)
    ensures
        v@ == s@,
{
    broadcast use vstd::string::axiom_spec_iter, vstd::string::next_postcondition;

    let mut it = s.chars();
    let mut v: Vec<char> = Vec::new();
    loop
        invariant
            v@ + IteratorSpec::remaining(&it) == s@,
            IteratorSpec::decrease(&it) is Some,
        ensures
            v@ == s@,
        decreases IteratorSpec::decrease(&it)->0,
    {
        match it.next() {
            Some(c) => {
                proof {
                    assert(v@.push(c) + IteratorSpec::remaining(&it) =~= s@);
                }
                v.push(c);
            },
            None => {
                proof {
                    assert(v@ =~= s@);
                }
                break;
            },
        }
    }
    v
}

/// A `String` holding the given characters (`FromIterator<char>` for
/// `String`).
#[verifier::external_body]
pub(crate) fn string_of(v: &Vec<char>) -> (s: String)
    ensures
        s@ == v@,
{
    v.iter().collect()
}

/// Whether two character vectors are equal.
pub fn chars_eq(a: &Vec<char>, b: &Vec<char>) -> (r: bool)
    ensures
        r == (a@ == b@),
{
    if a.len() != b.len() {
        return false;
    }
    let mut k: usize = 0;
    while k < a.len()
        invariant
            a.len() == b.len(),
            k <= a.len(),
            forall|j: int| 0 <= j < k ==> a@[j] == b@[j],
        decreases a.len() - k,
    {
        if a[k] != b[k] {
            return false;
        }
        k = k + 1;
    }
    proof {
        assert(a@ =~= b@);
    }
    true
}

/// Whether `s` holds the same characters as the literal `lit`.
pub fn chars_eq_str(s: &Vec<char>, lit: &str) -> (r: bool)
    ensures
        r == (s@ == lit@),
{
    let l = chars_of(lit);
    chars_eq(s, &l)
}

// ---------------------------------------------------------------------
// decimal numbers
// ---------------------------------------------------------------------

/// The ASCII digit for `d` (taken modulo ten).
pub open spec fn digit_char(d: int) -> char {
    if d == 0 {
        '0'
    } else if d == 1 {
        '1'
    } else if d == 2 {
        '2'
    } else if d == 3 {
        '3'
    } else if d == 4 {
        '4'
    } else if d == 5 {
        '5'
    } else if d == 6 {
        '6'
    } else if d == 7 {
        '7'
    } else if d == 8 {
        '8'
    } else {
        '9'
    }
}

/// The value of an ASCII digit.
pub open spec fn digit_value(c: char) -> int {
    (c as u32) - ('0' as u32)
}

pub open spec fn is_digit(c: char) -> bool {
    '0' <= c && c <= '9'
}

/// Decimal digits of `n`, without leading zeros (`"0"` for zero).
pub open spec fn nat_digits(n: nat) -> Seq<char>
    decreases n,
{
    if n < 10 {
        seq![digit_char(n as int)]
    } else {
        nat_digits(n / 10).push(digit_char((n % 10) as int))
    }
}

/// `n` written in decimal, with a leading `-` when negative (`Display`
/// for the integer types).
pub open spec fn decimal(n: int) -> Seq<char> {
    if n < 0 {
        seq!['-'] + nat_digits((-n) as nat)
    } else {
        nat_digits(n as nat)
    }
}

/// `n` in decimal, padded with zeros after the sign to at least `width`
/// characters (`{:0width$}`).
pub open spec fn decimal_zero_padded(n: int, width: nat) -> Seq<char> {
    let sign: Seq<char> = if n < 0 {
        seq!['-']
    } else {
        seq![]
    };
    let digits = if n < 0 {
        nat_digits((-n) as nat)
    } else {
        nat_digits(n as nat)
    };
    let pad: int = width - sign.len() - digits.len();
    sign + Seq::new(if pad > 0 {
        pad as nat
    } else {
        0
    }, |_i: int| '0') + digits
}

fn digit(d: u64) -> (c: char)
    requires
        d < 10,
    ensures
        c == digit_char(d as int),
{
    if d == 0 {
        '0'
    } else if d == 1 {
        '1'
    } else if d == 2 {
        '2'
    } else if d == 3 {
        '3'
    } else if d == 4 {
        '4'
    } else if d == 5 {
        '5'
    } else if d == 6 {
        '6'
    } else if d == 7 {
        '7'
    } else if d == 8 {
        '8'
    } else {
        '9'
    }
}

/// The decimal digits of `n`.
pub fn format_u64(n: u64) -> (r: Vec<char>)
    ensures
        r@ == nat_digits(n as nat),
    decreases n,
{
    if n < 10 {
        vec![digit(n)]
    } else {
        let mut v = format_u64(n / 10);
        v.push(digit(n % 10));
        v
    }
}

/// `n` in decimal, with a leading `-` when negative.
pub fn format_i64(n: i64) -> (r: Vec<char>)
    ensures
        r@ == decimal(n as int),
{
    if n < 0 {
        let m: u64 = (0 - (n as i128)) as u64;
        let mut v: Vec<char> = vec!['-'];
        let d = format_u64(m);
        push_all(&mut v, &d);
        proof {
            assert(v@ =~= seq!['-'] + nat_digits((-n) as nat));
        }
        v
    } else {
        format_u64(n as u64)
    }
}

/// `n` in decimal, zero padded after the sign to `width` characters.
pub fn format_i64_zero_padded(n: i64, width: usize) -> (r: Vec<char>)
    ensures
        r@ == decimal_zero_padded(n as int, width as nat),
{
    let neg = n < 0;
    let m: u64 = if neg {
        (0 - (n as i128)) as u64
    } else {
        n as u64
    };
    let digits = format_u64(m);
    let sign_len: usize = if neg {
        1
    } else {
        0
    };
    let mut r: Vec<char> = Vec::new();
    if neg {
        r.push('-');
    }
    let ghost sign: Seq<char> = r@;
    let used = digits.len();
    let mut pad: usize = 0;
    if width > used && width - used > sign_len {
        pad = width - used - sign_len;
    }
    let mut k: usize = 0;
    while k < pad
        invariant
            k <= pad,
            r@ == sign + Seq::new(k as nat, |_i: int| '0'),
        decreases pad - k,
    {
        r.push('0');
        proof {
            assert(r@ =~= sign + Seq::new((k + 1) as nat, |_i: int| '0'));
        }
        k = k + 1;
    }
    push_all(&mut r, &digits);
    proof {
        let spec_sign: Seq<char> = if n < 0 {
            seq!['-']
        } else {
            seq![]
        };
        assert(sign =~= spec_sign);
        assert(r@ =~= decimal_zero_padded(n as int, width as nat));
    }
    r
}

/// Why a text is not an `i64` (`std::num::IntErrorKind`).
#[derive(Debug, Clone, Copy, PartialEq, Eq)]
pub enum IntErrorKind {
    Empty,
    InvalidDigit,
    PosOverflow,
    NegOverflow,
}

impl IntErrorKind {
    /// The text that `{:?}` gives for a `ParseIntError` of this kind.
    pub fn debug_text(&self) -> (r: String)
        ensures
            r@ == int_error_debug(*self),
    {
        match self {
            IntErrorKind::Empty => String::from_str("ParseIntError { kind: Empty }"),
            IntErrorKind::InvalidDigit => String::from_str("ParseIntError { kind: InvalidDigit }"),
            IntErrorKind::PosOverflow => String::from_str("ParseIntError { kind: PosOverflow }"),
            IntErrorKind::NegOverflow => String::from_str("ParseIntError { kind: NegOverflow }"),
        }
    }
}

pub open spec fn int_error_debug(k: IntErrorKind) -> Seq<char> {
    match k {
        IntErrorKind::Empty => "ParseIntError { kind: Empty }"@,
        IntErrorKind::InvalidDigit => "ParseIntError { kind: InvalidDigit }"@,
        IntErrorKind::PosOverflow => "ParseIntError { kind: PosOverflow }"@,
        IntErrorKind::NegOverflow => "ParseIntError { kind: NegOverflow }"@,
    }
}

/// Reads the digits `s` into `acc`, left to right, as a non-negative
/// number; the first invalid digit or overflow decides the error.
pub open spec fn accumulate_pos(s: Seq<char>, acc: int) -> Result<int, IntErrorKind>
    decreases s.len(),
{
    if s.len() == 0 {
        Ok(acc)
    } else if !is_digit(s[0]) {
        Err(IntErrorKind::InvalidDigit)
    } else if acc * 10 + digit_value(s[0]) > i64::MAX {
        Err(IntErrorKind::PosOverflow)
    } else {
        accumulate_pos(s.drop_first(), acc * 10 + digit_value(s[0]))
    }
}

/// As `accumulate_pos`, for a number after a minus sign.
pub open spec fn accumulate_neg(s: Seq<char>, acc: int) -> Result<int, IntErrorKind>
    decreases s.len(),
{
    if s.len() == 0 {
        Ok(acc)
    } else if !is_digit(s[0]) {
        Err(IntErrorKind::InvalidDigit)
    } else if acc * 10 - digit_value(s[0]) < i64::MIN {
        Err(IntErrorKind::NegOverflow)
    } else {
        accumulate_neg(s.drop_first(), acc * 10 - digit_value(s[0]))
    }
}

/// What `s.parse::<i64>()` gives: an optional sign, then decimal digits.
pub open spec fn parse_i64_spec(s: Seq<char>) -> Result<int, IntErrorKind> {
    if s.len() == 0 {
        Err(IntErrorKind::Empty)
    } else if (s[0] == '+' || s[0] == '-') && s.len() == 1 {
        Err(IntErrorKind::InvalidDigit)
    } else if s[0] == '+' {
        accumulate_pos(s.drop_first(), 0)
    } else if s[0] == '-' {
        accumulate_neg(s.drop_first(), 0)
    } else {
        accumulate_pos(s, 0)
    }
}

/// The result of `parse_i64` in terms of `parse_i64_spec`.
pub open spec fn parse_i64_matches(r: Result<i64, IntErrorKind>, s: Seq<char>) -> bool {
    match r {
        Ok(v) => parse_i64_spec(s) == Ok::<int, IntErrorKind>(v as int),
        Err(e) => parse_i64_spec(s) == Err::<int, IntErrorKind>(e),
    }
}

proof fn lemma_accumulate_pos_range(s: Seq<char>, acc: int)
    requires
        0 <= acc <= i64::MAX,
    ensures
        accumulate_pos(s, acc) matches Ok(v) ==> 0 <= v <= i64::MAX,
    decreases s.len(),
{
    if s.len() > 0 && is_digit(s[0]) && acc * 10 + digit_value(s[0]) <= i64::MAX {
        lemma_accumulate_pos_range(s.drop_first(), acc * 10 + digit_value(s[0]));
    }
}

proof fn lemma_accumulate_neg_range(s: Seq<char>, acc: int)
    requires
        i64::MIN <= acc <= 0,
    ensures
        accumulate_neg(s, acc) matches Ok(v) ==> i64::MIN <= v <= 0,
    decreases s.len(),
{
    if s.len() > 0 && is_digit(s[0]) && acc * 10 - digit_value(s[0]) >= i64::MIN {
        lemma_accumulate_neg_range(s.drop_first(), acc * 10 - digit_value(s[0]));
    }
}

/// `s[from..]` read as digits into `acc` (non-negative when `neg` is
/// false, non-positive otherwise).
fn accumulate(s: &Vec<char>, from: usize, neg: bool) -> (r: Result<i64, IntErrorKind>)
    requires
        from <= s.len(),
    ensures
        !neg ==> match r {
            Ok(v) => accumulate_pos(s@.subrange(from as int, s.len() as int), 0) == Ok::<
                int,
                IntErrorKind,
            >(v as int),
            Err(e) => accumulate_pos(s@.subrange(from as int, s.len() as int), 0) == Err::<
                int,
                IntErrorKind,
            >(e),
        },
        neg ==> match r {
            Ok(v) => accumulate_neg(s@.subrange(from as int, s.len() as int), 0) == Ok::<
                int,
                IntErrorKind,
            >(v as int),
            Err(e) => accumulate_neg(s@.subrange(from as int, s.len() as int), 0) == Err::<
                int,
                IntErrorKind,
            >(e),
        },
{
    let ghost whole = s@.subrange(from as int, s.len() as int);
    let mut acc: i64 = 0;
    let mut k = from;
    while k < s.len()
        invariant
            from <= k <= s.len(),
            whole == s@.subrange(from as int, s.len() as int),
            !neg ==> 0 <= acc && accumulate_pos(whole, 0) == accumulate_pos(
                s@.subrange(k as int, s.len() as int),
                acc as int,
            ),
            neg ==> acc <= 0 && accumulate_neg(whole, 0) == accumulate_neg(
                s@.subrange(k as int, s.len() as int),
                acc as int,
            ),
        decreases s.len() - k,
    {
        let c = s[k];
        let ghost rest = s@.subrange(k as int, s.len() as int);
        proof {
            assert(rest[0] == c);
            assert(rest.drop_first() =~= s@.subrange(k + 1, s.len() as int));
        }
        if !('0' <= c && c <= '9') {
            return Err(IntErrorKind::InvalidDigit);
        }
        let d: i64 = (c as u32 - '0' as u32) as i64;
        if !neg {
            let next: i128 = (acc as i128) * 10 + (d as i128);
            if next > i64::MAX as i128 {
                return Err(IntErrorKind::PosOverflow);
            }
            acc = next as i64;
        } else {
            let next: i128 = (acc as i128) * 10 - (d as i128);
            if next < i64::MIN as i128 {
                return Err(IntErrorKind::NegOverflow);
            }
            acc = next as i64;
        }
        k = k + 1;
    }
    proof {
        assert(s@.subrange(k as int, s.len() as int) =~= Seq::<char>::empty());
    }
    Ok(acc)
}

/// `s.parse::<i64>()` on a character vector.
pub fn parse_i64(s: &Vec<char>) -> (r: Result<i64, IntErrorKind>)
    ensures
        parse_i64_matches(r, s@),
{
    if s.len() == 0 {
        return Err(IntErrorKind::Empty);
    }
    let first = s[0];
    if (first == '+' || first == '-') && s.len() == 1 {
        return Err(IntErrorKind::InvalidDigit);
    }
    proof {
        assert(s@.subrange(1, s.len() as int) =~= s@.drop_first());
        assert(s@.subrange(0, s.len() as int) =~= s@);
    }
    if first == '+' {
        accumulate(s, 1, false)
    } else if first == '-' {
        accumulate(s, 1, true)
    } else {
        accumulate(s, 0, false)
    }
}

/// Reads the digits `s` into `acc` as an unsigned 64-bit number; the
/// first invalid digit or overflow decides the error.
pub open spec fn accumulate_u64(s: Seq<char>, acc: int) -> Result<int, IntErrorKind>
    decreases s.len(),
{
    if s.len() == 0 {
        Ok(acc)
    } else if !is_digit(s[0]) {
        Err(IntErrorKind::InvalidDigit)
    } else if acc * 10 + digit_value(s[0]) > u64::MAX {
        Err(IntErrorKind::PosOverflow)
    } else {
        accumulate_u64(s.drop_first(), acc * 10 + digit_value(s[0]))
    }
}

/// What `s.parse::<u64>()` gives: an optional `+`, then decimal digits.
pub open spec fn parse_u64_spec(s: Seq<char>) -> Result<int, IntErrorKind> {
    if s.len() == 0 {
        Err(IntErrorKind::Empty)
    } else if (s[0] == '+' || s[0] == '-') && s.len() == 1 {
        Err(IntErrorKind::InvalidDigit)
    } else if s[0] == '+' {
        accumulate_u64(s.drop_first(), 0)
    } else {
        accumulate_u64(s, 0)
    }
}

/// The result of `parse_u64` in terms of `parse_u64_spec`.
pub open spec fn parse_u64_matches(r: Result<u64, IntErrorKind>, s: Seq<char>) -> bool {
    match r {
        Ok(v) => parse_u64_spec(s) == Ok::<int, IntErrorKind>(v as int),
        Err(e) => parse_u64_spec(s) == Err::<int, IntErrorKind>(e),
    }
}

/// `s[from..]` read as an unsigned number.
fn accumulate_unsigned(s: &Vec<char>, from: usize) -> (r: Result<u64, IntErrorKind>)
    requires
        from <= s.len(),
    ensures
        match r {
            Ok(v) => accumulate_u64(s@.subrange(from as int, s.len() as int), 0) == Ok::<
                int,
                IntErrorKind,
            >(v as int),
            Err(e) => accumulate_u64(s@.subrange(from as int, s.len() as int), 0) == Err::<
                int,
                IntErrorKind,
            >(e),
        },
{
    let ghost whole = s@.subrange(from as int, s.len() as int);
    let mut acc: u64 = 0;
    let mut k = from;
    while k < s.len()
        invariant
            from <= k <= s.len(),
            whole == s@.subrange(from as int, s.len() as int),
            accumulate_u64(whole, 0) == accumulate_u64(
                s@.subrange(k as int, s.len() as int),
                acc as int,
            ),
        decreases s.len() - k,
    {
        let c = s[k];
        let ghost rest = s@.subrange(k as int, s.len() as int);
        proof {
            assert(rest[0] == c);
            assert(rest.drop_first() =~= s@.subrange(k + 1, s.len() as int));
        }
        if !('0' <= c && c <= '9') {
            return Err(IntErrorKind::InvalidDigit);
        }
        let d: u64 = (c as u32 - '0' as u32) as u64;
        let next: u128 = (acc as u128) * 10 + (d as u128);
        if next > u64::MAX as u128 {
            return Err(IntErrorKind::PosOverflow);
        }
        acc = next as u64;
        k = k + 1;
    }
    proof {
        assert(s@.subrange(k as int, s.len() as int) =~= Seq::<char>::empty());
    }
    Ok(acc)
}

/// `s.parse::<u64>()` on a character vector.
pub fn parse_u64(s: &Vec<char>) -> (r: Result<u64, IntErrorKind>)
    ensures
        parse_u64_matches(r, s@),
{
    if s.len() == 0 {
        return Err(IntErrorKind::Empty);
    }
    let first = s[0];
    if (first == '+' || first == '-') && s.len() == 1 {
        return Err(IntErrorKind::InvalidDigit);
    }
    proof {
        assert(s@.subrange(1, s.len() as int) =~= s@.drop_first());
        assert(s@.subrange(0, s.len() as int) =~= s@);
    }
    if first == '+' {
        accumulate_unsigned(s, 1)
    } else {
        accumulate_unsigned(s, 0)
    }
}

/// `s.parse::<u64>()`.
pub fn parse_u64_str(s: &str) -> (r: Result<u64, IntErrorKind>)
    ensures
        parse_u64_matches(r, s@),
{
    parse_u64(&chars_of(s))
}

proof fn lemma_digit_char_value(d: int)
    requires
        0 <= d < 10,
    ensures
        is_digit(digit_char(d)),
        digit_value(digit_char(d)) == d,
{
}

/// Reading the decimal digits of `n` and then `rest` continues from `n`.
proof fn lemma_accumulate_nat_digits(n: nat, rest: Seq<char>)
    requires
        n <= u64::MAX,
    ensures
        accumulate_u64(nat_digits(n) + rest, 0) == accumulate_u64(rest, n as int),
    decreases n,
{
    if n < 10 {
        lemma_digit_char_value(n as int);
        let s = nat_digits(n) + rest;
        assert(s[0] == digit_char(n as int));
        assert(s.drop_first() =~= rest);
    } else {
        let d = digit_char((n % 10) as int);
        lemma_digit_char_value((n % 10) as int);
        assert(nat_digits(n) + rest =~= nat_digits(n / 10) + (seq![d] + rest));
        lemma_accumulate_nat_digits(n / 10, seq![d] + rest);
        let t = seq![d] + rest;
        assert(t[0] == d);
        assert(t.drop_first() =~= rest);
        assert((n / 10) * 10 + n % 10 == n) by (nonlinear_arith);
    }
}

/// Parsing the decimal text of a number gives the number back.
pub proof fn lemma_parse_format_u64(n: u64)
    ensures
        parse_u64_spec(nat_digits(n as nat)) == Ok::<int, IntErrorKind>(n as int),
{
    lemma_accumulate_nat_digits(n as nat, seq![]);
    assert(nat_digits(n as nat) + seq![] =~= nat_digits(n as nat));
    lemma_nat_digits_first(n as nat);
    assert(accumulate_u64(Seq::<char>::empty(), n as int) == Ok::<int, IntErrorKind>(n as int));
}

/// Reading the decimal digits of `n` as a non-negative `i64`.
proof fn lemma_accumulate_pos_digits(n: nat, rest: Seq<char>)
    requires
        n <= i64::MAX,
    ensures
        accumulate_pos(nat_digits(n) + rest, 0) == accumulate_pos(rest, n as int),
    decreases n,
{
    if n < 10 {
        lemma_digit_char_value(n as int);
        let s = nat_digits(n) + rest;
        assert(s[0] == digit_char(n as int));
        assert(s.drop_first() =~= rest);
    } else {
        let d = digit_char((n % 10) as int);
        lemma_digit_char_value((n % 10) as int);
        assert(nat_digits(n) + rest =~= nat_digits(n / 10) + (seq![d] + rest));
        lemma_accumulate_pos_digits(n / 10, seq![d] + rest);
        let t = seq![d] + rest;
        assert(t[0] == d);
        assert(t.drop_first() =~= rest);
        assert((n / 10) * 10 + n % 10 == n) by (nonlinear_arith);
    }
}

/// Reading the decimal digits of `n` after a minus sign.
proof fn lemma_accumulate_neg_digits(n: nat, rest: Seq<char>)
    requires
        n <= -(i64::MIN as int),
    ensures
        accumulate_neg(nat_digits(n) + rest, 0) == accumulate_neg(rest, -(n as int)),
    decreases n,
{
    if n < 10 {
        lemma_digit_char_value(n as int);
        let s = nat_digits(n) + rest;
        assert(s[0] == digit_char(n as int));
        assert(s.drop_first() =~= rest);
    } else {
        let d = digit_char((n % 10) as int);
        lemma_digit_char_value((n % 10) as int);
        assert(nat_digits(n) + rest =~= nat_digits(n / 10) + (seq![d] + rest));
        lemma_accumulate_neg_digits(n / 10, seq![d] + rest);
        let t = seq![d] + rest;
        assert(t[0] == d);
        assert(t.drop_first() =~= rest);
        assert((n / 10) * 10 + n % 10 == n) by (nonlinear_arith);
    }
}

/// Every character of the decimal text of a number is a digit.
pub proof fn lemma_nat_digits_all_digits(n: nat)
    ensures
        forall|i: int| 0 <= i < nat_digits(n).len() ==> is_digit(#[trigger] nat_digits(n)[i]),
    decreases n,
{
    if n < 10 {
        lemma_digit_char_value(n as int);
    } else {
        lemma_nat_digits_all_digits(n / 10);
        lemma_digit_char_value((n % 10) as int);
        let p = nat_digits(n / 10);
        assert forall|i: int| 0 <= i < nat_digits(n).len() implies is_digit(
            #[trigger] nat_digits(n)[i],
        ) by {
            if i < p.len() {
                assert(nat_digits(n)[i] == p[i]);
            }
        }
    }
}

/// A digit is no whitespace.
pub proof fn lemma_digit_not_ws(c: char)
    requires
        is_digit(c),
    ensures
        !is_ws(c),
{
}

/// The first `c` at or after `k` is at `j` when `s[j]` is `c` and no
/// `c` comes before it.
pub proof fn lemma_find_char_first(s: Seq<char>, c: char, k: int, j: int)
    requires
        0 <= k <= j < s.len(),
        s[j] == c,
        forall|i: int| k <= i < j ==> s[i] != c,
    ensures
        find_char_from(s, c, k) == Some(j),
    decreases j - k,
{
    if k < j {
        lemma_find_char_first(s, c, k + 1, j);
    }
}

/// There is no `c` at or after `k` when none of those characters is `c`.
pub proof fn lemma_find_char_none(s: Seq<char>, c: char, k: int)
    requires
        0 <= k,
        forall|i: int| k <= i < s.len() ==> s[i] != c,
    ensures
        find_char_from(s, c, k) is None,
    decreases s.len() - k,
{
    if k < s.len() {
        lemma_find_char_none(s, c, k + 1);
    }
}

/// Parsing the decimal text of an `i64` gives the number back.
pub proof fn lemma_parse_format_i64(n: i64)
    ensures
        parse_i64_spec(decimal(n as int)) == Ok::<int, IntErrorKind>(n as int),
{
    if n >= 0 {
        let s = nat_digits(n as nat);
        lemma_nat_digits_first(n as nat);
        lemma_accumulate_pos_digits(n as nat, seq![]);
        assert(s + seq![] =~= s);
        assert(s[0] != '+' && s[0] != '-');
    } else {
        let m = (-(n as int)) as nat;
        let s = seq!['-'] + nat_digits(m);
        lemma_nat_digits_first(m);
        lemma_accumulate_neg_digits(m, seq![]);
        assert(nat_digits(m) + seq![] =~= nat_digits(m));
        assert(s.drop_first() =~= nat_digits(m));
        assert(s[0] == '-');
        assert(decimal(n as int) == s);
    }
}

/// The decimal text of a number is not empty and starts with a digit.
pub proof fn lemma_nat_digits_first(n: nat)
    ensures
        nat_digits(n).len() > 0,
        is_digit(nat_digits(n)[0]),
    decreases n,
{
    if n < 10 {
        lemma_digit_char_value(n as int);
    } else {
        lemma_nat_digits_first(n / 10);
    }
}

/// The index of the first `c` in `s` at or after `k`.
pub open spec fn find_char_from(s: Seq<char>, c: char, k: int) -> Option<int>
    decreases s.len() - k,
{
    if k < 0 || k >= s.len() {
        None
    } else if s[k] == c {
        Some(k)
    } else {
        find_char_from(s, c, k + 1)
    }
}

/// The index of the first `c` in `s` at or after `from`.
pub fn find_char(s: &Vec<char>, c: char, from: usize) -> (r: Option<usize>)
    ensures
        match r {
            Some(i) => find_char_from(s@, c, from as int) == Some(i as int),
            None => find_char_from(s@, c, from as int) is None,
        },
        r matches Some(i) ==> from <= i < s.len() && s@[i as int] == c,
{
    proof {
        lemma_find_char_from_range(s@, c, from as int);
    }
    let mut k = from;
    while k < s.len()
        invariant
            from <= k,
            find_char_from(s@, c, from as int) == find_char_from(s@, c, k as int),
        decreases s.len() - k,
    {
        if s[k] == c {
            return Some(k);
        }
        k = k + 1;
    }
    None
}

/// `s` split at its first `c`, without it (`str::split_once`).
pub open spec fn split_once_spec(s: Seq<char>, c: char) -> Option<(Seq<char>, Seq<char>)> {
    match find_char_from(s, c, 0) {
        Some(i) => Some((s.take(i), s.skip(i + 1))),
        None => None,
    }
}

/// The second of the fields of `s` separated by `c`, if there is one
/// (`s.split(c).nth(1)`).
pub open spec fn second_field(s: Seq<char>, c: char) -> Option<Seq<char>> {
    match find_char_from(s, c, 0) {
        Some(i) => Some(
            match find_char_from(s, c, i + 1) {
                Some(j) => s.subrange(i + 1, j),
                None => s.skip(i + 1),
            },
        ),
        None => None,
    }
}

proof fn lemma_find_char_from_range(s: Seq<char>, c: char, k: int)
    ensures
        find_char_from(s, c, k) matches Some(i) ==> k <= i < s.len() && s[i] == c,
    decreases s.len() - k,
{
    if 0 <= k < s.len() && s[k] != c {
        lemma_find_char_from_range(s, c, k + 1);
    }
}

/// `s.split_once(c)` on a character vector.
pub fn split_once_char(s: &Vec<char>, c: char) -> (r: Option<(Vec<char>, Vec<char>)>)
    ensures
        match r {
            Some((a, b)) => split_once_spec(s@, c) == Some((a@, b@)),
            None => split_once_spec(s@, c) is None,
        },
{
    match find_char(s, c, 0) {
        Some(i) => {
            proof {
                lemma_find_char_from_range(s@, c, 0);
            }
            let a = subvec(s, 0, i);
            let b = subvec(s, i + 1, s.len());
            proof {
                assert(a@ =~= s@.take(i as int));
                assert(b@ =~= s@.skip(i + 1));
            }
            Some((a, b))
        },
        None => None,
    }
}

/// The second field of `s` separated by `c`, if there is one.
pub fn second_field_of(s: &Vec<char>, c: char) -> (r: Option<Vec<char>>)
    ensures
        match r {
            Some(f) => second_field(s@, c) == Some(f@),
            None => second_field(s@, c) is None,
        },
{
    match find_char(s, c, 0) {
        Some(i) => {
            proof {
                lemma_find_char_from_range(s@, c, 0);
            }
            match find_char(s, c, i + 1) {
                Some(j) => {
                    proof {
                        lemma_find_char_from_range(s@, c, i + 1);
                    }
                    Some(subvec(s, i + 1, j))
                },
                None => {
                    let f = subvec(s, i + 1, s.len());
                    proof {
                        assert(f@ =~= s@.skip(i + 1));
                    }
                    Some(f)
                },
            }
        },
        None => None,
    }
}

/// Whether `s` begins with `prefix`.
pub fn starts_with(s: &Vec<char>, prefix: &Vec<char>) -> (r: bool)
    ensures
        r == (prefix@.len() <= s@.len() && s@.take(prefix@.len() as int) == prefix@),
{
    if prefix.len() > s.len() {
        return false;
    }
    let mut k: usize = 0;
    while k < prefix.len()
        invariant
            prefix.len() <= s.len(),
            k <= prefix.len(),
            forall|j: int| 0 <= j < k ==> s@[j] == prefix@[j],
        decreases prefix.len() - k,
    {
        if s[k] != prefix[k] {
            proof {
                assert(s@.take(prefix@.len() as int)[k as int] != prefix@[k as int]);
            }
            return false;
        }
        k = k + 1;
    }
    proof {
        assert(s@.take(prefix@.len() as int) =~= prefix@);
    }
    true
}

/// Whether `pat` occurs anywhere in `s` (`str::contains`).
pub open spec fn contains_seq(s: Seq<char>, pat: Seq<char>) -> bool {
    exists|i: int| 0 <= i && i + pat.len() <= s.len() && #[trigger] s.subrange(i, i + pat.len()) == pat
}

/// Whether `pat` occurs anywhere in `s`.
pub fn contains_chars(s: &Vec<char>, pat: &Vec<char>) -> (r: bool)
    ensures
        r == contains_seq(s@, pat@),
{
    if pat.len() > s.len() {
        return false;
    }
    let last = s.len() - pat.len();
    let mut k: usize = 0;
    loop
        invariant
            k <= last,
            last + pat.len() == s.len(),
            forall|i: int| 0 <= i < k ==> #[trigger] s@.subrange(i, i + pat.len()) != pat@,
        decreases last - k,
    {
        let mut j: usize = 0;
        let mut same = true;
        while j < pat.len()
            invariant
                k + pat.len() <= s.len(),
                j <= pat.len(),
                same ==> forall|x: int| 0 <= x < j ==> s@[k + x] == pat@[x],
                !same ==> s@.subrange(k as int, k + pat.len()) != pat@,
            decreases pat.len() - j,
        {
            if same && s[k + j] != pat[j] {
                same = false;
                proof {
                    assert(s@.subrange(k as int, k + pat.len())[j as int] != pat@[j as int]);
                }
            }
            j = j + 1;
        }
        if same {
            proof {
                assert(s@.subrange(k as int, k + pat.len()) =~= pat@);
            }
            return true;
        }
        if k == last {
            return false;
        }
        k = k + 1;
    }
}

/// The quoted, escaped form that `{:?}` gives for a string.
pub uninterp spec fn str_debug(s: Seq<char>) -> Seq<char>;

/// `format!("{:?}", s)` for a string slice: the text in double quotes,
/// with quotes, backslashes, control and non-printable characters
/// escaped. The exact escaping is the standard library's; this crate
/// only relies on it being a function of the text.
#[verifier::external_body]
pub(crate) fn debug_str(s: &str) -> (r: String)
    ensures
        r@ == str_debug(s@),
{
    format!("{:?}", s)
}

} // verus!
