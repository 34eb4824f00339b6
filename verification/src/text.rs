//! Text primitives: whitespace-separated tokens, prefixes, and numerals.
//!
//! A string is modelled by its sequence of characters. The offsets that functions
//! take and return count bytes; those of the model count characters.

use vstd::prelude::*;
use vstd::utf8::{encode_scalar, encode_utf8};

verus! {

/// Appends one character to the end of a string, as `String::push` documents.
pub assume_specification[ String::push ](s: &mut String, c: char)
    ensures
        final(s)@ == old(s)@.push(c),
;

/// ASCII whitespace as the Rust character classification defines it: space,
/// tab, line feed, form feed, and carriage return.
pub open spec fn is_space(c: char) -> bool {
    c == ' ' || c == '\t' || c == '\n' || c == '\u{c}' || c == '\r'
}

/// The number of leading characters of `s` that are not whitespace.
pub open spec fn word_len(s: Seq<char>) -> int
    decreases s.len(),
{
    if s.len() == 0 || is_space(s[0]) {
        0
    } else {
        1 + word_len(s.skip(1))
    }
}

/// The maximal runs of non-whitespace characters of `s`, each with its offset,
/// where the first character of `s` has offset `at`.
pub open spec fn tokens_at(s: Seq<char>, at: int) -> Seq<(int, Seq<char>)>
    decreases s.len(),
    via tokens_at_decreases
{
    if s.len() == 0 {
        Seq::empty()
    } else if is_space(s[0]) {
        tokens_at(s.skip(1), at + 1)
    } else {
        let n = word_len(s);
        seq![(at, s.take(n))] + tokens_at(s.skip(n), at + n)
    }
}

#[via_fn]
proof fn tokens_at_decreases(s: Seq<char>, at: int) {
    lemma_word_len(s);
}

/// The tokens of `s` with their offsets.
pub open spec fn tokens(s: Seq<char>) -> Seq<(int, Seq<char>)> {
    tokens_at(s, 0)
}

/// The tokens of `s` without their offsets.
pub open spec fn words(s: Seq<char>) -> Seq<Seq<char>> {
    tokens(s).map_values(|t: (int, Seq<char>)| t.1)
}

/// A word is a nonempty run of characters without whitespace.
pub open spec fn is_word(s: Seq<char>) -> bool {
    s.len() > 0 && forall|i: int| 0 <= i < s.len() ==> !is_space(#[trigger] s[i])
}

pub proof fn lemma_word_len(s: Seq<char>)
    ensures
        0 <= word_len(s) <= s.len(),
        s.len() > 0 && !is_space(s[0]) ==> word_len(s) > 0,
        forall|i: int| 0 <= i < word_len(s) ==> !is_space(#[trigger] s[i]),
        word_len(s) < s.len() ==> is_space(s[word_len(s)]),
    decreases s.len(),
{
    if s.len() > 0 && !is_space(s[0]) {
        let t = s.skip(1);
        lemma_word_len(t);
        assert forall|i: int| 0 <= i < word_len(s) implies !is_space(#[trigger] s[i]) by {
            if i > 0 {
                assert(s[i] == t[i - 1]);
            }
        }
        if word_len(s) < s.len() {
            assert(s[word_len(s)] == t[word_len(t)]);
        }
    }
}

/// `word_len` is the only length with its two properties.
pub proof fn lemma_word_len_unique(s: Seq<char>, n: int)
    requires
        0 <= n <= s.len(),
        forall|i: int| 0 <= i < n ==> !is_space(#[trigger] s[i]),
        n < s.len() ==> is_space(s[n]),
    ensures
        word_len(s) == n,
{
    lemma_word_len(s);
    let m = word_len(s);
    if m < n {
        assert(is_space(s[m]));
    }
    if n < m {
        assert(!is_space(s[n]));
    }
}

/// Splitting at a whitespace boundary splits the tokens.
pub proof fn lemma_tokens_concat(a: Seq<char>, b: Seq<char>, at: int)
    requires
        a.len() == 0 || is_space(a.last()) || b.len() == 0 || is_space(b[0]),
    ensures
        tokens_at(a + b, at) == tokens_at(a, at) + tokens_at(b, at + a.len()),
    decreases a.len(),
{
    let ab = a + b;
    if a.len() == 0 {
        assert(ab =~= b);
        assert(tokens_at(a, at) + tokens_at(b, at) =~= tokens_at(b, at));
    } else if is_space(a[0]) {
        assert(ab.skip(1) =~= a.skip(1) + b);
        if a.len() > 1 {
            assert(a.skip(1).last() == a.last());
        }
        lemma_tokens_concat(a.skip(1), b, at + 1);
    } else {
        lemma_word_len(a);
        let n = word_len(a);
        assert forall|i: int| 0 <= i < n implies !is_space(#[trigger] ab[i]) by {
            assert(ab[i] == a[i]);
        }
        if n < ab.len() {
            if n < a.len() {
                assert(ab[n] == a[n]);
            } else {
                assert(ab[n] == b[0]);
                assert(a.last() == a[n - 1]);
            }
        }
        lemma_word_len_unique(ab, n);
        assert(ab.take(n) =~= a.take(n));
        assert(ab.skip(n) =~= a.skip(n) + b);
        if n < a.len() {
            assert(a.skip(n).last() == a.last());
        }
        lemma_tokens_concat(a.skip(n), b, at + n);
        assert(seq![(at, a.take(n))] + (tokens_at(a.skip(n), at + n) + tokens_at(b, at + a.len()))
            =~= (seq![(at, a.take(n))] + tokens_at(a.skip(n), at + n)) + tokens_at(
            b,
            at + a.len(),
        ));
    }
}

/// A word standing alone is its own only token.
pub proof fn lemma_tokens_word(w: Seq<char>, at: int)
    requires
        is_word(w),
    ensures
        tokens_at(w, at) == seq![(at, w)],
{
    lemma_word_len_unique(w, w.len() as int);
    assert(w.take(w.len() as int) =~= w);
    assert(w.skip(w.len() as int).len() == 0);
    assert(tokens_at(w.skip(w.len() as int), at + w.len()) =~= Seq::empty());
    assert(tokens_at(w, at) =~= seq![(at, w)]);
}

/// A blank contributes no token.
pub proof fn lemma_tokens_space(c: char, at: int)
    requires
        is_space(c),
    ensures
        tokens_at(seq![c], at) == Seq::<(int, Seq<char>)>::empty(),
{
    assert(seq![c].skip(1).len() == 0);
    assert(tokens_at(seq![c].skip(1), at + 1) =~= Seq::empty());
}

/// Moving a text shifts the offsets of its tokens and nothing else.
pub proof fn lemma_tokens_shift(s: Seq<char>, at: int, by: int)
    ensures
        tokens_at(s, at + by).len() == tokens_at(s, at).len(),
        forall|i: int|
            0 <= i < tokens_at(s, at).len() ==> (#[trigger] tokens_at(s, at + by)[i]) == (
                tokens_at(s, at)[i].0 + by,
                tokens_at(s, at)[i].1,
            ),
    decreases s.len(),
{
    if s.len() == 0 {
    } else if is_space(s[0]) {
        lemma_tokens_shift(s.skip(1), at + 1, by);
    } else {
        lemma_word_len(s);
        let n = word_len(s);
        lemma_tokens_shift(s.skip(n), at + n, by);
        let rest = tokens_at(s.skip(n), at + n);
        let moved = tokens_at(s.skip(n), at + n + by);
        assert(tokens_at(s, at) == seq![(at, s.take(n))] + rest);
        assert(tokens_at(s, at + by) == seq![(at + by, s.take(n))] + moved);
        assert forall|i: int| 0 <= i < tokens_at(s, at).len() implies (#[trigger] tokens_at(
            s,
            at + by,
        )[i]) == (tokens_at(s, at)[i].0 + by, tokens_at(s, at)[i].1) by {
            if i > 0 {
                assert(tokens_at(s, at)[i] == rest[i - 1]);
                assert(tokens_at(s, at + by)[i] == moved[i - 1]);
            }
        }
    }
}

/// Every token is the word found at its offset, and offsets lie in the text.
pub proof fn lemma_tokens_are_words(s: Seq<char>, at: int)
    ensures
        forall|i: int|
            #![trigger tokens_at(s, at)[i]]
            0 <= i < tokens_at(s, at).len() ==> {
                let t = tokens_at(s, at)[i];
                &&& is_word(t.1)
                &&& at <= t.0
                &&& t.0 + t.1.len() <= at + s.len()
                &&& s.subrange(t.0 - at, t.0 - at + t.1.len()) == t.1
                &&& t.0 == at || is_space(s[t.0 - at - 1])
            },
    decreases s.len(),
{
    if s.len() == 0 {
    } else {
        lemma_word_len(s);
        let n = if is_space(s[0]) { 1int } else { word_len(s) };
        let rest_at = at + n;
        let rest = s.skip(n);
        lemma_tokens_are_words(rest, rest_at);
        let ts = tokens_at(s, at);
        let rs = tokens_at(rest, rest_at);
        let skipped = if is_space(s[0]) { 0int } else { 1int };
        assert forall|i: int| #![trigger ts[i]] 0 <= i < ts.len() implies {
            let t = ts[i];
            &&& is_word(t.1)
            &&& at <= t.0
            &&& t.0 + t.1.len() <= at + s.len()
            &&& s.subrange(t.0 - at, t.0 - at + t.1.len()) == t.1
            &&& t.0 == at || is_space(s[t.0 - at - 1])
        } by {
            if i < skipped {
                assert(ts[i] == (at, s.take(n)));
                assert(s.subrange(0, n) =~= s.take(n));
                assert forall|k: int| 0 <= k < n implies !is_space(#[trigger] s.take(n)[k]) by {
                    assert(s.take(n)[k] == s[k]);
                }
            } else {
                let t = rs[i - skipped];
                assert(ts[i] == t);
                assert(s.subrange(t.0 - at, t.0 - at + t.1.len()) =~= rest.subrange(
                    t.0 - rest_at,
                    t.0 - rest_at + t.1.len(),
                ));
                if t.0 == rest_at {
                    if skipped == 1 {
                        if n < s.len() {
                            assert(is_space(s[n]));
                            assert(t.1[0] == s[n]) by {
                                assert(rest.subrange(0, t.1.len() as int)[0] == rest[0]);
                            }
                            assert(is_word(t.1));
                        }
                        assert(false);
                    }
                } else {
                    assert(s[t.0 - at - 1] == rest[t.0 - rest_at - 1]);
                }
            }
        }
    }
}

/// The characters of a string, in order.
pub fn chars_of(s: &str) -> (chars: Vec<char>)
    ensures
        chars@ == s@,
{
    let mut chars: Vec<char> = Vec::new();
    for c in it: s.chars()
        invariant
            chars@ == s@.take(it.index() as int),
            it.seq() == s@,
    {
        chars.push(c);
        assert(s@.take(it.index() + 1) =~= s@.take(it.index() as int).push(c));
    }
    assert(s@.take(s@.len() as int) =~= s@);
    chars
}

/// The string made of a run of characters.
pub fn string_of(chars: &[char]) -> (s: String)
    ensures
        s@ == chars@,
{
    let mut s = String::new();
    let mut i: usize = 0;
    while i < chars.len()
        invariant
            i <= chars.len(),
            s@ == chars@.take(i as int),
        decreases chars.len() - i,
    {
        s.push(chars[i]);
        assert(chars@.take(i + 1) =~= chars@.take(i as int).push(chars@[i as int]));
        i += 1;
    }
    assert(chars@.take(i as int) =~= chars@);
    s
}

/// The part of a run of characters between two offsets, as a string.
pub fn slice_of(chars: &Vec<char>, from: usize, to: usize) -> (s: String)
    requires
        from <= to <= chars@.len(),
    ensures
        s@ == chars@.subrange(from as int, to as int),
{
    let mut s = String::new();
    let mut i: usize = from;
    while i < to
        invariant
            from <= i <= to <= chars@.len(),
            s@ == chars@.subrange(from as int, i as int),
        decreases to - i,
    {
        s.push(chars[i]);
        assert(chars@.subrange(from as int, i + 1) =~= chars@.subrange(from as int, i as int).push(
            chars@[i as int],
        ));
        i += 1;
    }
    s
}

pub fn char_is_space(c: char) -> (b: bool)
    ensures
        b == is_space(c),
{
    c == ' ' || c == '\t' || c == '\n' || c == '\u{c}' || c == '\r'
}

/// The number of bytes that a text occupies.
pub open spec fn byte_len(s: Seq<char>) -> nat {
    encode_utf8(s).len()
}

/// The tokens of `s`, each with its offset in bytes.
pub open spec fn byte_tokens(s: Seq<char>) -> Seq<(int, Seq<char>)> {
    tokens(s).map_values(|t: (int, Seq<char>)| (byte_len(s.take(t.0)) as int, t.1))
}

/// The bytes of two texts side by side.
pub proof fn lemma_bytes_concat(a: Seq<char>, b: Seq<char>)
    ensures
        encode_utf8(a + b) == encode_utf8(a) + encode_utf8(b),
    decreases a.len(),
{
    if a.len() == 0 {
        assert(a + b =~= b);
        assert(encode_utf8(a) + encode_utf8(b) =~= encode_utf8(b));
    } else {
        lemma_bytes_concat(a.drop_first(), b);
        assert((a + b).drop_first() =~= a.drop_first() + b);
        assert(encode_utf8(a + b) =~= encode_utf8(a) + encode_utf8(b));
    }
}

/// The bytes of a part of a text are a part of its bytes.
pub proof fn lemma_bytes_part(s: Seq<char>, from: int, to: int)
    requires
        0 <= from <= to <= s.len(),
    ensures
        byte_len(s.take(from)) + byte_len(s.subrange(from, to)) == byte_len(s.take(to)),
        byte_len(s.take(to)) <= byte_len(s),
        encode_utf8(s).subrange(byte_len(s.take(from)) as int, byte_len(s.take(to)) as int)
            == encode_utf8(s.subrange(from, to)),
{
    let head = s.take(from);
    let part = s.subrange(from, to);
    let tail = s.skip(to);
    assert(s =~= s.take(to) + tail);
    assert(s.take(to) =~= head + part);
    lemma_bytes_concat(head, part);
    lemma_bytes_concat(s.take(to), tail);
    assert(encode_utf8(s).subrange(byte_len(head) as int, byte_len(s.take(to)) as int)
        =~= encode_utf8(part));
}

/// The bytes of a single character.
pub proof fn lemma_bytes_char(c: char)
    ensures
        encode_utf8(seq![c]) == encode_scalar(c as u32),
        1 <= encode_scalar(c as u32).len() <= 4,
{
    reveal_with_fuel(encode_utf8, 2);
    assert(encode_utf8(seq![c]) =~= encode_scalar(c as u32));
}

/// The number of bytes that a character occupies.
fn char_width(c: char) -> (n: usize)
    ensures
        n == encode_scalar(c as u32).len(),
{
    let code: u32 = c as u32;
    if code <= 0x7f {
        1
    } else if code <= 0x7ff {
        2
    } else if code <= 0xffff {
        3
    } else {
        4
    }
}

/// The offset and the text of each token, seen as mathematical values.
pub open spec fn token_views(ts: Seq<(usize, String)>) -> Seq<(int, Seq<char>)> {
    ts.map_values(|t: (usize, String)| (t.0 as int, t.1@))
}

/// Splits a command line at ASCII whitespace, keeping each token's offset in bytes.
pub fn command_line_tokens(cmdline: &str) -> (out: Vec<(usize, String)>)
    ensures
        token_views(out@) == byte_tokens(cmdline@),
{
    let total: usize = text_byte_len(cmdline);
    let chars = chars_of(cmdline);
    let mut out: Vec<(usize, String)> = Vec::new();
    let mut i: usize = 0;
    let mut at: usize = 0;
    let ghost ts = tokens(chars@);
    assert(chars@.skip(0) =~= chars@);
    assert(ts.skip(0) =~= ts);
    assert(chars@.take(0).len() == 0);
    while i < chars.len()
        invariant
            i <= chars@.len(),
            at == byte_len(chars@.take(i as int)),
            total == byte_len(chars@),
            ts == tokens(chars@),
            out@.len() <= ts.len(),
            ts.skip(out@.len() as int) == tokens_at(chars@.skip(i as int), i as int),
            forall|k: int|
                0 <= k < out@.len() ==> ((#[trigger] out@[k]).0 as int, out@[k].1@)
                    == byte_tokens(chars@)[k],
        decreases chars@.len() - i,
    {
        let ghost rest = chars@.skip(i as int);
        proof {
            lemma_char_step(chars@, i as int);
        }
        if char_is_space(chars[i]) {
            assert(rest.skip(1) =~= chars@.skip(i + 1));
            at = at + char_width(chars[i]);
            i += 1;
        } else {
            let start: usize = i;
            let start_at: usize = at;
            at = at + char_width(chars[i]);
            let mut end: usize = i + 1;
            while end < chars.len() && !char_is_space(chars[end])
                invariant
                    start < end <= chars@.len(),
                    at == byte_len(chars@.take(end as int)),
                    total == byte_len(chars@),
                    forall|k: int| start <= k < end ==> !is_space(#[trigger] chars@[k]),
                decreases chars@.len() - end,
            {
                proof {
                    lemma_char_step(chars@, end as int);
                }
                at = at + char_width(chars[end]);
                end += 1;
            }
            let token = slice_of(&chars, start, end);
            let ghost before = out@;
            proof {
                let n = end - start;
                let k = out@.len() as int;
                assert forall|k: int| 0 <= k < n implies !is_space(#[trigger] rest[k]) by {
                    assert(rest[k] == chars@[start + k]);
                }
                lemma_word_len_unique(rest, n);
                assert(rest.take(n) =~= token@);
                assert(rest.skip(n) =~= chars@.skip(end as int));
                let later = tokens_at(chars@.skip(end as int), end as int);
                assert(ts.skip(k) == seq![(start as int, token@)] + later);
                assert(ts.skip(k).len() == 1 + later.len());
                assert(ts.skip(k)[0] == ts[k]);
                assert(ts.skip(k + 1) =~= later) by {
                    assert forall|j: int| 0 <= j < later.len() implies #[trigger] ts.skip(k + 1)[j]
                        == later[j] by {
                        assert(ts.skip(k)[j + 1] == later[j]);
                    }
                }
            }
            out.push((start_at, token));
            assert forall|k: int| 0 <= k < out@.len() implies ((#[trigger] out@[k]).0 as int, out@[
                k
            ].1@) == byte_tokens(chars@)[k] by {
                if k < before.len() {
                    assert(out@[k] == before[k]);
                }
            }
            i = end;
        }
    }
    assert(chars@.skip(i as int).len() == 0);
    assert(ts.skip(out@.len() as int).len() == 0);
    assert(token_views(out@) =~= byte_tokens(cmdline@));
    out
}

/// One character further into a text.
proof fn lemma_char_step(s: Seq<char>, i: int)
    requires
        0 <= i < s.len(),
    ensures
        byte_len(s.take(i + 1)) == byte_len(s.take(i)) + encode_scalar(s[i] as u32).len(),
        byte_len(s.take(i + 1)) <= byte_len(s),
        encode_utf8(s).subrange(byte_len(s.take(i)) as int, byte_len(s.take(i + 1)) as int)
            == encode_scalar(s[i] as u32),
{
    lemma_bytes_part(s, i, i + 1);
    lemma_bytes_char(s[i]);
    assert(s.subrange(i, i + 1) =~= seq![s[i]]);
}

/// ASCII whitespace among bytes.
pub open spec fn is_space_byte(b: u8) -> bool {
    b == 0x20 || b == 0x09 || b == 0x0a || b == 0x0c || b == 0x0d
}

/// Whitespace is a byte of its own, and no other character holds such a byte.
proof fn lemma_space_bytes(c: char)
    ensures
        is_space(c) ==> encode_scalar(c as u32) == seq![c as u8] && is_space_byte(c as u8),
        !is_space(c) ==> forall|j: int|
            0 <= j < encode_scalar(c as u32).len() ==> !is_space_byte(
                #[trigger] encode_scalar(c as u32)[j],
            ),
{
    let v = c as u32;
    if v <= 0x7f {
        assert(((v & 0x7f) as u8) as u32 == v) by (bit_vector)
            requires
                v <= 0x7f,
        ;
        assert(encode_scalar(v) =~= seq![c as u8]);
    } else {
        assert((0xC0u8 | ((v >> 6) & 0x1F) as u8) >= 0x80 && (0xE0u8 | ((v >> 12) & 0x0F) as u8)
            >= 0x80 && (0xF0u8 | ((v >> 18) & 0x7) as u8) >= 0x80 && (0x80u8 | (v & 0x3F) as u8)
            >= 0x80 && (0x80u8 | ((v >> 6) & 0x3F) as u8) >= 0x80 && (0x80u8 | ((v >> 12)
            & 0x3F) as u8) >= 0x80) by (bit_vector);
    }
}

/// Tokens end at whitespace, stand apart in order, and leave out whitespace alone.
proof fn lemma_tokens_cover(s: Seq<char>, at: int)
    ensures
        forall|i: int|
            #![trigger tokens_at(s, at)[i]]
            0 <= i < tokens_at(s, at).len() ==> {
                let end = tokens_at(s, at)[i].0 + tokens_at(s, at)[i].1.len() - at;
                end == s.len() || is_space(s[end])
            },
        forall|i: int, j: int|
            #![trigger tokens_at(s, at)[i], tokens_at(s, at)[j]]
            0 <= i < j < tokens_at(s, at).len() ==> tokens_at(s, at)[i].0 + tokens_at(
                s,
                at,
            )[i].1.len() < tokens_at(s, at)[j].0,
        forall|k: int|
            0 <= k < s.len() && !is_space(#[trigger] s[k]) ==> exists|i: int|
                #![trigger tokens_at(s, at)[i]]
                0 <= i < tokens_at(s, at).len() && tokens_at(s, at)[i].0 <= at + k < tokens_at(
                    s,
                    at,
                )[i].0 + tokens_at(s, at)[i].1.len(),
    decreases s.len(),
{
    if s.len() > 0 {
        lemma_word_len(s);
        let blank = is_space(s[0]);
        let n = if blank {
            1int
        } else {
            word_len(s)
        };
        let rest = s.skip(n);
        lemma_tokens_cover(rest, at + n);
        lemma_tokens_are_words(rest, at + n);
        let ts = tokens_at(s, at);
        let rs = tokens_at(rest, at + n);
        let skipped = if blank {
            0int
        } else {
            1int
        };
        assert(ts.len() == rs.len() + skipped);
        assert forall|i: int| skipped <= i < ts.len() implies #[trigger] ts[i] == rs[i - skipped] by {
        }
        assert forall|i: int| #![trigger ts[i]] 0 <= i < ts.len() implies {
            let end = ts[i].0 + ts[i].1.len() - at;
            end == s.len() || is_space(s[end])
        } by {
            if i >= skipped {
                let t = rs[i - skipped];
                let end = t.0 + t.1.len() - (at + n);
                if end < rest.len() {
                    assert(s[end + n] == rest[end]);
                }
            }
        }
        assert forall|i: int, j: int| #![trigger ts[i], ts[j]] 0 <= i < j < ts.len() implies ts[i].0
            + ts[i].1.len() < ts[j].0 by {
            let t = rs[j - skipped];
            assert(ts[j] == t);
            if i >= skipped {
                assert(ts[i] == rs[i - skipped]);
            } else {
                assert(ts[i] == (at, s.take(n)));
                if t.0 == at + n {
                    assert(rest.subrange(0, t.1.len() as int)[0] == t.1[0]);
                    assert(t.1[0] == s[n]);
                    assert(is_word(t.1));
                }
            }
        }
        assert forall|k: int| 0 <= k < s.len() && !is_space(#[trigger] s[k]) implies exists|i: int|
            #![trigger ts[i]]
            0 <= i < ts.len() && ts[i].0 <= at + k < ts[i].0 + ts[i].1.len() by {
            if k >= n {
                assert(rest[k - n] == s[k]);
                let i = choose|i: int|
                    #![trigger rs[i]]
                    0 <= i < rs.len() && rs[i].0 <= at + n + (k - n) < rs[i].0 + rs[i].1.len();
                assert(ts[i + skipped] == rs[i]);
            } else {
                assert(ts[0] == (at, s.take(n)));
            }
        }
    }
}

/// Every byte of a text belongs to one of its characters.
proof fn lemma_byte_has_char(s: Seq<char>, k: int)
    requires
        0 <= k < byte_len(s),
    ensures
        exists|j: int|
            0 <= j < s.len() && #[trigger] byte_len(s.take(j)) <= k < byte_len(s.take(j + 1)),
    decreases s.len(),
{
    let last = s.len() - 1;
    if s.len() > 0 {
        assert(s.take(last + 1) =~= s);
        let front = s.take(last);
        if k < byte_len(front) {
            lemma_byte_has_char(front, k);
            let j = choose|j: int|
                0 <= j < front.len() && #[trigger] byte_len(front.take(j)) <= k < byte_len(
                    front.take(j + 1),
                );
            assert(front.take(j) =~= s.take(j));
            assert(front.take(j + 1) =~= s.take(j + 1));
        } else {
            assert(byte_len(s.take(last)) <= k < byte_len(s.take(last + 1)));
        }
    }
}

/// The tokens of a line are the maximal runs of bytes that are not ASCII
/// whitespace: each is found at its offset, ends and begins at whitespace or at an
/// end of the line, and comes after the ones before it, and no other byte is left
/// out.
pub proof fn law_tokens_are_the_runs(s: Seq<char>)
    ensures
        forall|i: int|
            #![trigger byte_tokens(s)[i]]
            0 <= i < byte_tokens(s).len() ==> {
                let bytes = encode_utf8(s);
                let (offset, token) = byte_tokens(s)[i];
                let end = offset + byte_len(token);
                &&& is_word(token)
                &&& 0 <= offset < end <= bytes.len()
                &&& bytes.subrange(offset, end) == encode_utf8(token)
                &&& forall|k: int| offset <= k < end ==> !is_space_byte(#[trigger] bytes[k])
                &&& offset == 0 || is_space_byte(bytes[offset - 1])
                &&& end == bytes.len() || is_space_byte(bytes[end])
            },
        forall|i: int, j: int|
            #![trigger byte_tokens(s)[i], byte_tokens(s)[j]]
            0 <= i < j < byte_tokens(s).len() ==> byte_tokens(s)[i].0 < byte_tokens(s)[j].0,
        forall|k: int|
            0 <= k < byte_len(s) && !is_space_byte(#[trigger] encode_utf8(s)[k]) ==> exists|i: int|
                #![trigger byte_tokens(s)[i]]
                0 <= i < byte_tokens(s).len() && byte_tokens(s)[i].0 <= k < byte_tokens(s)[i].0
                    + byte_len(byte_tokens(s)[i].1),
{
    let bytes = encode_utf8(s);
    let ts = tokens(s);
    let bs = byte_tokens(s);
    lemma_tokens_are_words(s, 0);
    lemma_tokens_cover(s, 0);
    assert forall|i: int| #![trigger bs[i]] 0 <= i < bs.len() implies {
        let (offset, token) = bs[i];
        let end = offset + byte_len(token);
        &&& is_word(token)
        &&& 0 <= offset < end <= bytes.len()
        &&& bytes.subrange(offset, end) == encode_utf8(token)
        &&& forall|k: int| offset <= k < end ==> !is_space_byte(#[trigger] bytes[k])
        &&& offset == 0 || is_space_byte(bytes[offset - 1])
        &&& end == bytes.len() || is_space_byte(bytes[end])
        &&& end == byte_len(s.take(ts[i].0 + ts[i].1.len()))
    } by {
        let (at, token) = ts[i];
        let to = at + token.len();
        let offset = byte_len(s.take(at)) as int;
        let end = offset + byte_len(token);
        lemma_bytes_part(s, at, to);
        lemma_bytes_char(token[0]);
        assert forall|k: int| offset <= k < end implies !is_space_byte(#[trigger] bytes[k]) by {
            lemma_byte_has_char(s, k);
            let j = choose|j: int|
                0 <= j < s.len() && #[trigger] byte_len(s.take(j)) <= k < byte_len(s.take(j + 1));
            if j < at {
                lemma_bytes_part(s, j + 1, at);
            }
            if j >= to {
                lemma_bytes_part(s, to, j);
            }
            assert(s.subrange(at, to)[j - at] == s[j]);
            assert(token[j - at] == s[j]);
            lemma_char_step(s, j);
            lemma_space_bytes(s[j]);
            let from = byte_len(s.take(j)) as int;
            assert(bytes.subrange(from, byte_len(s.take(j + 1)) as int)[k - from] == bytes[k]);
        }
        if at > 0 {
            lemma_char_step(s, at - 1);
            lemma_space_bytes(s[at - 1]);
            assert(bytes.subrange(byte_len(s.take(at - 1)) as int, offset)[0] == bytes[offset - 1]);
        } else {
            assert(s.take(0).len() == 0);
        }
        if to < s.len() {
            lemma_char_step(s, to);
            lemma_space_bytes(s[to]);
            assert(bytes.subrange(end as int, byte_len(s.take(to + 1)) as int)[0] == bytes[end as int]);
        } else {
            assert(s.take(to) =~= s);
        }
    }
    assert forall|i: int, j: int| #![trigger bs[i], bs[j]] 0 <= i < j < bs.len() implies bs[i].0
        < bs[j].0 by {
        let from = ts[i].0 + ts[i].1.len();
        assert(from < ts[j].0);
        lemma_bytes_part(s, from, ts[j].0);
    }
    assert forall|k: int| 0 <= k < byte_len(s) && !is_space_byte(#[trigger] bytes[k]) implies exists|
        i: int,
    |
        #![trigger bs[i]]
        0 <= i < bs.len() && bs[i].0 <= k < bs[i].0 + byte_len(bs[i].1) by {
        lemma_byte_has_char(s, k);
        let j = choose|j: int|
            0 <= j < s.len() && #[trigger] byte_len(s.take(j)) <= k < byte_len(s.take(j + 1));
        lemma_char_step(s, j);
        lemma_space_bytes(s[j]);
        let from = byte_len(s.take(j)) as int;
        assert(bytes.subrange(from, byte_len(s.take(j + 1)) as int)[k - from] == bytes[k]);
        let i = choose|i: int|
            #![trigger ts[i]]
            0 <= i < ts.len() && ts[i].0 <= 0 + j < ts[i].0 + ts[i].1.len();
        let to = ts[i].0 + ts[i].1.len();
        lemma_bytes_part(s, ts[i].0, j);
        lemma_bytes_part(s, j + 1, to);
        assert(bs[i] == (byte_len(s.take(ts[i].0)) as int, ts[i].1));
    }
}

/// The two parts of a text at an offset in bytes that a character begins at.
pub fn split_at_byte(s: &str, at: usize) -> (r: (String, String))
    requires
        exists|k: int| 0 <= k <= s@.len() && #[trigger] byte_len(s@.take(k)) == at,
    ensures
        s@ == r.0@ + r.1@,
        byte_len(r.0@) == at,
{
    let total: usize = text_byte_len(s);
    let chars = chars_of(s);
    let mut i: usize = 0;
    let mut passed: usize = 0;
    assert(s@.take(0).len() == 0);
    while i < chars.len() && passed < at
        invariant
            chars@ == s@,
            i <= chars@.len(),
            total == byte_len(s@),
            passed == byte_len(s@.take(i as int)) <= at,
            exists|k: int| i <= k <= s@.len() && #[trigger] byte_len(s@.take(k)) == at,
        decreases chars@.len() - i,
    {
        proof {
            lemma_char_step(s@, i as int);
            let k = choose|k: int| i <= k <= s@.len() && #[trigger] byte_len(s@.take(k)) == at;
            assert(k > i);
            lemma_bytes_part(s@, i + 1, k);
        }
        passed = passed + char_width(chars[i]);
        i += 1;
    }
    proof {
        let k = choose|k: int| i <= k <= s@.len() && #[trigger] byte_len(s@.take(k)) == at;
        assert(passed == at);
    }
    let head = slice_of(&chars, 0, i);
    let tail = slice_of(&chars, i, chars.len());
    assert(head@ =~= s@.take(i as int));
    assert(s@ =~= head@ + tail@);
    (head, tail)
}

/// The views of a list of strings.
pub open spec fn string_views(v: Seq<String>) -> Seq<Seq<char>> {
    v.map_values(|s: String| s@)
}

/// Splits a text at ASCII whitespace.
pub fn split_words(s: &str) -> (out: Vec<String>)
    ensures
        string_views(out@) == words(s@),
{
    let mut pending = command_line_tokens(s);
    let ghost all = pending@;
    let mut reversed: Vec<String> = Vec::new();
    let mut out: Vec<String> = Vec::new();
    while pending.len() > 0
        invariant
            pending@ == all.take(pending@.len() as int),
            pending@.len() <= all.len(),
            reversed@.len() == all.len() - pending@.len(),
            forall|k: int|
                0 <= k < reversed@.len() ==> (#[trigger] reversed@[k])@ == all[all.len() - 1 - k].1@,
        decreases pending@.len(),
    {
        let ghost before = pending@;
        if let Some((_offset, token)) = pending.pop() {
            assert(token@ == before.last().1@);
            reversed.push(token);
        }
    }
    while reversed.len() > 0
        invariant
            reversed@.len() + out@.len() == all.len(),
            forall|k: int|
                0 <= k < reversed@.len() ==> (#[trigger] reversed@[k])@ == all[all.len() - 1 - k].1@,
            forall|k: int| 0 <= k < out@.len() ==> (#[trigger] out@[k])@ == all[k].1@,
        decreases reversed@.len(),
    {
        let ghost before = reversed@;
        if let Some(token) = reversed.pop() {
            assert(token@ == before.last()@);
            out.push(token);
        }
    }
    proof {
        assert(token_views(all).len() == all.len());
        assert forall|k: int| 0 <= k < all.len() implies #[trigger] string_views(out@)[k] == words(
            s@,
        )[k] by {
            assert(token_views(all)[k] == (all[k].0 as int, all[k].1@));
            assert(byte_tokens(s@)[k].1 == tokens(s@)[k].1);
        }
        assert(string_views(out@) =~= words(s@));
    }
    out
}

/// A copy of an optional text.
pub fn copy_optional(s: &Option<String>) -> (r: Option<String>)
    ensures
        r == *s,
{
    match s {
        Some(s) => Some(s.clone()),
        None => None,
    }
}

/// A copy of a list of texts.
pub fn copy_texts(list: &Vec<String>) -> (out: Vec<String>)
    ensures
        string_views(out@) == string_views(list@),
{
    let mut out: Vec<String> = Vec::new();
    let mut i: usize = 0;
    while i < list.len()
        invariant
            i <= list@.len(),
            out@.len() == i,
            forall|k: int| 0 <= k < i ==> (#[trigger] out@[k])@ == list@[k]@,
        decreases list@.len() - i,
    {
        let copy = list[i].clone();
        out.push(copy);
        i += 1;
    }
    assert(string_views(out@) =~= string_views(list@));
    out
}

/// Whether two texts are the same.
pub fn same_text(a: &str, b: &str) -> (same: bool)
    ensures
        same == (a@ == b@),
{
    a.to_owned() == b.to_owned()
}

/// `s` begins with `prefix`.
pub open spec fn has_prefix(s: Seq<char>, prefix: Seq<char>) -> bool {
    prefix.len() <= s.len() && s.take(prefix.len() as int) == prefix
}

/// `s` ends with `suffix`.
pub open spec fn has_suffix(s: Seq<char>, suffix: Seq<char>) -> bool {
    suffix.len() <= s.len() && s.skip(s.len() - suffix.len()) == suffix
}

pub fn starts_with(s: &str, prefix: &str) -> (b: bool)
    ensures
        b == has_prefix(s@, prefix@),
{
    let chars = chars_of(s);
    let expected = chars_of(prefix);
    if expected.len() > chars.len() {
        return false;
    }
    let mut i: usize = 0;
    while i < expected.len()
        invariant
            i <= expected@.len() <= chars@.len(),
            chars@ == s@,
            expected@ == prefix@,
            forall|k: int| 0 <= k < i ==> chars@[k] == #[trigger] expected@[k],
        decreases expected@.len() - i,
    {
        if chars[i] != expected[i] {
            assert(s@.take(prefix@.len() as int)[i as int] != prefix@[i as int]);
            return false;
        }
        i += 1;
    }
    assert(s@.take(prefix@.len() as int) =~= prefix@);
    true
}

pub fn contains_char(s: &str, c: char) -> (b: bool)
    ensures
        b == s@.contains(c),
{
    let chars = chars_of(s);
    let mut i: usize = 0;
    while i < chars.len()
        invariant
            i <= chars@.len(),
            chars@ == s@,
            forall|k: int| 0 <= k < i ==> #[trigger] chars@[k] != c,
        decreases chars@.len() - i,
    {
        if chars[i] == c {
            assert(s@[i as int] == c);
            return true;
        }
        i += 1;
    }
    false
}

/// The text before and after the first occurrence of a character.
pub open spec fn split_at_first(s: Seq<char>, c: char) -> Option<(Seq<char>, Seq<char>)> {
    if s.contains(c) {
        let i = s.index_of_first(c)->0;
        Some((s.take(i), s.skip(i + 1)))
    } else {
        None
    }
}

/// An optional pair of strings, seen as mathematical values.
pub open spec fn pair_view(p: Option<(String, String)>) -> Option<(Seq<char>, Seq<char>)> {
    match p {
        Some((a, b)) => Some((a@, b@)),
        None => None,
    }
}

/// Splits a text at the first occurrence of a character.
pub fn split_once(s: &str, c: char) -> (r: Option<(String, String)>)
    ensures
        pair_view(r) == split_at_first(s@, c),
{
    let chars = chars_of(s);
    let mut i: usize = 0;
    while i < chars.len()
        invariant
            i <= chars@.len(),
            chars@ == s@,
            forall|k: int| 0 <= k < i ==> #[trigger] chars@[k] != c,
        decreases chars@.len() - i,
    {
        if chars[i] == c {
            proof {
                assert(s@[i as int] == c);
                s@.index_of_first_ensures(c);
                assert(s@.index_of_first(c) == Some(i as int));
                assert(s@.subrange(0, i as int) =~= s@.take(i as int));
                assert(s@.subrange(i + 1, s@.len() as int) =~= s@.skip(i + 1));
            }
            let before = slice_of(&chars, 0, i);
            let after = slice_of(&chars, i + 1, chars.len());
            return Some((before, after));
        }
        i += 1;
    }
    None
}

pub fn text_byte_len(s: &str) -> (n: usize)
    ensures
        n == byte_len(s@),
{
    s.as_bytes().len()
}

/// The members of a list that begin with a prefix, in order.
pub open spec fn with_prefix(list: Seq<Seq<char>>, prefix: Seq<char>) -> Seq<Seq<char>>
    decreases list.len(),
{
    if list.len() == 0 {
        Seq::empty()
    } else if has_prefix(list.last(), prefix) {
        with_prefix(list.drop_last(), prefix).push(list.last())
    } else {
        with_prefix(list.drop_last(), prefix)
    }
}

pub proof fn lemma_with_prefix_concat(a: Seq<Seq<char>>, b: Seq<Seq<char>>, prefix: Seq<char>)
    ensures
        with_prefix(a + b, prefix) == with_prefix(a, prefix) + with_prefix(b, prefix),
    decreases b.len(),
{
    if b.len() == 0 {
        assert(a + b =~= a);
        assert(with_prefix(a, prefix) + with_prefix(b, prefix) =~= with_prefix(a, prefix));
    } else {
        assert((a + b).drop_last() =~= a + b.drop_last());
        assert((a + b).last() == b.last());
        lemma_with_prefix_concat(a, b.drop_last(), prefix);
        assert(with_prefix(a + b, prefix) =~= with_prefix(a, prefix) + with_prefix(b, prefix));
    }
}

/// A list none of whose members begins with a prefix, and one all of whose
/// members do.
pub proof fn lemma_with_prefix_uniform(list: Seq<Seq<char>>, prefix: Seq<char>)
    ensures
        (forall|i: int| 0 <= i < list.len() ==> !has_prefix(#[trigger] list[i], prefix))
            <==> with_prefix(list, prefix).len() == 0,
        (forall|i: int| 0 <= i < list.len() ==> has_prefix(#[trigger] list[i], prefix))
            ==> with_prefix(list, prefix) == list,
    decreases list.len(),
{
    if list.len() > 0 {
        let front = list.drop_last();
        lemma_with_prefix_uniform(front, prefix);
        assert(forall|i: int| 0 <= i < front.len() ==> front[i] == #[trigger] list[i]);
        if with_prefix(list, prefix).len() == 0 {
            assert forall|i: int| 0 <= i < list.len() implies !has_prefix(
                #[trigger] list[i],
                prefix,
            ) by {
                if i < front.len() {
                    assert(front[i] == list[i]);
                }
            }
        }
        if forall|i: int| 0 <= i < list.len() ==> has_prefix(#[trigger] list[i], prefix) {
            assert forall|i: int| 0 <= i < front.len() implies has_prefix(
                #[trigger] front[i],
                prefix,
            ) by {
                assert(front[i] == list[i]);
            }
            assert(list =~= front.push(list.last()));
        }
        if forall|i: int| 0 <= i < list.len() ==> !has_prefix(#[trigger] list[i], prefix) {
            assert forall|i: int| 0 <= i < front.len() implies !has_prefix(
                #[trigger] front[i],
                prefix,
            ) by {
                assert(front[i] == list[i]);
            }
        }
    }
}

/// The members of a list that begin with a prefix, in order.
pub fn select_prefix(list: &Vec<String>, prefix: &str) -> (out: Vec<String>)
    ensures
        string_views(out@) == with_prefix(string_views(list@), prefix@),
{
    let mut out: Vec<String> = Vec::new();
    let mut i: usize = 0;
    let ghost all = string_views(list@);
    assert(string_views(out@) =~= with_prefix(all.take(0), prefix@));
    while i < list.len()
        invariant
            i <= list@.len(),
            all == string_views(list@),
            string_views(out@) == with_prefix(all.take(i as int), prefix@),
        decreases list@.len() - i,
    {
        proof {
            assert(all.take(i + 1).drop_last() =~= all.take(i as int));
            assert(all.take(i + 1).last() == list@[i as int]@);
        }
        if starts_with(list[i].as_str(), prefix) {
            let ghost before = string_views(out@);
            let token = list[i].clone();
            out.push(token);
            assert(string_views(out@) =~= before.push(list@[i as int]@));
        }
        i += 1;
    }
    assert(all.take(i as int) =~= all);
    out
}

/// Whether two lists hold the same texts.
pub fn same_texts(a: &Vec<String>, b: &Vec<String>) -> (same: bool)
    ensures
        same == (string_views(a@) == string_views(b@)),
{
    if a.len() != b.len() {
        assert(string_views(a@).len() != string_views(b@).len());
        return false;
    }
    let mut i: usize = 0;
    while i < a.len()
        invariant
            i <= a@.len() == b@.len(),
            forall|k: int| 0 <= k < i ==> (#[trigger] a@[k])@ == b@[k]@,
        decreases a@.len() - i,
    {
        if !same_text(a[i].as_str(), b[i].as_str()) {
            assert(string_views(a@)[i as int] != string_views(b@)[i as int]);
            return false;
        }
        i += 1;
    }
    assert(string_views(a@) =~= string_views(b@));
    true
}

/// A list begins with another.
pub open spec fn list_has_prefix(list: Seq<Seq<char>>, prefix: Seq<Seq<char>>) -> bool {
    prefix.len() <= list.len() && list.take(prefix.len() as int) == prefix
}

pub fn list_starts_with(list: &Vec<String>, prefix: &Vec<String>) -> (b: bool)
    ensures
        b == list_has_prefix(string_views(list@), string_views(prefix@)),
{
    if prefix.len() > list.len() {
        return false;
    }
    let ghost all = string_views(list@);
    let ghost expected = string_views(prefix@);
    let mut i: usize = 0;
    while i < prefix.len()
        invariant
            i <= prefix@.len() <= list@.len(),
            all == string_views(list@),
            expected == string_views(prefix@),
            forall|k: int| 0 <= k < i ==> #[trigger] all[k] == expected[k],
        decreases prefix@.len() - i,
    {
        if !same_text(list[i].as_str(), prefix[i].as_str()) {
            assert(all.take(expected.len() as int)[i as int] != expected[i as int]);
            return false;
        }
        i += 1;
    }
    assert(all.take(expected.len() as int) =~= expected);
    true
}

/// Appends one text to another.
pub fn push_text(out: &mut String, s: &str)
    ensures
        final(out)@ == old(out)@ + s@,
{
    out.append(s);
}

} // verus!
