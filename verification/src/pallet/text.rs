//! Scanning of attribute text: blanks, words and the windows between them.
//!
//! A text is a sequence of characters, and every function here works on a
//! window `from..to` of it, so that no text is copied while it is scanned.

use vstd::prelude::*;

verus! {

/// A blank: one of the characters that Rust takes for white space.
pub open spec fn is_space(c: char) -> bool {
    c == ' ' || c == '\t' || c == '\n' || c == '\u{b}' || c == '\u{c}' || c == '\r' || c
        == '\u{85}' || c == '\u{200e}' || c == '\u{200f}' || c == '\u{2028}' || c == '\u{2029}'
}

/// A character of a word: an ASCII letter, a digit, the underscore, or a
/// character beyond ASCII that is no blank. So a word ends where an
/// identifier of Rust ends: beyond ASCII only the characters of identifiers
/// and the blanks stand in Rust source outside of literals and comments.
pub open spec fn is_word_char(c: char) -> bool {
    ('a' <= c && c <= 'z') || ('A' <= c && c <= 'Z') || ('0' <= c && c <= '9') || c == '_' || (c
        > '\u{7f}' && !is_space(c))
}

/// The first place at or behind `from` and before `to` that holds no blank, or
/// `to` if there is none.
pub open spec fn skip_space(s: Seq<char>, from: int, to: int) -> int
    decreases to - from,
{
    if from < to && is_space(s[from]) {
        skip_space(s, from + 1, to)
    } else {
        from
    }
}

/// The end of the window `from..to` once the blanks at its end are cut off.
pub open spec fn trim_space(s: Seq<char>, from: int, to: int) -> int
    decreases to - from,
{
    if from < to && is_space(s[to - 1]) {
        trim_space(s, from, to - 1)
    } else {
        to
    }
}

/// The end of the word that starts at `from`: the first place at or behind
/// `from` and before `to` that holds no character of a word, or `to`.
pub open spec fn word_end(s: Seq<char>, from: int, to: int) -> int
    decreases to - from,
{
    if from < to && is_word_char(s[from]) {
        word_end(s, from + 1, to)
    } else {
        from
    }
}

pub(crate) fn space(c: char) -> (b: bool)
    ensures
        b == is_space(c),
{
    c == ' ' || c == '\t' || c == '\n' || c == '\u{b}' || c == '\u{c}' || c == '\r' || c
        == '\u{85}' || c == '\u{200e}' || c == '\u{200f}' || c == '\u{2028}' || c == '\u{2029}'
}

pub(crate) fn word_char(c: char) -> (b: bool)
    ensures
        b == is_word_char(c),
{
    ('a' <= c && c <= 'z') || ('A' <= c && c <= 'Z') || ('0' <= c && c <= '9') || c == '_' || (c
        > '\u{7f}' && !space(c))
}

/// The characters of a text, one by one.
pub(crate) fn chars_of(text: &str) -> (chars: Vec<char>)
    ensures
        chars@ == text@,
{
    let mut chars: Vec<char> = Vec::new();
    for c in it: text.chars()
        invariant
            it.seq() == text@,
            chars@ == text@.take(it.index() as int),
    {
        chars.push(c);
        assert(text@.take(it.index() + 1) == text@.take(it.index() as int).push(
            text@[it.index() as int],
        ));
    }
    assert(text@.take(text@.len() as int) == text@);
    chars
}

pub(crate) fn skip_spaces(chars: &Vec<char>, from: usize, to: usize) -> (at: usize)
    requires
        from <= to <= chars.len(),
    ensures
        at == skip_space(chars@, from as int, to as int),
        from <= at <= to,
{
    let mut at = from;
    while at < to && space(chars[at])
        invariant
            from <= at <= to <= chars.len(),
            skip_space(chars@, at as int, to as int) == skip_space(chars@, from as int, to as int),
        decreases to - at,
    {
        at = at + 1;
    }
    at
}

pub(crate) fn trim_spaces(chars: &Vec<char>, from: usize, to: usize) -> (end: usize)
    requires
        from <= to <= chars.len(),
    ensures
        end == trim_space(chars@, from as int, to as int),
        from <= end <= to,
{
    let mut end = to;
    while from < end && space(chars[end - 1])
        invariant
            from <= end <= to <= chars.len(),
            trim_space(chars@, from as int, end as int) == trim_space(chars@, from as int, to as int),
        decreases end - from,
    {
        end = end - 1;
    }
    end
}

pub(crate) fn end_of_word(chars: &Vec<char>, from: usize, to: usize) -> (at: usize)
    requires
        from <= to <= chars.len(),
    ensures
        at == word_end(chars@, from as int, to as int),
        from <= at <= to,
{
    let mut at = from;
    while at < to && word_char(chars[at])
        invariant
            from <= at <= to <= chars.len(),
            word_end(chars@, at as int, to as int) == word_end(chars@, from as int, to as int),
        decreases to - at,
    {
        at = at + 1;
    }
    at
}

/// Whether the window `from..to` holds exactly the given word.
pub(crate) fn window_is(chars: &Vec<char>, from: usize, to: usize, word: &str) -> (same: bool)
    requires
        from <= to <= chars.len(),
    ensures
        same == (chars@.subrange(from as int, to as int) == word@),
{
    let mut at = from;
    for c in it: word.chars()
        invariant
            it.seq() == word@,
            from <= at <= to <= chars.len(),
            at == from + it.index(),
            chars@.subrange(from as int, at as int) == word@.take(it.index() as int),
    {
        if at >= to {
            assert(chars@.subrange(from as int, to as int).len() < word@.len());
            return false;
        }
        if chars[at] != c {
            assert(chars@.subrange(from as int, to as int)[it.index() as int] != word@[it.index() as int]);
            return false;
        }
        assert(chars@.subrange(from as int, at + 1) == chars@.subrange(from as int, at as int).push(
            chars@[at as int],
        ));
        assert(word@.take(it.index() + 1) == word@.take(it.index() as int).push(
            word@[it.index() as int],
        ));
        at = at + 1;
    }
    assert(word@.take(word@.len() as int) == word@);
    if at != to {
        assert(chars@.subrange(from as int, to as int).len() != word@.len());
    }
    at == to
}

} // verus!
