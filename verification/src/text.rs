//! Reading the text of a command: trimming it and cutting it at a space.

use vstd::prelude::*;
use vstd::string::*;
use vstd::std_specs::iter::IteratorSpec;

verus! {

/// Whether `c` is white space: what `char::is_whitespace` of the standard
/// library answers for it.
pub uninterp spec fn is_whitespace(c: char) -> bool;

/// `char::is_whitespace`: whether `c` has the Unicode property White_Space.
/// The answer depends on `c` alone; the contract gives it a name and claims
/// nothing else of it.
#[verifier::external_body]
pub(crate) fn char_is_whitespace(c: char) -> (white: bool)
    ensures
        white == is_whitespace(c),
{
    c.is_whitespace()
}

/// The first position at or after `from` at which `s` has no white space;
/// the length of `s` if white space is all that follows.
pub open spec fn skip_whitespace(s: Seq<char>, from: int) -> int
    decreases s.len() - from,
{
    if 0 <= from < s.len() && is_whitespace(s[from]) {
        skip_whitespace(s, from + 1)
    } else {
        from
    }
}

/// The end of the last stretch before `to` that does not end in white
/// space; zero if white space is all that comes before.
pub open spec fn skip_whitespace_back(s: Seq<char>, to: int) -> int
    decreases to,
{
    if 0 < to <= s.len() && is_whitespace(s[to - 1]) {
        skip_whitespace_back(s, to - 1)
    } else {
        to
    }
}

/// `s` without the white space at its start and at its end.
pub open spec fn trimmed(s: Seq<char>) -> Seq<char> {
    let from = skip_whitespace(s, 0);
    let to = skip_whitespace_back(s, s.len() as int);
    if from < to {
        s.subrange(from, to)
    } else {
        Seq::empty()
    }
}

/// What stands before the first space of `s`: all of `s` if it has none.
pub open spec fn before_space(s: Seq<char>) -> Seq<char> {
    match s.index_of_first(' ') {
        Some(at) => s.subrange(0, at),
        None => s,
    }
}

/// What stands after the first space of `s`, if it has one. Further spaces
/// belong to it.
pub open spec fn after_space(s: Seq<char>) -> Option<Seq<char>> {
    match s.index_of_first(' ') {
        Some(at) => Some(s.subrange(at + 1, s.len() as int)),
        None => None,
    }
}

/// The characters of `text`, one by one.
pub fn chars_of(text: &str) -> (chars: Vec<char>)
    ensures
        chars@ == text@,
{
    let mut chars: Vec<char> = Vec::new();
    for c in it: text.chars()
        invariant
            it.seq() == text@,
            chars@ == it.seq().take(it.index() as int),
    {
        chars.push(c);
    }
    chars
}

proof fn lemma_skip_back_bounds(s: Seq<char>, to: int)
    requires
        0 <= to <= s.len(),
    ensures
        0 <= skip_whitespace_back(s, to) <= to,
    decreases to,
{
    if 0 < to && is_whitespace(s[to - 1]) {
        lemma_skip_back_bounds(s, to - 1);
    }
}

proof fn lemma_skip_back_stops(s: Seq<char>, to: int, stop: int)
    requires
        0 <= stop < to <= s.len(),
        !is_whitespace(s[stop]),
    ensures
        stop < skip_whitespace_back(s, to),
    decreases to,
{
    if is_whitespace(s[to - 1]) {
        lemma_skip_back_stops(s, to - 1, stop);
    }
}

/// `text` without the white space at its start and at its end.
pub fn trim<'a>(text: &'a str) -> (out: &'a str)
    ensures
        out@ == trimmed(text@),
{
    let chars = chars_of(text);
    let n = chars.len();
    let mut from: usize = 0;
    while from < n && char_is_whitespace(chars[from])
        invariant
            from <= n,
            n == chars@.len(),
            chars@ == text@,
            skip_whitespace(text@, from as int) == skip_whitespace(text@, 0),
        decreases n - from,
    {
        from = from + 1;
    }
    let mut to: usize = n;
    while to > from && char_is_whitespace(chars[to - 1])
        invariant
            from <= to <= n,
            n == chars@.len(),
            chars@ == text@,
            skip_whitespace_back(text@, to as int) == skip_whitespace_back(text@, n as int),
        decreases to,
    {
        to = to - 1;
    }
    proof {
        assert(skip_whitespace(text@, from as int) == from);
        lemma_skip_back_bounds(text@, to as int);
        if from < n {
            lemma_skip_back_stops(text@, n as int, from as int);
            assert(skip_whitespace_back(text@, to as int) == to);
        } else {
            lemma_skip_back_bounds(text@, n as int);
            assert(text@.subrange(from as int, to as int) =~= Seq::<char>::empty());
        }
    }
    text.substring_char(from, to)
}

/// Cuts `text` at its first space: what stands before it, and what stands
/// after it if there is a space at all.
pub fn split_at_space<'a>(text: &'a str) -> (parts: (&'a str, Option<&'a str>))
    ensures
        parts.0@ == before_space(text@),
        match parts.1 {
            Some(rest) => after_space(text@) == Some(rest@),
            None => after_space(text@) is None,
        },
{
    let chars = chars_of(text);
    let n = chars.len();
    let mut at: usize = 0;
    while at < n && chars[at] != ' '
        invariant
            at <= n,
            n == chars@.len(),
            chars@ == text@,
            forall|j: int| 0 <= j < at ==> text@[j] != ' ',
        decreases n - at,
    {
        at = at + 1;
    }
    proof {
        text@.index_of_first_ensures(' ');
        if at < n {
            assert(text@.contains(' '));
        } else {
            assert(text@.subrange(0, n as int) =~= text@);
        }
    }
    if at < n {
        (text.substring_char(0, at), Some(text.substring_char(at + 1, n)))
    } else {
        (text.substring_char(0, n), None)
    }
}

/// Whether `a` and `b` are the same text.
pub fn same_text(a: &str, b: &str) -> (same: bool)
    ensures
        same == (a@ == b@),
{
    let a: String = a.to_owned();
    let b: String = b.to_owned();
    a == b
}

} // verus!
