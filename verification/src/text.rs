//! Character-level helpers shared by the parsers: conversion between text and
//! character vectors, substring search with optional ASCII case folding, and
//! splitting a text into lines.

use vstd::prelude::*;

verus! {

/// `String::push` appends exactly one character to the end of the string and
/// leaves the characters before it as they were.
pub assume_specification[ String::push ](s: &mut String, c: char)
    ensures
        final(s)@ == old(s)@.push(c),
;

/// `String::pop` takes the last character off the string and returns it, and
/// returns `None` for an empty string, which it leaves as it is.
pub assume_specification[ String::pop ](s: &mut String) -> (last: Option<char>)
    ensures
        old(s)@.len() == 0 ==> last is None && final(s)@ == old(s)@,
        old(s)@.len() > 0 ==> last == Some(old(s)@.last()) && final(s)@ == old(s)@.drop_last(),
;

/// ASCII lower-case folding: `A`..`Z` map to `a`..`z`, everything else to itself.
pub open spec fn lower(c: char) -> char {
    if 'A' <= c && c <= 'Z' {
        ((c as u8) + 32) as char
    } else {
        c
    }
}

/// Whether two characters count as equal, with or without case folding.
pub open spec fn same(a: char, b: char, fold: bool) -> bool {
    if fold {
        lower(a) == lower(b)
    } else {
        a == b
    }
}

/// `needle` occurs in `hay` starting at index `at`.
pub open spec fn occurs_at(hay: Seq<char>, needle: Seq<char>, at: int, fold: bool) -> bool {
    &&& 0 <= at
    &&& at + needle.len() <= hay.len()
    &&& forall|j: int| 0 <= j < needle.len() ==> same(hay[at + j], #[trigger] needle[j], fold)
}

/// `needle` occurs somewhere in `hay`. The empty needle occurs in every text.
pub open spec fn contains(hay: Seq<char>, needle: Seq<char>, fold: bool) -> bool {
    exists|at: int| occurs_at(hay, needle, at, fold)
}

/// Number of characters from index `from` up to, not including, the next line
/// feed, or up to the end of the text when no line feed follows.
pub open spec fn line_len(s: Seq<char>, from: int) -> nat
    decreases s.len() - from,
{
    if from < 0 || from >= s.len() || s[from] == '\n' {
        0
    } else {
        1 + line_len(s, from + 1)
    }
}

/// The lines of `s` that start at or after index `from`, where `from` is the
/// start of a line.
pub open spec fn lines_from(s: Seq<char>, from: int) -> Seq<Seq<char>>
    decreases s.len() - from,
{
    if from < 0 || from >= s.len() {
        Seq::empty()
    } else {
        let end = from + line_len(s, from);
        if end >= s.len() {
            seq![s.subrange(from, end)]
        } else {
            seq![s.subrange(from, end)] + lines_from(s, end + 1)
        }
    }
}

/// The lines of a text. Lines are separated by line feeds; a line feed at the
/// very end does not open a further, empty line, and the empty text has no lines.
pub open spec fn lines(s: Seq<char>) -> Seq<Seq<char>> {
    lines_from(s, 0)
}

/// The characters of `s`, in order.
pub fn chars_of(s: &str) -> (out: Vec<char>)
    ensures
        out@ == s@,
{
    let mut out: Vec<char> = Vec::new();
    for c in it: s.chars()
        invariant
            out@ == it.seq().take(it.index() as int),
            it.seq() == s@,
    {
        out.push(c);
    }
    out
}

/// The text made of the characters `cs[from..to]`.
pub(crate) fn text_of(cs: &Vec<char>, from: usize, to: usize) -> (out: String)
    requires
        from <= to <= cs.len(),
    ensures
        out@ == cs@.subrange(from as int, to as int),
{
    let mut out = String::new();
    let mut i: usize = from;
    while i < to
        invariant
            from <= i <= to <= cs.len(),
            out@ == cs@.subrange(from as int, i as int),
        decreases to - i,
    {
        out.push(cs[i]);
        i += 1;
    }
    out
}

/// A copy of the characters `cs[from..to]`.
pub(crate) fn slice_of(cs: &Vec<char>, from: usize, to: usize) -> (out: Vec<char>)
    requires
        from <= to <= cs.len(),
    ensures
        out@ == cs@.subrange(from as int, to as int),
{
    let mut out: Vec<char> = Vec::new();
    let mut i: usize = from;
    while i < to
        invariant
            from <= i <= to <= cs.len(),
            out@ == cs@.subrange(from as int, i as int),
        decreases to - i,
    {
        out.push(cs[i]);
        i += 1;
    }
    out
}

/// ASCII lower-case folding of one character.
pub fn to_lower(c: char) -> (r: char)
    ensures
        r == lower(c),
{
    if 'A' <= c && c <= 'Z' {
        ((c as u8) + 32) as char
    } else {
        c
    }
}

/// Compares two characters, with or without case folding.
pub fn same_char(a: char, b: char, fold: bool) -> (r: bool)
    ensures
        r == same(a, b, fold),
{
    if fold {
        to_lower(a) == to_lower(b)
    } else {
        a == b
    }
}

/// Tests whether `needle` occurs in `hay` at index `at`.
pub fn occurs_here(hay: &Vec<char>, needle: &Vec<char>, at: usize, fold: bool) -> (r: bool)
    ensures
        r == occurs_at(hay@, needle@, at as int, fold),
{
    if needle.len() > hay.len() || at > hay.len() - needle.len() {
        return false;
    }
    let mut j: usize = 0;
    while j < needle.len()
        invariant
            j <= needle.len(),
            at + needle.len() <= hay.len(),
            forall|k: int| 0 <= k < j ==> same(hay@[at + k], #[trigger] needle@[k], fold),
        decreases needle.len() - j,
    {
        if !same_char(hay[at + j], needle[j], fold) {
            return false;
        }
        j += 1;
    }
    true
}

/// Tests whether `needle` occurs anywhere in `hay`.
pub fn find(hay: &Vec<char>, needle: &Vec<char>, fold: bool) -> (r: bool)
    ensures
        r == contains(hay@, needle@, fold),
{
    if needle.len() > hay.len() {
        return false;
    }
    let last: usize = hay.len() - needle.len();
    let mut at: usize = 0;
    while at <= last
        invariant
            at <= last + 1,
            last == hay.len() - needle.len(),
            forall|k: int| 0 <= k < at ==> !occurs_at(hay@, needle@, k, fold),
        decreases last + 1 - at,
    {
        if occurs_here(hay, needle, at, fold) {
            return true;
        }
        at += 1;
    }
    false
}

/// Tests whether the text `needle` occurs anywhere in `hay`.
pub fn find_text(hay: &Vec<char>, needle: &str, fold: bool) -> (r: bool)
    ensures
        r == contains(hay@, needle@, fold),
{
    let pattern = chars_of(needle);
    find(hay, &pattern, fold)
}

/// Index one past the last character of the line that starts at `from`.
pub(crate) fn line_end(cs: &Vec<char>, from: usize) -> (end: usize)
    requires
        from <= cs.len(),
    ensures
        end == from + line_len(cs@, from as int),
        end <= cs.len(),
{
    let mut i: usize = from;
    while i < cs.len() && cs[i] != '\n'
        invariant
            from <= i <= cs.len(),
            line_len(cs@, from as int) == (i - from) + line_len(cs@, i as int),
        decreases cs.len() - i,
    {
        i += 1;
    }
    i
}

/// Splits a text into its lines.
pub fn split_lines(cs: &Vec<char>) -> (out: Vec<Vec<char>>)
    ensures
        out.deep_view() == lines(cs@),
{
    let mut out: Vec<Vec<char>> = Vec::new();
    let mut pos: usize = 0;
    while pos < cs.len()
        invariant
            pos <= cs.len(),
            lines(cs@) == out.deep_view() + lines_from(cs@, pos as int),
        decreases cs.len() - pos,
    {
        let end = line_end(cs, pos);
        let line = slice_of(cs, pos, end);
        let ghost before = out.deep_view();
        out.push(line);
        proof {
            assert(line.deep_view() =~= line@);
            assert(out.deep_view() =~= before.push(line@));
            assert(before + (seq![line@] + lines_from(cs@, end + 1)) =~= before.push(line@)
                + lines_from(cs@, end + 1));
            assert(before + seq![line@] =~= before.push(line@));
        }
        if end == cs.len() {
            pos = end;
        } else {
            pos = end + 1;
        }
    }
    proof {
        assert(out.deep_view() + lines_from(cs@, pos as int) =~= out.deep_view());
    }
    out
}

} // verus!
