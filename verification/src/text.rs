//! Text as sequences of characters: conversion from and to strings, and the
//! searches, comparisons and number formats the rest of the library is built
//! on.

use vstd::prelude::*;

verus! {

/// The characters of `s`, in order.
pub fn chars_of(s: &str) -> (v: Vec<char>)
    ensures
        v@ == s@,
{
    let mut v: Vec<char> = Vec::new();
    for c in it: s.chars()
        invariant
            v@ == it.seq().take(it.index() as int),
            it.seq() == s@,
    {
        v.push(c);
    }
    v
}

/// Collects characters into a `String` with the standard library's
/// `Iterator::collect`. The string holds exactly the characters given, in
/// order, as the documentation of `FromIterator<char>` for `String` says.
#[verifier::external_body]
pub(crate) fn string_of(chars: &Vec<char>) -> (s: String)
    ensures
        s@ == chars@,
{
    chars.iter().collect()
}

/// Appends the characters of `src` to `dst`.
pub fn push_chars(dst: &mut Vec<char>, src: &Vec<char>)
    ensures
        final(dst)@ == old(dst)@ + src@,
{
    let mut i: usize = 0;
    while i < src.len()
        invariant
            i <= src.len(),
            dst@ == old(dst)@ + src@.take(i as int),
        decreases src.len() - i,
    {
        dst.push(src[i]);
        i += 1;
        assert(src@.take(i as int) == src@.take(i - 1).push(src@[i - 1]));
    }
    assert(src@.take(i as int) == src@);
}

/// Appends the characters of the string `src` to `dst`.
pub fn push_str(dst: &mut Vec<char>, src: &str)
    ensures
        final(dst)@ == old(dst)@ + src@,
{
    let chars = chars_of(src);
    push_chars(dst, &chars);
}

/// Whether two texts hold the same characters.
pub fn same_chars(a: &Vec<char>, b: &Vec<char>) -> (same: bool)
    ensures
        same == (a@ == b@),
{
    if a.len() != b.len() {
        return false;
    }
    let mut i: usize = 0;
    while i < a.len()
        invariant
            i <= a.len(),
            a.len() == b.len(),
            forall|k: int| 0 <= k < i ==> a@[k] == b@[k],
        decreases a.len() - i,
    {
        if a[i] != b[i] {
            return false;
        }
        i += 1;
    }
    assert(a@ =~= b@);
    true
}

/// Whether two strings hold the same characters.
pub fn same_text(a: &str, b: &str) -> (same: bool)
    ensures
        same == (a@ == b@),
{
    let a_chars = chars_of(a);
    let b_chars = chars_of(b);
    same_chars(&a_chars, &b_chars)
}

/// `needle` stands in `hay` at position `at`.
pub open spec fn occurs_at(hay: Seq<char>, needle: Seq<char>, at: int) -> bool {
    &&& 0 <= at
    &&& at + needle.len() <= hay.len()
    &&& hay.subrange(at, at + needle.len()) == needle
}

/// `needle` stands somewhere in `hay`.
pub open spec fn contains_text(hay: Seq<char>, needle: Seq<char>) -> bool {
    exists|at: int| occurs_at(hay, needle, at)
}

/// Whether `needle` stands in `hay` at position `at`.
pub fn matches_at(hay: &Vec<char>, needle: &Vec<char>, at: usize) -> (found: bool)
    ensures
        found == occurs_at(hay@, needle@, at as int),
{
    if at > hay.len() || needle.len() > hay.len() - at {
        return false;
    }
    let mut i: usize = 0;
    while i < needle.len()
        invariant
            i <= needle.len(),
            at + needle.len() <= hay.len(),
            forall|k: int| 0 <= k < i ==> hay@[at + k] == needle@[k],
        decreases needle.len() - i,
    {
        if hay[at + i] != needle[i] {
            assert(hay@.subrange(at as int, at + needle.len())[i as int] != needle@[i as int]);
            return false;
        }
        i += 1;
    }
    assert(hay@.subrange(at as int, at + needle.len()) =~= needle@);
    true
}

/// The first position at which `needle` stands in `hay`, if there is one.
pub fn find_text(hay: &Vec<char>, needle: &Vec<char>) -> (found: Option<usize>)
    ensures
        match found {
            Some(at) => occurs_at(hay@, needle@, at as int) && forall|k: int|
                0 <= k < at ==> !occurs_at(hay@, needle@, k),
            None => !contains_text(hay@, needle@),
        },
{
    if needle.len() > hay.len() {
        return None;
    }
    let last: usize = hay.len() - needle.len();
    let mut at: usize = 0;
    loop
        invariant
            at <= last,
            last == hay.len() - needle.len(),
            forall|k: int| 0 <= k < at ==> !occurs_at(hay@, needle@, k),
        decreases last - at,
    {
        if matches_at(hay, needle, at) {
            return Some(at);
        }
        if at == last {
            return None;
        }
        at += 1;
    }
}

/// Whether `needle` stands somewhere in `hay`.
pub fn has_text(hay: &Vec<char>, needle: &Vec<char>) -> (found: bool)
    ensures
        found == contains_text(hay@, needle@),
{
    find_text(hay, needle).is_some()
}

/// The last position at which `c` stands in `text`, if there is one.
pub open spec fn last_index_of(text: Seq<char>, c: char) -> Option<int>
    decreases text.len(),
{
    if text.len() == 0 {
        None
    } else if text.last() == c {
        Some(text.len() - 1)
    } else {
        last_index_of(text.drop_last(), c)
    }
}

/// The last position before `end` at which `c` stands in `text`, if there is
/// one.
pub fn last_char_before(text: &Vec<char>, end: usize, c: char) -> (found: Option<usize>)
    requires
        end <= text.len(),
    ensures
        match found {
            Some(at) => last_index_of(text@.take(end as int), c) == Some(at as int) && at < end,
            None => last_index_of(text@.take(end as int), c) is None,
        },
{
    let mut at: usize = end;
    while at > 0
        invariant
            at <= end <= text.len(),
            last_index_of(text@.take(end as int), c) == last_index_of(text@.take(at as int), c),
        decreases at,
    {
        assert(text@.take(at as int).drop_last() =~= text@.take(at - 1));
        at -= 1;
        if text[at] == c {
            return Some(at);
        }
    }
    None
}

/// The decimal digit of value `d`.
pub open spec fn digit(d: nat) -> char {
    if d == 0 {
        '0'
    } else if d == 1 {
        '1'
    } else if d == 2 {
        '2'
    } else if d == 3 {
        '3'
    } else if d == 4 {
        '4'
    } else if d == 5 {
        '5'
    } else if d == 6 {
        '6'
    } else if d == 7 {
        '7'
    } else if d == 8 {
        '8'
    } else {
        '9'
    }
}

/// The decimal numeral of `n`, without sign or leading zeros.
pub open spec fn decimal(n: nat) -> Seq<char>
    decreases n,
{
    if n < 10 {
        seq![digit(n)]
    } else {
        decimal(n / 10).push(digit(n % 10))
    }
}

fn digit_char(d: u64) -> (c: char)
    requires
        d < 10,
    ensures
        c == digit(d as nat),
{
    if d == 0 {
        '0'
    } else if d == 1 {
        '1'
    } else if d == 2 {
        '2'
    } else if d == 3 {
        '3'
    } else if d == 4 {
        '4'
    } else if d == 5 {
        '5'
    } else if d == 6 {
        '6'
    } else if d == 7 {
        '7'
    } else if d == 8 {
        '8'
    } else {
        '9'
    }
}

/// Appends the decimal numeral of `n` to `dst`.
pub fn push_decimal(dst: &mut Vec<char>, n: u64)
    ensures
        final(dst)@ == old(dst)@ + decimal(n as nat),
    decreases n,
{
    if n >= 10 {
        push_decimal(dst, n / 10);
    }
    dst.push(digit_char(n % 10));
    assert(dst@ =~= old(dst)@ + decimal(n as nat));
}

/// The position of the first line feed in `text`, or the length of `text` if
/// it holds none.
pub open spec fn line_end(text: Seq<char>) -> int
    decreases text.len(),
{
    if text.len() == 0 || text[0] == '\n' {
        0
    } else {
        1 + line_end(text.skip(1))
    }
}

/// A line without the carriage return that preceded its line feed.
pub open spec fn without_carriage_return(line: Seq<char>) -> Seq<char> {
    if line.len() > 0 && line.last() == '\r' {
        line.drop_last()
    } else {
        line
    }
}

/// The lines of `text`. A line ends at a line feed, or at a carriage return
/// directly followed by a line feed, or at the end of the text; the line
/// endings are not part of the lines, and a line ending at the very end of the
/// text does not start another, empty line.
pub open spec fn lines_of(text: Seq<char>) -> Seq<Seq<char>>
    decreases text.len(),
{
    if text.len() == 0 {
        Seq::empty()
    } else {
        let end = line_end(text);
        if 0 <= end < text.len() {
            seq![without_carriage_return(text.take(end))] + lines_of(text.skip(end + 1))
        } else {
            seq![text]
        }
    }
}

pub proof fn lemma_line_end(text: Seq<char>)
    ensures
        0 <= line_end(text) <= text.len(),
        line_end(text) < text.len() ==> text[line_end(text)] == '\n',
        forall|k: int| 0 <= k < line_end(text) ==> text[k] != '\n',
    decreases text.len(),
{
    if text.len() == 0 || text[0] == '\n' {
    } else {
        lemma_line_end(text.skip(1));
        assert forall|k: int| 0 <= k < line_end(text) implies text[k] != '\n' by {
            if k > 0 {
                assert(text.skip(1)[k - 1] == text[k]);
            }
        }
    }
}

proof fn lemma_line_end_is(text: Seq<char>, end: int)
    requires
        0 <= end <= text.len(),
        end < text.len() ==> text[end] == '\n',
        forall|k: int| 0 <= k < end ==> text[k] != '\n',
    ensures
        line_end(text) == end,
{
    lemma_line_end(text);
    let e = line_end(text);
    if e < end {
        assert(text[e] != '\n');
    } else if end < e {
        assert(text[end] != '\n');
    }
}

/// What a list of texts holds.
pub open spec fn texts(list: Seq<Vec<char>>) -> Seq<Seq<char>> {
    Seq::new(list.len(), |i: int| list[i]@)
}

/// The lines of `text`, as `lines_of` defines them.
pub fn split_lines(text: &Vec<char>) -> (lines: Vec<Vec<char>>)
    ensures
        texts(lines@) == lines_of(text@),
{
    let mut lines: Vec<Vec<char>> = Vec::new();
    let mut current: Vec<char> = Vec::new();
    let mut start: usize = 0;
    let mut i: usize = 0;
    proof {
        assert(text@.skip(0) =~= text@);
        assert(Seq::new(lines@.len(), |k: int| lines@[k]@) + lines_of(text@) =~= lines_of(text@));
    }
    while i < text.len()
        invariant
            start <= i <= text.len(),
            current@ == text@.subrange(start as int, i as int),
            forall|k: int| start <= k < i ==> text@[k] != '\n',
            lines_of(text@) == Seq::new(lines@.len(), |k: int| lines@[k]@) + lines_of(
                text@.skip(start as int),
            ),
        decreases text.len() - i,
    {
        let c = text[i];
        if c == '\n' {
            let ghost rest = text@.skip(start as int);
            let ghost end = i - start;
            proof {
                assert forall|k: int| 0 <= k < end implies rest[k] != '\n' by {
                    assert(rest[k] == text@[start + k]);
                }
                lemma_line_end_is(rest, end);
                assert(rest.take(end) =~= current@);
                assert(rest.skip(end + 1) =~= text@.skip(i + 1));
            }
            let n: usize = current.len();
            if n > 0 && current[n - 1] == '\r' {
                current.pop();
            }
            assert(current@ =~= without_carriage_return(rest.take(end)));
            let ghost before = Seq::new(lines@.len(), |k: int| lines@[k]@);
            lines.push(current);
            assert(Seq::new(lines@.len(), |k: int| lines@[k]@) =~= before + seq![current@]);
            current = Vec::new();
            start = i + 1;
            i += 1;
            assert(current@ =~= text@.subrange(start as int, i as int));
        } else {
            current.push(c);
            i += 1;
            assert(current@ =~= text@.subrange(start as int, i as int));
        }
    }
    let ghost rest = text@.skip(start as int);
    if start < text.len() {
        proof {
            assert forall|k: int| 0 <= k < rest.len() implies rest[k] != '\n' by {
                assert(rest[k] == text@[start + k]);
            }
            lemma_line_end_is(rest, rest.len() as int);
            assert(current@ =~= rest);
        }
        let ghost before = Seq::new(lines@.len(), |k: int| lines@[k]@);
        lines.push(current);
        assert(Seq::new(lines@.len(), |k: int| lines@[k]@) =~= before + seq![current@]);
    } else {
        assert(rest.len() == 0);
        assert(Seq::new(lines@.len(), |k: int| lines@[k]@) + Seq::<Seq<char>>::empty() =~= Seq::new(
            lines@.len(),
            |k: int| lines@[k]@,
        ));
    }
    proof {
        let shown = Seq::new(lines@.len(), |k: int| lines@[k]@);
        assert(lines_of(text@) == shown);
        assert(texts(lines@) =~= shown);
    }
    lines
}

/// The lines put together with a line feed between each two.
pub open spec fn joined_lines(lines: Seq<Seq<char>>) -> Seq<char>
    decreases lines.len(),
{
    if lines.len() == 0 {
        Seq::empty()
    } else if lines.len() == 1 {
        lines[0]
    } else {
        joined_lines(lines.drop_last()) + seq!['\n'] + lines.last()
    }
}

/// Appends the lines from position `from` up to position `to`, with a line
/// feed between each two.
pub fn push_joined(dst: &mut Vec<char>, lines: &Vec<Vec<char>>, from: usize, to: usize)
    requires
        from <= to <= lines.len(),
    ensures
        final(dst)@ == old(dst)@ + joined_lines(texts(lines@).subrange(from as int, to as int)),
{
    let mut i: usize = from;
    proof {
        assert(texts(lines@).subrange(from as int, from as int).len() == 0);
        assert(dst@ =~= old(dst)@ + Seq::<char>::empty());
    }
    while i < to
        invariant
            from <= i <= to <= lines.len(),
            dst@ == old(dst)@ + joined_lines(texts(lines@).subrange(from as int, i as int)),
        decreases to - i,
    {
        let ghost before = texts(lines@).subrange(from as int, i as int);
        let ghost after = texts(lines@).subrange(from as int, i + 1);
        proof {
            assert(after.drop_last() =~= before);
            assert(after.last() == lines@[i as int]@);
        }
        if i > from {
            dst.push('\n');
        }
        push_chars(dst, &lines[i]);
        proof {
            if i > from {
                assert(dst@ =~= old(dst)@ + (joined_lines(before) + seq!['\n'] + lines@[i as int]@));
            } else {
                assert(after.len() == 1);
                assert(joined_lines(before) =~= Seq::<char>::empty());
                assert(dst@ =~= old(dst)@ + lines@[i as int]@);
            }
        }
        i += 1;
    }
}

/// Whether a character is white space: a space, a tab or another control
/// character that moves the position, a line or paragraph separator, or one
/// of the spaces of fixed width.
pub open spec fn is_whitespace(c: char) -> bool {
    ||| c == ' '
    ||| ('\u{9}' <= c && c <= '\u{d}')
    ||| c == '\u{85}'
    ||| c == '\u{a0}'
    ||| c == '\u{1680}'
    ||| ('\u{2000}' <= c && c <= '\u{200a}')
    ||| c == '\u{2028}'
    ||| c == '\u{2029}'
    ||| c == '\u{202f}'
    ||| c == '\u{205f}'
    ||| c == '\u{3000}'
}

/// Whether a character is white space.
pub fn char_is_whitespace(c: char) -> (white: bool)
    ensures
        white == is_whitespace(c),
{
    c == ' ' || ('\u{9}' <= c && c <= '\u{d}') || c == '\u{85}' || c == '\u{a0}' || c == '\u{1680}'
        || ('\u{2000}' <= c && c <= '\u{200a}') || c == '\u{2028}' || c == '\u{2029}' || c
        == '\u{202f}' || c == '\u{205f}' || c == '\u{3000}'
}

/// The number of white-space characters that `text` starts with.
pub open spec fn leading_whitespace(text: Seq<char>) -> int
    decreases text.len(),
{
    if text.len() == 0 || !is_whitespace(text[0]) {
        0
    } else {
        1 + leading_whitespace(text.skip(1))
    }
}

/// The number of white-space characters that `text` ends with.
pub open spec fn trailing_whitespace(text: Seq<char>) -> int
    decreases text.len(),
{
    if text.len() == 0 || !is_whitespace(text.last()) {
        0
    } else {
        1 + trailing_whitespace(text.drop_last())
    }
}

/// `text` without the white space at its start and at its end.
pub open spec fn trimmed(text: Seq<char>) -> Seq<char> {
    let start = leading_whitespace(text);
    let end = text.len() - trailing_whitespace(text);
    if 0 <= start <= end <= text.len() {
        text.subrange(start, end)
    } else {
        Seq::empty()
    }
}

/// `text` without the white space at its start and at its end.
pub fn trim_chars(text: &Vec<char>) -> (kept: Vec<char>)
    ensures
        kept@ == trimmed(text@),
{
    let mut start: usize = 0;
    proof {
        assert(text@.skip(0) =~= text@);
    }
    while start < text.len() && char_is_whitespace(text[start])
        invariant
            start <= text.len(),
            leading_whitespace(text@) == start + leading_whitespace(text@.skip(start as int)),
        decreases text.len() - start,
    {
        assert(text@.skip(start as int).skip(1) =~= text@.skip(start + 1));
        start += 1;
    }
    let mut kept: Vec<char> = Vec::new();
    if start == text.len() {
        proof {
            assert(text@.skip(start as int).len() == 0);
            assert(leading_whitespace(text@) == text.len());
            lemma_whitespace_counts(text@);
        }
        return kept;
    }
    proof {
        assert(text@.skip(start as int)[0] == text@[start as int]);
        assert(leading_whitespace(text@) == start);
    }
    let mut end: usize = text.len();
    proof {
        assert(text@.take(end as int) =~= text@);
    }
    while end > start && char_is_whitespace(text[end - 1])
        invariant
            start < end <= text.len(),
            !is_whitespace(text@[start as int]),
            trailing_whitespace(text@) == (text.len() - end) + trailing_whitespace(
                text@.take(end as int),
            ),
        decreases end,
    {
        assert(text@.take(end as int).drop_last() =~= text@.take(end - 1));
        end -= 1;
    }
    proof {
        assert(text@.take(end as int).last() == text@[end - 1]);
        assert(trailing_whitespace(text@) == text.len() - end);
    }
    let mut i: usize = start;
    while i < end
        invariant
            start <= i <= end <= text.len(),
            kept@ == text@.subrange(start as int, i as int),
        decreases end - i,
    {
        kept.push(text[i]);
        i += 1;
        assert(kept@ =~= text@.subrange(start as int, i as int));
    }
    kept
}

/// The white space at the start and the white space at the end of a text
/// overlap only if the whole text is white space.
pub proof fn lemma_whitespace_counts(text: Seq<char>)
    ensures
        0 <= leading_whitespace(text) <= text.len(),
        0 <= trailing_whitespace(text) <= text.len(),
        leading_whitespace(text) < text.len() ==> !is_whitespace(text[leading_whitespace(text)]),
        forall|k: int| 0 <= k < leading_whitespace(text) ==> is_whitespace(#[trigger] text[k]),
        forall|k: int|
            text.len() - trailing_whitespace(text) <= k < text.len() ==> is_whitespace(
                #[trigger] text[k],
            ),
        trailing_whitespace(text) < text.len() ==> !is_whitespace(
            text[text.len() - trailing_whitespace(text) - 1],
        ),
        leading_whitespace(text) < text.len() ==> leading_whitespace(text) + trailing_whitespace(
            text,
        ) <= text.len(),
        leading_whitespace(text) == text.len() ==> trailing_whitespace(text) == text.len(),
    decreases text.len(),
{
    if text.len() > 0 {
        lemma_whitespace_counts(text.skip(1));
        lemma_whitespace_counts(text.drop_last());
        let a = leading_whitespace(text);
        let b = trailing_whitespace(text);
        if is_whitespace(text[0]) {
            assert forall|k: int| 0 <= k < a implies is_whitespace(#[trigger] text[k]) by {
                if k > 0 {
                    assert(text.skip(1)[k - 1] == text[k]);
                }
            }
            if a < text.len() {
                assert(text.skip(1)[a - 1] == text[a]);
            }
        }
        if is_whitespace(text.last()) {
            assert forall|k: int| text.len() - b <= k < text.len() implies is_whitespace(
                #[trigger] text[k],
            ) by {
                if k < text.len() - 1 {
                    assert(text.drop_last()[k] == text[k]);
                }
            }
            if b < text.len() {
                assert(text.drop_last()[text.len() - b - 1] == text[text.len() - b - 1]);
            }
        }
        if a < text.len() && a + b > text.len() {
            assert(is_whitespace(text[a]));
        }
        if a == text.len() && b < text.len() {
            assert(is_whitespace(text[text.len() - b - 1]));
        }
    }
}

/// The text in lower case, as Unicode defines it.
pub uninterp spec fn lowercase(text: Seq<char>) -> Seq<char>;

/// Turns a text into lower case with `str::to_lowercase`. The contract gives
/// the result a name.
#[verifier::external_body]
pub(crate) fn to_lowercase(text: &str) -> (lower: String)
    ensures
        lower@ == lowercase(text@),
{
    text.to_lowercase()
}

/// `text` with every occurrence of `needle` replaced by `replacement`, where
/// the occurrences are taken from the left and do not overlap. An empty
/// needle occurs nowhere.
pub open spec fn replaced(text: Seq<char>, needle: Seq<char>, replacement: Seq<char>) -> Seq<char>
    decreases text.len(),
{
    if needle.len() == 0 || text.len() < needle.len() {
        text
    } else if text.take(needle.len() as int) == needle {
        replacement + replaced(text.skip(needle.len() as int), needle, replacement)
    } else {
        seq![text[0]] + replaced(text.skip(1), needle, replacement)
    }
}

/// Replaces every occurrence of `needle` in `text` by `replacement`.
pub fn replace_all(text: &Vec<char>, needle: &Vec<char>, replacement: &Vec<char>) -> (out: Vec<char>)
    ensures
        out@ == replaced(text@, needle@, replacement@),
{
    let mut out: Vec<char> = Vec::new();
    if needle.len() == 0 {
        push_chars(&mut out, text);
        assert(out@ =~= text@);
        return out;
    }
    let mut i: usize = 0;
    proof {
        assert(text@.skip(0) =~= text@);
        assert(out@ + replaced(text@, needle@, replacement@) =~= replaced(
            text@,
            needle@,
            replacement@,
        ));
    }
    while i < text.len()
        invariant
            i <= text.len(),
            needle.len() > 0,
            replaced(text@, needle@, replacement@) == out@ + replaced(
                text@.skip(i as int),
                needle@,
                replacement@,
            ),
        decreases text.len() - i,
    {
        let ghost rest = text@.skip(i as int);
        let ghost done = out@;
        if matches_at(text, needle, i) {
            proof {
                assert(text@.subrange(i as int, i + needle.len()) =~= rest.take(needle.len() as int));
                assert(rest.skip(needle.len() as int) =~= text@.skip(i + needle.len()));
            }
            push_chars(&mut out, replacement);
            i += needle.len();
            proof {
                assert(done + (replacement@ + replaced(
                    text@.skip(i as int),
                    needle@,
                    replacement@,
                )) =~= out@ + replaced(text@.skip(i as int), needle@, replacement@));
            }
        } else {
            proof {
                if rest.len() >= needle.len() {
                    assert(text@.subrange(i as int, i + needle.len()) =~= rest.take(
                        needle.len() as int,
                    ));
                }
                assert(rest.skip(1) =~= text@.skip(i + 1));
                assert(rest[0] == text@[i as int]);
            }
            if text.len() - i < needle.len() {
                let mut j: usize = i;
                while j < text.len()
                    invariant
                        i <= j <= text.len(),
                        out@ == done + text@.subrange(i as int, j as int),
                    decreases text.len() - j,
                {
                    out.push(text[j]);
                    j += 1;
                    assert(out@ =~= done + text@.subrange(i as int, j as int));
                }
                proof {
                    assert(text@.subrange(i as int, text.len() as int) =~= rest);
                    assert(text@.skip(text.len() as int) =~= Seq::<char>::empty());
                    assert(out@ + replaced(text@.skip(text.len() as int), needle@, replacement@)
                        =~= done + rest);
                }
                i = text.len();
            } else {
                out.push(text[i]);
                i += 1;
                proof {
                    assert(done + (seq![rest[0]] + replaced(
                        text@.skip(i as int),
                        needle@,
                        replacement@,
                    )) =~= out@ + replaced(text@.skip(i as int), needle@, replacement@));
                }
            }
        }
    }
    proof {
        assert(text@.skip(i as int) =~= Seq::<char>::empty());
        assert(out@ + Seq::<char>::empty() =~= out@);
    }
    out
}

/// The first position at which `needle` stands in `hay`, if there is one.
pub open spec fn first_occurrence(hay: Seq<char>, needle: Seq<char>) -> Option<int> {
    if contains_text(hay, needle) {
        Some(
            choose|at: int|
                occurs_at(hay, needle, at) && forall|k: int|
                    0 <= k < at ==> !occurs_at(hay, needle, k),
        )
    } else {
        None
    }
}

/// The first position at which `needle` stands in `hay`, if there is one.
pub fn position_of(hay: &Vec<char>, needle: &Vec<char>) -> (found: Option<usize>)
    ensures
        match found {
            Some(at) => first_occurrence(hay@, needle@) == Some(at as int),
            None => first_occurrence(hay@, needle@) is None,
        },
{
    let found = find_text(hay, needle);
    proof {
        match found {
            Some(at) => {
                assert(contains_text(hay@, needle@));
                let chosen = first_occurrence(hay@, needle@)->0;
                assert(occurs_at(hay@, needle@, chosen) && forall|k: int|
                    0 <= k < chosen ==> !occurs_at(hay@, needle@, k));
                if chosen < at {
                    assert(!occurs_at(hay@, needle@, chosen));
                }
                if at < chosen {
                    assert(!occurs_at(hay@, needle@, at as int));
                }
            },
            None => {},
        }
    }
    found
}

/// Appends the characters of `src` from position `from` up to position `to`.
pub fn push_range(dst: &mut Vec<char>, src: &Vec<char>, from: usize, to: usize)
    requires
        from <= to <= src.len(),
    ensures
        final(dst)@ == old(dst)@ + src@.subrange(from as int, to as int),
{
    let mut i: usize = from;
    assert(dst@ =~= old(dst)@ + src@.subrange(from as int, i as int));
    while i < to
        invariant
            from <= i <= to <= src.len(),
            dst@ == old(dst)@ + src@.subrange(from as int, i as int),
        decreases to - i,
    {
        dst.push(src[i]);
        i += 1;
        assert(dst@ =~= old(dst)@ + src@.subrange(from as int, i as int));
    }
}

} // verus!
