//! Characters and strings.
//!
//! The commands work on sequences of characters. This module states what the
//! standard library's character and string functions are taken to do, and
//! builds the few sequence operations the rest of the crate needs on top of
//! them: conversion between strings and character vectors, prefix tests,
//! trimming and decimal numerals.

use vstd::prelude::*;

verus! {

/// The view of a string: its characters in order.
pub type Text = Seq<char>;

/// The length of a text in bytes, as UTF-8 writes it.
pub open spec fn byte_len(s: Text) -> nat {
    vstd::utf8::encode_utf8(s).len()
}

/// A text takes at least one byte for each of its characters.
pub proof fn lemma_byte_len(s: Text)
    ensures
        byte_len(s) >= s.len(),
    decreases s.len(),
{
    if s.len() > 0 {
        lemma_byte_len(s.drop_first());
        assert(vstd::utf8::encode_scalar(s[0] as u32).len() >= 1);
    }
}

/// Whether `v` is a Unicode scalar value, that is a code point outside the
/// surrogate range.
pub open spec fn is_scalar_value(v: u32) -> bool {
    v <= 0xD7FF || (0xE000 <= v && v <= 0x10FFFF)
}

/// `String::push` appends the character to the end of the string.
pub assume_specification[ String::push ](s: &mut String, c: char)
    ensures
        final(s)@ == old(s)@.push(c),
;

/// `char::from_u32` gives the character with the given code, and `None`
/// exactly when the number is no Unicode scalar value.
pub assume_specification[ char::from_u32 ](v: u32) -> (r: Option<char>)
    ensures
        is_scalar_value(v) ==> r == Some(v as char),
        !is_scalar_value(v) ==> r is None,
;

/// Whether Unicode classes the character as alphabetic or numeric; the answer
/// of `char::is_alphanumeric`.
pub uninterp spec fn alphanumeric(c: char) -> bool;

/// `char::is_alphanumeric` is only named here: its tables are Unicode's.
pub assume_specification[ char::is_alphanumeric ](c: char) -> (r: bool)
    ensures
        r == alphanumeric(c),
;

/// Whether the character has Unicode's `White_Space` property; the answer of
/// `char::is_whitespace`.
pub uninterp spec fn whitespace(c: char) -> bool;

/// `char::is_whitespace` is only named here: its table is Unicode's.
pub assume_specification[ char::is_whitespace ](c: char) -> (r: bool)
    ensures
        r == whitespace(c),
;

/// The ASCII upper case form of a character: `a` to `z` move to `A` to `Z`,
/// every other character stays.
pub open spec fn ascii_upper(c: char) -> char {
    if 'a' <= c && c <= 'z' {
        ((c as u32) - 32) as char
    } else {
        c
    }
}

/// The ASCII lower case form of a character: `A` to `Z` move to `a` to `z`,
/// every other character stays.
pub open spec fn ascii_lower(c: char) -> char {
    if 'A' <= c && c <= 'Z' {
        ((c as u32) + 32) as char
    } else {
        c
    }
}

/// `char::to_ascii_uppercase` maps `a` to `z` onto `A` to `Z` and leaves every
/// other character alone.
pub assume_specification[ char::to_ascii_uppercase ](c: &char) -> (r: char)
    ensures
        r == ascii_upper(*c),
;

/// `char::to_ascii_lowercase` maps `A` to `Z` onto `a` to `z` and leaves every
/// other character alone.
pub assume_specification[ char::to_ascii_lowercase ](c: &char) -> (r: char)
    ensures
        r == ascii_lower(*c),
;

/// The upper case form of a text by Unicode's mapping; the result of
/// `str::to_uppercase`.
pub uninterp spec fn uppercase(s: Text) -> Text;

/// `str::to_uppercase` is only named here: its mapping is Unicode's.
pub assume_specification[ str::to_uppercase ](s: &str) -> (r: String)
    ensures
        r@ == uppercase(s@),
;

/// The characters of a string, in order.
pub fn chars_of(s: &str) -> (v: Vec<char>)
    ensures
        v@ == s@,
{
    let mut v: Vec<char> = Vec::new();
    for c in it: s.chars()
        invariant
            it.seq() == s@,
            v@ == s@.take(it.index() as int),
    {
        v.push(c);
        assert(s@.take(it.index() + 1) =~= s@.take(it.index() as int).push(c));
    }
    assert(s@.take(s@.len() as int) =~= s@);
    v
}

/// Appends the characters `v[from..to]` to `out`.
pub(crate) fn push_chars(out: &mut String, v: &Vec<char>, from: usize, to: usize)
    requires
        from <= to <= v.len(),
    ensures
        final(out)@ == old(out)@ + v@.subrange(from as int, to as int),
{
    let mut i: usize = from;
    while i < to
        invariant
            from <= i <= to <= v.len(),
            out@ == old(out)@ + v@.subrange(from as int, i as int),
        decreases to - i,
    {
        out.push(v[i]);
        assert(v@.subrange(from as int, i + 1) =~= v@.subrange(from as int, i as int).push(
            v@[i as int],
        ));
        assert(out@ =~= old(out)@ + v@.subrange(from as int, i + 1));
        i += 1;
    }
}

/// The string made of the given characters.
pub fn string_of(v: &Vec<char>) -> (s: String)
    ensures
        s@ == v@,
{
    let mut s = String::new();
    push_chars(&mut s, v, 0, v.len());
    assert(v@.subrange(0, v@.len() as int) =~= v@);
    assert(s@ =~= v@);
    s
}

/// Appends the characters of `piece` to `out`.
pub fn push_text(out: &mut String, piece: &str)
    ensures
        final(out)@ == old(out)@ + piece@,
{
    let chars = chars_of(piece);
    push_chars(out, &chars, 0, chars.len());
    assert(chars@.subrange(0, chars@.len() as int) =~= chars@);
}

/// The string made of the characters `v[from..to]`.
pub(crate) fn substring(v: &Vec<char>, from: usize, to: usize) -> (s: String)
    requires
        from <= to <= v.len(),
    ensures
        s@ == v@.subrange(from as int, to as int),
{
    let mut s = String::new();
    push_chars(&mut s, v, from, to);
    assert(s@ =~= v@.subrange(from as int, to as int));
    s
}

/// Whether `text[at..]` begins with `pattern`.
pub(crate) fn starts_with_at(text: &Vec<char>, at: usize, pattern: &Vec<char>) -> (found: bool)
    requires
        at <= text.len(),
    ensures
        found == pattern@.is_prefix_of(text@.skip(at as int)),
{
    let n: usize = pattern.len();
    if text.len() - at < n {
        return false;
    }
    let mut i: usize = 0;
    while i < n
        invariant
            i <= n,
            n == pattern.len(),
            at + n <= text.len(),
            forall|k: int| 0 <= k < i ==> pattern@[k] == text@[at + k],
        decreases n - i,
    {
        if text[at + i] != pattern[i] {
            assert(text@.skip(at as int)[i as int] == text@[at + i]);
            assert(!(pattern@ =~= text@.skip(at as int).subrange(0, pattern@.len() as int)));
            return false;
        }
        i += 1;
    }
    assert(pattern@ =~= text@.skip(at as int).subrange(0, pattern@.len() as int));
    true
}

/// The text without the whitespace it begins with.
pub open spec fn trim_start(s: Text) -> Text
    decreases s.len(),
{
    if s.len() > 0 && whitespace(s[0]) {
        trim_start(s.skip(1))
    } else {
        s
    }
}

/// The text without the whitespace it ends with.
pub open spec fn trim_end(s: Text) -> Text
    decreases s.len(),
{
    if s.len() > 0 && whitespace(s.last()) {
        trim_end(s.drop_last())
    } else {
        s
    }
}

/// The text without the whitespace at either end.
pub open spec fn trimmed(s: Text) -> Text {
    trim_end(trim_start(s))
}

/// Where the trimmed form of `text[from..]` lies in `text`: it is
/// `text[start..end]` for the pair `(start, end)` returned.
pub(crate) fn trim(text: &Vec<char>, from: usize) -> (range: (usize, usize))
    requires
        from <= text.len(),
    ensures
        from <= range.0 <= range.1 <= text.len(),
        text@.subrange(range.0 as int, range.1 as int) == trimmed(text@.skip(from as int)),
{
    let n: usize = text.len();
    let mut start: usize = from;
    while start < n && text[start].is_whitespace()
        invariant
            from <= start <= n,
            n == text.len(),
            trim_start(text@.skip(from as int)) == trim_start(text@.skip(start as int)),
        decreases n - start,
    {
        assert(text@.skip(start as int)[0] == text@[start as int]);
        assert(text@.skip(start as int).skip(1) =~= text@.skip(start + 1));
        start += 1;
    }
    assert(start < n ==> text@.skip(start as int)[0] == text@[start as int]);
    assert(trim_start(text@.skip(from as int)) == text@.skip(start as int));
    assert(text@.skip(start as int) =~= text@.subrange(start as int, n as int));
    let mut end: usize = n;
    while end > start && text[end - 1].is_whitespace()
        invariant
            start <= end <= n,
            n == text.len(),
            trim_end(text@.subrange(start as int, n as int)) == trim_end(
                text@.subrange(start as int, end as int),
            ),
        decreases end,
    {
        assert(text@.subrange(start as int, end as int).last() == text@[end - 1]);
        assert(text@.subrange(start as int, end as int).drop_last() =~= text@.subrange(
            start as int,
            end - 1,
        ));
        end -= 1;
    }
    assert(end > start ==> text@.subrange(start as int, end as int).last() == text@[end - 1]);
    (start, end)
}

/// The character of a decimal digit.
pub open spec fn digit(d: int) -> char
    recommends
        0 <= d < 10,
{
    (('0' as u32) + d) as char
}

/// The decimal numeral of a natural number, without leading zeros.
pub open spec fn decimal_nat(n: nat) -> Text
    decreases n,
{
    if n < 10 {
        seq![digit(n as int)]
    } else {
        decimal_nat(n / 10).push(digit((n % 10) as int))
    }
}

/// The decimal numeral of an integer: a minus sign before that of its
/// magnitude where it is negative.
pub open spec fn decimal(n: int) -> Text {
    if n < 0 {
        seq!['-'] + decimal_nat((-n) as nat)
    } else {
        decimal_nat(n as nat)
    }
}

/// Appends the decimal numeral of `n` to `out`.
pub fn push_decimal(out: &mut String, n: u64)
    ensures
        final(out)@ == old(out)@ + decimal_nat(n as nat),
    decreases n,
{
    if n >= 10 {
        push_decimal(out, n / 10);
    }
    let d: u32 = (n % 10) as u32;
    let c = match char::from_u32(0x30 + d) {
        Some(c) => c,
        None => '0',
    };
    assert(c == digit((n % 10) as int));
    out.push(c);
    assert(out@ =~= old(out)@ + decimal_nat(n as nat));
}

/// Appends the decimal numeral of `n` to `out`.
pub fn push_signed_decimal(out: &mut String, n: i64)
    ensures
        final(out)@ == old(out)@ + decimal(n as int),
{
    if n < 0 {
        out.push('-');
        let magnitude: u64 = if n == i64::MIN {
            0x8000_0000_0000_0000
        } else {
            (-n) as u64
        };
        push_decimal(out, magnitude);
        assert(out@ =~= old(out)@ + decimal(n as int));
    } else {
        push_decimal(out, n as u64);
    }
}

/// The pieces in order, with `separator` between each two neighbours.
pub open spec fn join(pieces: Seq<Text>, separator: Text) -> Text
    decreases pieces.len(),
{
    if pieces.len() == 0 {
        Seq::empty()
    } else if pieces.len() == 1 {
        pieces[0]
    } else {
        pieces[0] + separator + join(pieces.skip(1), separator)
    }
}

/// Joining one more piece after some pieces puts the separator and the
/// piece after what was joined before.
pub proof fn lemma_join_push(pieces: Seq<Text>, separator: Text, piece: Text)
    requires
        pieces.len() > 0,
    ensures
        join(pieces.push(piece), separator) == join(pieces, separator) + separator + piece,
    decreases pieces.len(),
{
    let longer = pieces.push(piece);
    assert(longer[0] == pieces[0]);
    if pieces.len() == 1 {
        assert(longer.skip(1) =~= seq![piece]);
        assert(join(longer.skip(1), separator) == piece);
    } else {
        assert(longer.skip(1) =~= pieces.skip(1).push(piece));
        lemma_join_push(pieces.skip(1), separator, piece);
        assert(pieces[0] + separator + (join(pieces.skip(1), separator) + separator + piece)
            =~= pieces[0] + separator + join(pieces.skip(1), separator) + separator + piece);
    }
}

} // verus!
