//! Convert text to vaporwave (fullwidth) text.

use crate::command::{CommandError, Response, ResponseView};
use crate::text::{chars_of, Text};
use vstd::prelude::*;

verus! {

/// The ideographic space, the fullwidth form of the space.
pub const IDEOGRAPHIC_SPACE: char = '\u{3000}';

/// The distance from a printable ASCII character to its fullwidth form.
pub const FULLWIDTH_OFFSET: u32 = 0xfee0;

/// Whether the character is printable ASCII other than the space:
/// one of `!` (0x21) to `~` (0x7e).
pub open spec fn is_printable(c: char) -> bool {
    0x21 <= c as u32 <= 0x7e
}

/// The fullwidth form of a character. The space becomes the ideographic
/// space, a printable ASCII character moves up by [`FULLWIDTH_OFFSET`], and
/// every other character stays as it is.
pub open spec fn wavy_char(c: char) -> char {
    if c == ' ' {
        IDEOGRAPHIC_SPACE
    } else if is_printable(c) {
        ((c as u32) + FULLWIDTH_OFFSET) as char
    } else {
        c
    }
}

/// The fullwidth form of a text: that of each character, in place.
pub open spec fn wavy_text(s: Text) -> Text {
    Seq::new(s.len(), |i: int| wavy_char(s[i]))
}

/// A printable ASCII character and its fullwidth form lie exactly
/// [`FULLWIDTH_OFFSET`] apart, so that the form gives the character back; the
/// space becomes U+3000; and a character outside ASCII is left unchanged.
pub proof fn lemma_wavy_char(c: char)
    ensures
        is_printable(c) ==> wavy_char(c) as int - 0xfee0 == c as int,
        c == ' ' ==> wavy_char(c) as int == 0x3000,
        c as u32 > 0x7f ==> wavy_char(c) == c,
        !is_printable(c) && c != ' ' ==> wavy_char(c) == c,
{
}

/// The fullwidth form of a text has the length of the text, and each of its
/// characters is the fullwidth form of the character in that place.
pub proof fn lemma_wavy_text(s: Text)
    ensures
        wavy_text(s).len() == s.len(),
        forall|i: int| 0 <= i < s.len() ==> #[trigger] wavy_text(s)[i] == wavy_char(s[i]),
{
}

/// The fullwidth form of one character.
pub fn wave(c: char) -> (w: char)
    ensures
        w == wavy_char(c),
{
    let val: u32 = c as u32;
    if val == 0x20 {
        IDEOGRAPHIC_SPACE
    } else if 0x21 <= val && val <= 0x7e {
        // The sum is a character for every value in the range; were it
        // not, the character would pass through unchanged.
        match char::from_u32(val + FULLWIDTH_OFFSET) {
            Some(w) => w,
            None => c,
        }
    } else {
        c
    }
}

/// The fullwidth form of the input. It never fails.
pub fn wavify(input: String) -> (result: Result<String, CommandError>)
    ensures
        result matches Ok(output) && output@ == wavy_text(input@),
{
    let chars = chars_of(input.as_str());
    let mut output = String::new();
    let mut i: usize = 0;
    while i < chars.len()
        invariant
            i <= chars.len(),
            chars@ == input@,
            output@ == wavy_text(input@).take(i as int),
        decreases chars.len() - i,
    {
        let w = wave(chars[i]);
        output.push(w);
        assert(output@ =~= wavy_text(input@).take(i + 1));
        i += 1;
    }
    assert(output@ =~= wavy_text(input@));
    Ok(output)
}

/// Runs the wavy command: the response holds the fullwidth form of the input.
pub fn wavy(input: String) -> (result: Result<Response, CommandError>)
    ensures
        result matches Ok(response) && response@ == (ResponseView::Wavy {
            output: wavy_text(input@),
        }),
{
    match wavify(input) {
        Ok(output) => Ok(Response::Wavy { output }),
        Err(error) => Err(error),
    }
}

/// The vaporwave form of the input, which is its fullwidth form: the name
/// the style goes by. It never fails.
pub fn vapify(input: String) -> (result: Result<String, CommandError>)
    ensures
        result matches Ok(output) && output@ == wavy_text(input@),
{
    wavify(input)
}

/// Runs the vape command, the wavy command under its other name.
pub fn vape(input: String) -> (result: Result<Response, CommandError>)
    ensures
        result matches Ok(response) && response@ == (ResponseView::Wavy {
            output: wavy_text(input@),
        }),
{
    wavy(input)
}

} // verus!
