//! Convert text to Spongebob-case text.

use crate::command::{Response, ResponseView};
use crate::text::{alphanumeric, ascii_lower, ascii_upper, chars_of, Text};
use vstd::prelude::*;

verus! {

/// How many of the first `i` characters of `s` are alphanumeric.
pub open spec fn alphanumerics_before(s: Text, i: int) -> nat
    decreases i,
{
    if i <= 0 {
        0
    } else {
        alphanumerics_before(s, i - 1) + if alphanumeric(s[i - 1]) {
            1nat
        } else {
            0nat
        }
    }
}

/// The character that stands at place `i` of the Spongebob form of `s`. A
/// character that is not alphanumeric stands as it is. The alphanumeric ones
/// take lower and upper case in turn, the first of them lower: what decides is
/// how many alphanumeric characters came before, and nothing else.
pub open spec fn spongebob_char(s: Text, i: int) -> char {
    if !alphanumeric(s[i]) {
        s[i]
    } else if alphanumerics_before(s, i) % 2 == 1 {
        ascii_upper(s[i])
    } else {
        ascii_lower(s[i])
    }
}

/// The Spongebob form of a text.
pub open spec fn spongebob_text(s: Text) -> Text {
    Seq::new(s.len(), |i: int| spongebob_char(s, i))
}

/// The Spongebob form keeps the length and every character that is not
/// alphanumeric; such a character does not move the alternation on; and of
/// two alphanumeric characters with none between them, one takes lower case
/// and the other upper case.
pub proof fn lemma_spongebob_alternates(s: Text, i: int)
    requires
        0 <= i < s.len(),
    ensures
        spongebob_text(s).len() == s.len(),
        !alphanumeric(s[i]) ==> spongebob_text(s)[i] == s[i],
        !alphanumeric(s[i]) ==> alphanumerics_before(s, i + 1) == alphanumerics_before(s, i),
        alphanumeric(s[i]) ==> alphanumerics_before(s, i + 1) == alphanumerics_before(s, i) + 1,
        alphanumeric(s[i]) && alphanumerics_before(s, i) % 2 == 0 ==> spongebob_text(s)[i]
            == ascii_lower(s[i]),
        alphanumeric(s[i]) && alphanumerics_before(s, i) % 2 == 1 ==> spongebob_text(s)[i]
            == ascii_upper(s[i]),
{
}

/// The Spongebob form of the input.
pub fn spongebobify(input: &str) -> (output: String)
    ensures
        output@ == spongebob_text(input@),
{
    let chars = chars_of(input);
    let mut output = String::new();
    let mut upper = false;
    let mut i: usize = 0;
    while i < chars.len()
        invariant
            i <= chars.len(),
            chars@ == input@,
            upper == (alphanumerics_before(input@, i as int) % 2 == 1),
            output@ == spongebob_text(input@).take(i as int),
        decreases chars.len() - i,
    {
        let c = chars[i];
        if c.is_alphanumeric() {
            if upper {
                output.push(c.to_ascii_uppercase());
            } else {
                output.push(c.to_ascii_lowercase());
            }
            upper = !upper;
        } else {
            output.push(c);
        }
        assert(output@ =~= spongebob_text(input@).take(i + 1));
        i += 1;
    }
    assert(output@ =~= spongebob_text(input@));
    output
}

/// Runs the spongebob command: the response holds the Spongebob form of the
/// input.
pub fn spongebob(input: String) -> (response: Response)
    ensures
        response@ == (ResponseView::Spongebob { output: spongebob_text(input@) }),
{
    Response::Spongebob { output: spongebobify(input.as_str()) }
}

} // verus!
