//! The react command converts an alphanumeric string into a series of
//! reaction emojis, one for each of its characters.

use crate::command::{texts, CommandError, CommandErrorView, Response, ResponseView};
use crate::text::{alphanumeric, ascii_upper, chars_of, Text};
use vstd::prelude::*;

verus! {

/// U+FE0F, which asks for the emoji form of the character before it.
pub const VARIATION_SELECTOR_16: char = '\u{fe0f}';

/// U+20E3, which draws a keycap around the character before it.
pub const COMBINING_ENCLOSING_KEYCAP: char = '\u{20e3}';

/// The distance from an upper case letter to its regional indicator.
pub const UPPER_CASE_OFFSET: u32 = 0x1f1a5;

/// The distance from a lower case letter to its regional indicator.
pub const LOWER_CASE_OFFSET: u32 = 0x1f185;

/// Whether every character of the text is alphanumeric.
pub open spec fn all_alphanumeric(s: Text) -> bool {
    forall|i: int| 0 <= i < s.len() ==> alphanumeric(#[trigger] s[i])
}

/// Whether the characters at the two places are the same once their case is
/// set aside.
pub open spec fn same_letter(s: Text, i: int, j: int) -> bool {
    ascii_upper(s[i]) == ascii_upper(s[j])
}

/// Whether some character stands twice in the text, the case of letters set
/// aside.
pub open spec fn has_repetition(s: Text) -> bool {
    exists|i: int, j: int| 0 <= i < j < s.len() && same_letter(s, i, j)
}

/// The reaction that stands for one character. A letter of `A` to `Z` or `a`
/// to `z` gives its regional indicator; a digit gives its keycap sequence,
/// the digit followed by U+FE0F and U+20E3; any other character gives
/// itself.
pub open spec fn reaction_of(c: char) -> Text {
    if 'A' <= c && c <= 'Z' {
        seq![((c as u32) + UPPER_CASE_OFFSET) as char]
    } else if 'a' <= c && c <= 'z' {
        seq![((c as u32) + LOWER_CASE_OFFSET) as char]
    } else if '0' <= c && c <= '9' {
        seq![c, VARIATION_SELECTOR_16, COMBINING_ENCLOSING_KEYCAP]
    } else {
        seq![c]
    }
}

/// The reactions that stand for a text: one for each character, in order.
pub open spec fn reactions_of(s: Text) -> Seq<Text> {
    Seq::new(s.len(), |i: int| reaction_of(s[i]))
}

/// What the react command gives for an input. A character that is not
/// alphanumeric is found first; a repetition counts only in a text that is
/// alphanumeric throughout; a text with neither fault gives its reactions.
pub open spec fn react_outcome(s: Text) -> Result<ResponseView, CommandErrorView> {
    if !all_alphanumeric(s) {
        Err(CommandErrorView::NonAlphanumeric { original: s })
    } else if has_repetition(s) {
        Err(CommandErrorView::Repetition { original: s })
    } else {
        Ok(ResponseView::React { reactions: reactions_of(s) })
    }
}

/// The react command refuses every input that holds a character which is
/// not alphanumeric, as [`CommandErrorView::NonAlphanumeric`]; it refuses
/// every alphanumeric input in which a character repeats, the case of
/// letters set aside, as [`CommandErrorView::Repetition`]; and for every
/// other input it gives as many reactions as the input has characters.
pub proof fn lemma_react_validation(s: Text)
    ensures
        (exists|i: int| 0 <= i < s.len() && !alphanumeric(s[i])) ==> react_outcome(s) == Err::<
            ResponseView,
            _,
        >(CommandErrorView::NonAlphanumeric { original: s }),
        all_alphanumeric(s) && has_repetition(s) ==> react_outcome(s) == Err::<ResponseView, _>(
            CommandErrorView::Repetition { original: s },
        ),
        all_alphanumeric(s) && !has_repetition(s) ==> (react_outcome(s) matches Ok(
            ResponseView::React { reactions },
        ) && reactions.len() == s.len()),
{
}

/// The reaction that stands for one character.
pub fn to_reaction(c: char) -> (reaction: String)
    ensures
        reaction@ == reaction_of(c),
{
    let mut reaction = String::new();
    let val: u32 = c as u32;
    if 'A' <= c && c <= 'Z' {
        match char::from_u32(val + UPPER_CASE_OFFSET) {
            Some(indicator) => reaction.push(indicator),
            None => reaction.push(c),
        }
    } else if 'a' <= c && c <= 'z' {
        match char::from_u32(val + LOWER_CASE_OFFSET) {
            Some(indicator) => reaction.push(indicator),
            None => reaction.push(c),
        }
    } else if '0' <= c && c <= '9' {
        reaction.push(c);
        reaction.push(VARIATION_SELECTOR_16);
        reaction.push(COMBINING_ENCLOSING_KEYCAP);
    } else {
        reaction.push(c);
    }
    assert(reaction@ =~= reaction_of(c));
    reaction
}

/// Convert a string to a sequence of emojis representing its characters.
pub fn to_reactions(input: &str) -> (reactions: Vec<String>)
    ensures
        texts(reactions@) == reactions_of(input@),
{
    let chars = chars_of(input);
    let mut reactions: Vec<String> = Vec::new();
    let mut i: usize = 0;
    while i < chars.len()
        invariant
            i <= chars.len(),
            chars@ == input@,
            reactions.len() == i,
            forall|k: int| 0 <= k < i ==> (#[trigger] reactions@[k])@ == reaction_of(input@[k]),
        decreases chars.len() - i,
    {
        reactions.push(to_reaction(chars[i]));
        i += 1;
    }
    assert(texts(reactions@) =~= reactions_of(input@));
    reactions
}

/// Whether a character of the text is not alphanumeric.
fn has_non_alphanumeric(chars: &Vec<char>) -> (found: bool)
    ensures
        found == !all_alphanumeric(chars@),
{
    let mut i: usize = 0;
    while i < chars.len()
        invariant
            i <= chars.len(),
            forall|k: int| 0 <= k < i ==> alphanumeric(#[trigger] chars@[k]),
        decreases chars.len() - i,
    {
        if !chars[i].is_alphanumeric() {
            return true;
        }
        i += 1;
    }
    false
}

/// Whether a character stands twice in the text, the case of letters set
/// aside.
fn has_repeated(chars: &Vec<char>) -> (found: bool)
    ensures
        found == has_repetition(chars@),
{
    let n: usize = chars.len();
    let mut j: usize = 0;
    while j < n
        invariant
            j <= n,
            n == chars.len(),
            forall|a: int, b: int| 0 <= a < b < j ==> !same_letter(chars@, a, b),
        decreases n - j,
    {
        let upper = chars[j].to_ascii_uppercase();
        let mut i: usize = 0;
        while i < j
            invariant
                i <= j < n,
                n == chars.len(),
                upper == ascii_upper(chars@[j as int]),
                forall|a: int| 0 <= a < i ==> !same_letter(chars@, a, j as int),
            decreases j - i,
        {
            if chars[i].to_ascii_uppercase() == upper {
                assert(same_letter(chars@, i as int, j as int));
                return true;
            }
            i += 1;
        }
        j += 1;
    }
    false
}

/// Runs the react command on the input as it stands.
pub fn react(input: String) -> (result: Result<Response, CommandError>)
    ensures
        match result {
            Ok(response) => react_outcome(input@) == Ok::<_, CommandErrorView>(response@),
            Err(error) => react_outcome(input@) == Err::<ResponseView, _>(error@),
        },
{
    let chars = chars_of(input.as_str());
    if has_non_alphanumeric(&chars) {
        Err(CommandError::NonAlphanumeric { original: input })
    } else if has_repeated(&chars) {
        Err(CommandError::Repetition { original: input })
    } else {
        Ok(Response::React { reactions: to_reactions(input.as_str()) })
    }
}

} // verus!
