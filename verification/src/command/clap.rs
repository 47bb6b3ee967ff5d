//! Insert clapping emojis between every word of the input text.

use crate::command::{Response, ResponseView};
use crate::text::{chars_of, join, Text};
use vstd::prelude::*;

verus! {

/// The clapping hands emoji.
pub const CLAP: char = '\u{1F44F}';

/// What follows the last word: a space and the emoji.
pub open spec fn clap_suffix() -> Text {
    seq![' ', CLAP]
}

/// What stands between two words: the emoji with a space on either side.
pub open spec fn clap_separator() -> Text {
    seq![' ', CLAP, ' ']
}

/// The position of the first space in `s`, or the length of `s` if it holds
/// none.
pub open spec fn first_space(s: Text) -> int
    decreases s.len(),
{
    if s.len() == 0 || s[0] == ' ' {
        0
    } else {
        1 + first_space(s.skip(1))
    }
}

/// The words of `s`: the pieces between its spaces. Two spaces in a row have
/// an empty word between them, and a text without a space is one word.
pub open spec fn words(s: Text) -> Seq<Text>
    decreases s.len(),
{
    let i = first_space(s);
    if 0 <= i < s.len() {
        seq![s.take(i)] + words(s.skip(i + 1))
    } else {
        seq![s]
    }
}

/// The clapped form of a text. The empty text stays empty. Any other text has
/// the emoji put between each two neighbouring words and once more after the
/// last.
pub open spec fn clapped(s: Text) -> Text {
    if s.len() == 0 {
        Seq::empty()
    } else {
        join(words(s), clap_separator()) + clap_suffix()
    }
}

/// The text with each space replaced by the separator.
spec fn spaced(s: Text) -> Text
    decreases s.len(),
{
    if s.len() == 0 {
        Seq::empty()
    } else if s[0] == ' ' {
        clap_separator() + spaced(s.skip(1))
    } else {
        seq![s[0]] + spaced(s.skip(1))
    }
}

proof fn lemma_first_space(s: Text)
    ensures
        0 <= first_space(s) <= s.len(),
        first_space(s) < s.len() ==> s[first_space(s)] == ' ',
        forall|k: int| 0 <= k < first_space(s) ==> s[k] != ' ',
    decreases s.len(),
{
    if s.len() == 0 || s[0] == ' ' {
    } else {
        lemma_first_space(s.skip(1));
        assert forall|k: int| 0 <= k < first_space(s) implies s[k] != ' ' by {
            if k > 0 {
                assert(s.skip(1)[k - 1] == s[k]);
            }
        }
    }
}

/// A text without a space is its own spaced form.
proof fn lemma_spaced_plain(s: Text)
    requires
        forall|k: int| 0 <= k < s.len() ==> s[k] != ' ',
    ensures
        spaced(s) == s,
    decreases s.len(),
{
    if s.len() > 0 {
        lemma_spaced_plain(s.skip(1));
        assert(seq![s[0]] + s.skip(1) =~= s);
    }
}

/// The spaced form of a text that begins with a word `w` free of spaces.
proof fn lemma_spaced_word(w: Text, rest: Text)
    requires
        forall|k: int| 0 <= k < w.len() ==> w[k] != ' ',
    ensures
        spaced(w + rest) == w + spaced(rest),
    decreases w.len(),
{
    if w.len() == 0 {
        assert(w + rest =~= rest);
        assert(w + spaced(rest) =~= spaced(rest));
    } else {
        let s = w + rest;
        assert(s[0] == w[0]);
        assert(s.skip(1) =~= w.skip(1) + rest);
        lemma_spaced_word(w.skip(1), rest);
        assert(seq![w[0]] + (w.skip(1) + spaced(rest)) =~= w + spaced(rest));
    }
}

/// Replacing each space by the separator is joining the words with it.
proof fn lemma_spaced_is_join(s: Text)
    ensures
        spaced(s) == join(words(s), clap_separator()),
    decreases s.len(),
{
    lemma_first_space(s);
    let i = first_space(s);
    if 0 <= i < s.len() {
        let w = s.take(i);
        let rest = s.skip(i + 1);
        lemma_spaced_is_join(rest);
        let tail = seq![' '] + rest;
        assert(s =~= w + tail);
        lemma_spaced_word(w, tail);
        assert(tail.skip(1) =~= rest);
        assert(spaced(tail) == clap_separator() + spaced(rest));
        let ws = words(s);
        assert(ws == seq![w] + words(rest));
        assert(ws.len() >= 2);
        assert(ws[0] == w);
        assert(ws.skip(1) =~= words(rest));
        assert(w + (clap_separator() + spaced(rest)) =~= w + clap_separator() + spaced(rest));
    } else {
        lemma_spaced_plain(s);
        assert(words(s) == seq![s]);
        assert(words(s)[0] == s);
    }
}

/// The words of a text are what its spaces part: there is at least one
/// word, no word holds a space, and the words put together again with a
/// space between each two give the text.
pub proof fn lemma_words(s: Text)
    ensures
        words(s).len() >= 1,
        forall|i: int, k: int|
            0 <= i < words(s).len() && 0 <= k < words(s)[i].len() ==> #[trigger] words(s)[i][k]
                != ' ',
        join(words(s), seq![' ']) == s,
    decreases s.len(),
{
    lemma_first_space(s);
    let i = first_space(s);
    if 0 <= i < s.len() {
        let w = s.take(i);
        let rest = s.skip(i + 1);
        lemma_words(rest);
        let ws = words(s);
        assert(ws == seq![w] + words(rest));
        assert(ws[0] == w);
        assert(ws.skip(1) =~= words(rest));
        assert(w + seq![' '] + rest =~= s);
        assert forall|a: int, k: int| 0 <= a < ws.len() && 0 <= k < ws[a].len() implies #[trigger] ws[a][k]
            != ' ' by {
            if a > 0 {
                assert(ws[a] == words(rest)[a - 1]);
            }
        }
    } else {
        assert(words(s) == seq![s]);
        assert(words(s)[0] == s);
    }
}

/// The clapped form of a text that is not empty has the emoji between each
/// two neighbouring words and once more after the last, and the clapped form
/// of the empty text is empty.
pub proof fn lemma_clapped(s: Text)
    ensures
        s.len() > 0 ==> clapped(s) == join(words(s), clap_separator()) + clap_suffix(),
        s.len() == 0 ==> clapped(s) == Seq::<char>::empty(),
        words(s).len() == 1 && s.len() > 0 ==> clapped(s) == s + clap_suffix(),
{
    if words(s).len() == 1 && s.len() > 0 {
        lemma_first_space(s);
        let i = first_space(s);
        if 0 <= i < s.len() {
            lemma_words(s.skip(i + 1));
            assert(words(s) == seq![s.take(i)] + words(s.skip(i + 1)));
        }
        assert(words(s)[0] == s);
    }
}

/// The clapped text.
pub fn clappify(input: &str) -> (output: String)
    ensures
        output@ == clapped(input@),
{
    let chars = chars_of(input);
    let mut output = String::new();
    let n: usize = chars.len();
    assert(chars@.skip(0) =~= chars@);
    assert(output@ + spaced(chars@) =~= spaced(chars@));
    let mut k: usize = 0;
    while k < n
        invariant
            k <= n,
            n == chars.len(),
            output@ + spaced(chars@.skip(k as int)) == spaced(chars@),
        decreases n - k,
    {
        let c = chars[k];
        let ghost before = output@;
        let ghost rest = chars@.skip(k as int);
        assert(rest[0] == c);
        assert(rest.skip(1) =~= chars@.skip(k + 1));
        if c == ' ' {
            output.push(' ');
            output.push(CLAP);
            output.push(' ');
            assert(output@ =~= before + clap_separator());
            assert(output@ + spaced(chars@.skip(k + 1)) =~= before + spaced(rest));
        } else {
            output.push(c);
            assert(output@ + spaced(chars@.skip(k + 1)) =~= before + spaced(rest));
        }
        k += 1;
    }
    assert(chars@.skip(n as int) =~= Seq::<char>::empty());
    assert(output@ =~= spaced(chars@));
    if n > 0 {
        proof {
            lemma_spaced_is_join(chars@);
        }
        let ghost before = output@;
        output.push(' ');
        output.push(CLAP);
        assert(output@ =~= before + clap_suffix());
    }
    output
}

/// Runs the clap command: the response holds the clapped input.
pub fn clap(input: String) -> (response: Response)
    ensures
        response@ == (ResponseView::Clap { output: clapped(input@) }),
{
    Response::Clap { output: clappify(input.as_str()) }
}

} // verus!
