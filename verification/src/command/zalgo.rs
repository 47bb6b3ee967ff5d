//! Convert text to Zalgo text.

use crate::command::{Response, ResponseView};
use crate::text::{byte_len, chars_of, lemma_byte_len, Text};
use vstd::arithmetic::div_mod::lemma_fundamental_div_mod_converse;
use vstd::prelude::*;

verus! {

/// The combining marks that are put after each character where no limit is
/// set, and the most that are put after one in any case.
pub const MARKS_PER_CHAR: usize = 10;

/// The first of the combining diacritical marks.
pub const FIRST_MARK: u32 = 0x300;

/// The last of the combining diacritical marks. The draw stops short of it.
pub const LAST_MARK: u32 = 0x36f;

/// Whether the character is a combining mark that a draw can give.
pub open spec fn is_mark(c: char) -> bool {
    FIRST_MARK <= c as u32 && (c as u32) < LAST_MARK
}

/// How many marks follow each character of an input that is `input_len`
/// bytes long. Without a limit there are [`MARKS_PER_CHAR`]. With a limit
/// of `max` there are as many as fit: the room that the input leaves in
/// `max`, shared out among its bytes and rounded down, and at most
/// [`MARKS_PER_CHAR`]. An empty input, and one longer than the limit, get
/// none.
pub open spec fn marks_per_char(input_len: int, max_chars: Option<usize>) -> int {
    match max_chars {
        None => MARKS_PER_CHAR as int,
        Some(max) => if input_len <= 0 || max < input_len {
            0
        } else {
            let room = (max - input_len) / input_len;
            if room < MARKS_PER_CHAR {
                room
            } else {
                MARKS_PER_CHAR as int
            }
        },
    }
}

/// The character at place `k` of a text whose every character is followed
/// by `per_char` marks, the marks taken from `marks` in order.
pub open spec fn interleaved_char(s: Text, per_char: int, marks: Seq<char>, k: int) -> char {
    let group = k / (per_char + 1);
    let place = k % (per_char + 1);
    if place == 0 {
        s[group]
    } else {
        marks[group * per_char + place - 1]
    }
}

/// The text `s` with `per_char` marks after each character, the marks taken
/// from `marks` in order.
pub open spec fn interleaved(s: Text, per_char: int, marks: Seq<char>) -> Text {
    Seq::new((s.len() * (per_char + 1)) as nat, |k: int| interleaved_char(s, per_char, marks, k))
}

/// Whether `output` is a Zalgo form of `s` with `per_char` marks to the
/// character: `s` with that many marks after each character, whichever
/// marks they are.
pub open spec fn is_zalgo_of(s: Text, per_char: int, output: Text) -> bool {
    exists|marks: Seq<char>|
        {
            &&& marks.len() == s.len() * per_char
            &&& forall|k: int| 0 <= k < marks.len() ==> is_mark(#[trigger] marks[k])
            &&& output == interleaved(s, per_char, marks)
        }
}

/// Where its marks come in full, the interleaved text keeps each character
/// of `s` at the head of its group, and everything between two heads is a
/// mark.
pub proof fn lemma_interleaved(s: Text, per_char: int, marks: Seq<char>, i: int, j: int)
    requires
        per_char >= 0,
        marks.len() == s.len() * per_char,
        0 <= i < s.len(),
        0 <= j < per_char,
    ensures
        interleaved(s, per_char, marks).len() == s.len() * (per_char + 1),
        0 <= i * (per_char + 1) + j + 1 < s.len() * (per_char + 1),
        interleaved(s, per_char, marks)[i * (per_char + 1)] == s[i],
        0 <= i * per_char + j < marks.len(),
        interleaved(s, per_char, marks)[i * (per_char + 1) + j + 1] == marks[i * per_char + j],
{
    lemma_group_bounds(s.len() as int, per_char, i, j + 1);
    lemma_fundamental_div_mod_converse(i * (per_char + 1), per_char + 1, i, 0);
    lemma_fundamental_div_mod_converse(i * (per_char + 1) + j + 1, per_char + 1, i, j + 1);
}

/// Place `j` of group `i` lies within `n` groups, with marks and without.
proof fn lemma_group_bounds(n: int, per_char: int, i: int, j: int)
    requires
        per_char >= 0,
        0 <= i < n,
        0 <= j <= per_char,
    ensures
        0 <= i * (per_char + 1) + j < n * (per_char + 1),
        0 <= i * per_char,
        i * per_char + per_char <= n * per_char,
        i * (per_char + 1) == i * per_char + i,
        (i + 1) * (per_char + 1) == i * (per_char + 1) + per_char + 1,
        (i + 1) * per_char == i * per_char + per_char,
{
    assert(0 <= i * per_char) by (nonlinear_arith)
        requires
            0 <= i,
            0 <= per_char,
    ;
    assert((i + 1) * per_char <= n * per_char) by (nonlinear_arith)
        requires
            i + 1 <= n,
            0 <= per_char,
    ;
    assert((i + 1) * (per_char + 1) <= n * (per_char + 1)) by (nonlinear_arith)
        requires
            i + 1 <= n,
            0 <= per_char,
    ;
    assert((i + 1) * per_char == i * per_char + per_char) by (nonlinear_arith);
    assert((i + 1) * (per_char + 1) == i * (per_char + 1) + per_char + 1) by (nonlinear_arith);
    assert(i * (per_char + 1) == i * per_char + i) by (nonlinear_arith);
}

/// The input with `per_char` of the given marks after each character, the
/// marks taken in order; `None` unless there are exactly as many marks as
/// that takes.
pub fn interleave(input: &str, per_char: usize, marks: &Vec<char>) -> (output: Option<String>)
    ensures
        output is Some <==> marks.len() == input@.len() * per_char,
        output matches Some(text) ==> text@ == interleaved(input@, per_char as int, marks@),
{
    let chars = chars_of(input);
    let n: usize = chars.len();
    let mut text = String::new();
    let mut used: usize = 0;
    let mut i: usize = 0;
    while i < n
        invariant
            i <= n,
            n == chars.len(),
            chars@ == input@,
            used <= marks.len(),
            used == i * per_char,
            text@.len() == i * (per_char + 1),
            forall|k: int|
                0 <= k < text@.len() ==> text@[k] == interleaved_char(
                    input@,
                    per_char as int,
                    marks@,
                    k,
                ),
        decreases n - i,
    {
        proof {
            lemma_group_bounds(n as int, per_char as int, i as int, 0);
            lemma_fundamental_div_mod_converse(i * (per_char + 1), per_char + 1, i as int, 0);
        }
        text.push(chars[i]);
        let mut j: usize = 0;
        while j < per_char
            invariant
                j <= per_char,
                i < n,
                n == chars.len(),
                chars@ == input@,
                used <= marks.len(),
                used == i * per_char + j,
                text@.len() == i * (per_char + 1) + 1 + j,
                forall|k: int|
                    0 <= k < text@.len() ==> text@[k] == interleaved_char(
                        input@,
                        per_char as int,
                        marks@,
                        k,
                    ),
            decreases per_char - j,
        {
            if used >= marks.len() {
                proof {
                    lemma_group_bounds(n as int, per_char as int, i as int, j as int);
                }
                return None;
            }
            proof {
                lemma_fundamental_div_mod_converse(
                    i * (per_char + 1) + j + 1,
                    per_char + 1,
                    i as int,
                    j + 1,
                );
            }
            text.push(marks[used]);
            used += 1;
            j += 1;
        }
        proof {
            lemma_group_bounds(n as int, per_char as int, i as int, per_char as int);
        }
        i += 1;
    }
    if used == marks.len() {
        assert(text@ =~= interleaved(input@, per_char as int, marks@));
        Some(text)
    } else {
        None
    }
}

/// A number drawn at random from `low` up to but not including `high`.
/// `rand::Rng::gen_range` on the thread's generator promises a value within
/// the range it is given and panics on an empty one, which `requires` keeps
/// out; which value comes is left open.
#[verifier::external_body]
fn random_in(low: u32, high: u32) -> (value: u32)
    requires
        low < high,
    ensures
        low <= value < high,
{
    rand::Rng::gen_range(&mut rand::thread_rng(), low..high)
}

/// One combining mark, drawn at random.
fn draw_mark() -> (mark: char)
    ensures
        is_mark(mark),
{
    let value: u32 = random_in(FIRST_MARK, LAST_MARK);
    match char::from_u32(value) {
        Some(mark) => mark,
        None => '\u{300}',
    }
}

/// The input with `per_char` combining marks, drawn at random, after each of
/// its characters.
pub fn zalgify(input: String, per_char: usize) -> (output: String)
    ensures
        is_zalgo_of(input@, per_char as int, output@),
{
    let n: usize = chars_of(input.as_str()).len();
    let mut marks: Vec<char> = Vec::new();
    let mut i: usize = 0;
    while i < n
        invariant
            i <= n,
            n == input@.len(),
            marks@.len() == i * per_char,
            forall|k: int| 0 <= k < marks@.len() ==> is_mark(#[trigger] marks@[k]),
        decreases n - i,
    {
        let mut j: usize = 0;
        while j < per_char
            invariant
                j <= per_char,
                marks@.len() == i * per_char + j,
                forall|k: int| 0 <= k < marks@.len() ==> is_mark(#[trigger] marks@[k]),
            decreases per_char - j,
        {
            marks.push(draw_mark());
            j += 1;
        }
        proof {
            lemma_group_bounds(n as int, per_char as int, i as int, 0);
        }
        i += 1;
    }
    match interleave(input.as_str(), per_char, &marks) {
        Some(text) => text,
        None => input,
    }
}

/// Under a limit, the marks never push the output over it: the Zalgo form
/// of an input that is no longer than the limit holds at most as many
/// characters as the limit allows, and that of a longer input is the input.
pub proof fn lemma_zalgo_keeps_the_limit(s: Text, max: usize, output: Text)
    requires
        is_zalgo_of(s, marks_per_char(byte_len(s) as int, Some(max)), output),
    ensures
        byte_len(s) <= max ==> output.len() <= max,
        byte_len(s) > max ==> output == s,
        marks_per_char(byte_len(s) as int, Some(max)) <= MARKS_PER_CHAR,
{
    lemma_byte_len(s);
    let len = byte_len(s) as int;
    let per_char = marks_per_char(len, Some(max));
    let marks = choose|marks: Seq<char>|
        {
            &&& marks.len() == s.len() * per_char
            &&& forall|k: int| 0 <= k < marks.len() ==> is_mark(#[trigger] marks[k])
            &&& output == interleaved(s, per_char, marks)
        };
    if len == 0 || max < len {
        assert(per_char == 0);
        assert(s.len() * (0 + 1) == s.len()) by (nonlinear_arith);
        assert forall|k: int| 0 <= k < s.len() implies interleaved_char(s, 0, marks, k)
            == s[k] by {
            assert(k / 1 == k && k % 1 == 0);
        }
        assert(output =~= s);
    } else {
        let room = (max - len) / len;
        assert(room * len <= max - len) by (nonlinear_arith)
            requires
                room == (max - len) / len,
                len > 0,
                max - len >= 0,
        ;
        assert(0 <= per_char <= room) by (nonlinear_arith)
            requires
                room == (max - len) / len,
                len > 0,
                max - len >= 0,
                per_char == if room < MARKS_PER_CHAR {
                    room
                } else {
                    MARKS_PER_CHAR as int
                },
        ;
        assert(s.len() * (per_char + 1) <= len * (room + 1)) by (nonlinear_arith)
            requires
                s.len() <= len,
                0 <= per_char <= room,
        ;
        assert(len * (room + 1) == room * len + len) by (nonlinear_arith);
    }
}

/// Runs the zalgo command: the response holds a Zalgo form of the input,
/// with as many marks to the character as [`marks_per_char`] allows for the
/// input's length in bytes.
pub fn zalgo(input: String, max_chars: Option<usize>) -> (response: Response)
    ensures
        response@ matches ResponseView::Zalgo { output } && is_zalgo_of(
            input@,
            marks_per_char(byte_len(input@) as int, max_chars),
            output,
        ),
{
    let len: usize = input.as_str().as_bytes().len();
    let per_char: usize = match max_chars {
        None => MARKS_PER_CHAR,
        Some(max) => if len == 0 || max < len {
            0
        } else {
            let room: usize = (max - len) / len;
            if room < MARKS_PER_CHAR {
                room
            } else {
                MARKS_PER_CHAR
            }
        },
    };
    Response::Zalgo { output: zalgify(input, per_char) }
}

} // verus!
