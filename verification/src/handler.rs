//! Handle incoming messages.
//!
//! The handler looks at a message to determine whether it holds a command,
//! and if it does, makes a [`Task`] of it. Recognition goes by prefixes and
//! nothing else: the text has to begin with the handler's prefix, which a
//! private message may leave out, and what follows has to begin with the
//! keyword of a command. A text after a valid prefix that begins with no
//! keyword is no command and is passed over in silence; it is never reported
//! as a mistake.

use crate::command::info::Timestamp;
use crate::command::{Command, CommandView};
use crate::task::{begins, Context, Step, Task, TaskError};
use crate::text::{
    alphanumeric, chars_of, push_text, starts_with_at, substring, trim, trimmed, Text,
};
use vstd::prelude::*;

verus! {

/// The keywords of the commands, in the order in which they are tried.
pub const CLAP: &'static str = "clap";

pub const INFO: &'static str = "info";

pub const PING: &'static str = "ping";

pub const REACT: &'static str = "react";

pub const SKETCHIFY: &'static str = "sketchify";

pub const SPONGEBOB: &'static str = "spongebob";

pub const WAVY: &'static str = "wavy";

pub const ZALGO: &'static str = "zalgo";

pub const KARMA: &'static str = "karma";

/// What follows a word to give its subject one more karma.
pub const INCREMENT: &'static str = "++";

/// What follows a word to give its subject one less karma.
pub const DECREMENT: &'static str = "--";

/// A message as the handler sees it.
#[derive(Debug, PartialEq, Eq)]
pub struct Message {
    /// The id of the message.
    pub id: u64,
    /// The channel in which the message stands.
    pub channel_id: u64,
    /// Who wrote the message.
    pub author_id: u64,
    /// The text of the message.
    pub content: String,
    /// Whether the message was sent to the bot in private.
    pub private: bool,
}

impl Message {
    /// The context that the message gives to a command.
    pub open spec fn context(self) -> Context {
        Context { channel_id: self.channel_id, message_id: self.id, author_id: self.author_id }
    }
}

/// Hatysa event handler.
///
/// This is the outermost entrypoint for command execution. Messages passed
/// to [`Handler::message`] are interpreted to determine if they match a
/// command, and if they do, the command is made a task and executed.
#[derive(Debug, PartialEq, Eq)]
pub struct Handler {
    /// The string that must come before all commands' names.
    pub prefix: String,
    /// The date and time when this handler started running.
    pub start_time: Timestamp,
}

/// Errors that could occur while handling a message: those that the task
/// which the message starts can end with.
pub type HandlerError = TaskError;

/// The part of a message that may hold a command: what follows the prefix,
/// or, in a private message that does not begin with the prefix, the whole
/// text. A message in a channel that does not begin with the prefix has no
/// such part.
pub open spec fn command_body(prefix: Text, content: Text, private: bool) -> Option<Text> {
    if prefix.is_prefix_of(content) {
        Some(content.skip(prefix.len() as int))
    } else if private {
        Some(content)
    } else {
        None
    }
}

/// What a command that begins with `keyword` is given to work on: the rest
/// of the body, without the whitespace at either end. Nothing has to
/// separate the keyword from what follows it.
pub open spec fn payload(body: Text, keyword: Text) -> Text {
    trimmed(body.skip(keyword.len() as int))
}

/// The command that a body begins with. The keywords are tried in a fixed
/// order and the first that the body begins with decides. The commands
/// without a payload take any body that begins with their keyword. The
/// `karma` keyword counts only in a channel: with nothing after it, it asks
/// for the top subjects, with something after it, for that subject.
pub open spec fn keyword_command(body: Text, private: bool, start_time: Timestamp) -> Option<
    CommandView,
> {
    if CLAP@.is_prefix_of(body) {
        Some(CommandView::Clap { input: payload(body, CLAP@) })
    } else if INFO@.is_prefix_of(body) {
        Some(CommandView::Info { start_time })
    } else if PING@.is_prefix_of(body) {
        Some(CommandView::Ping)
    } else if REACT@.is_prefix_of(body) {
        Some(CommandView::React { input: payload(body, REACT@) })
    } else if SKETCHIFY@.is_prefix_of(body) {
        Some(CommandView::Sketchify { url_raw: payload(body, SKETCHIFY@) })
    } else if SPONGEBOB@.is_prefix_of(body) {
        Some(CommandView::Spongebob { input: payload(body, SPONGEBOB@) })
    } else if WAVY@.is_prefix_of(body) {
        Some(CommandView::Wavy { input: payload(body, WAVY@) })
    } else if ZALGO@.is_prefix_of(body) {
        Some(CommandView::Zalgo { input: payload(body, ZALGO@), max_chars: None })
    } else if !private && KARMA@.is_prefix_of(body) {
        if payload(body, KARMA@).len() == 0 {
            Some(CommandView::KarmaTop)
        } else {
            Some(CommandView::Karma { subject: payload(body, KARMA@) })
        }
    } else {
        None
    }
}

/// Whether the character can stand in a word: a letter, a digit or an
/// underscore.
pub open spec fn is_word_char(c: char) -> bool {
    alphanumeric(c) || c == '_'
}

/// Whether the text is a word: at least one character, each of which can
/// stand in a word.
pub open spec fn is_word(s: Text) -> bool {
    s.len() > 0 && forall|i: int| 0 <= i < s.len() ==> is_word_char(#[trigger] s[i])
}

/// Whether the text is a word with `mark` right after it and nothing else.
pub open spec fn is_marked_word(content: Text, mark: Text) -> bool {
    content.len() > mark.len() && is_word(content.take(content.len() - mark.len()))
        && content.skip(content.len() - mark.len()) == mark
}

/// The shorthand that a message is: a word with `++` right after it gives
/// the word one more karma, a word with `--` right after it one less. The
/// whole text of the message has to be of that form, as it stands; the
/// prefix plays no part.
pub open spec fn shorthand(content: Text) -> Option<CommandView> {
    if is_marked_word(content, INCREMENT@) {
        Some(
            CommandView::KarmaIncrement {
                subject: content.take(content.len() - INCREMENT@.len()),
            },
        )
    } else if is_marked_word(content, DECREMENT@) {
        Some(
            CommandView::KarmaDecrement {
                subject: content.take(content.len() - DECREMENT@.len()),
            },
        )
    } else {
        None
    }
}

/// The command that a message through its prefix and a keyword stands for.
pub open spec fn keyed(
    prefix: Text,
    start_time: Timestamp,
    content: Text,
    private: bool,
) -> Option<CommandView> {
    match command_body(prefix, content, private) {
        Some(body) => keyword_command(body, private, start_time),
        None => None,
    }
}

/// The command that a message stands for, if it stands for one: the one
/// that its prefix and a keyword give, and where they give none, the
/// shorthand that the text is.
pub open spec fn interpreted(
    prefix: Text,
    start_time: Timestamp,
    content: Text,
    private: bool,
) -> Option<CommandView> {
    match keyed(prefix, start_time, content, private) {
        Some(command) => Some(command),
        None => shorthand(content),
    }
}

/// Interpreting goes by the prefix, the start time and the message alone:
/// whatever two interpretations of one message under one handler give, they
/// give the same.
pub proof fn lemma_interpretation_is_fixed(
    prefix: Text,
    start_time: Timestamp,
    content: Text,
    private: bool,
    first: Option<CommandView>,
    second: Option<CommandView>,
)
    requires
        first == interpreted(prefix, start_time, content, private),
        second == interpreted(prefix, start_time, content, private),
    ensures
        first == second,
{
}

/// A message in a channel that does not begin with the prefix is no
/// command, whatever it holds, unless it is a shorthand, which needs no
/// prefix.
pub proof fn lemma_prefix_is_required(prefix: Text, start_time: Timestamp, content: Text)
    requires
        !prefix.is_prefix_of(content),
        shorthand(content) is None,
    ensures
        interpreted(prefix, start_time, content, false) is None,
{
}

/// A text after a valid prefix that begins with no keyword is no command:
/// it gives nothing, and no error either, unless the message is a
/// shorthand.
pub proof fn lemma_unknown_keyword_is_passed_over(
    prefix: Text,
    start_time: Timestamp,
    content: Text,
    private: bool,
)
    requires
        command_body(prefix, content, private) matches Some(body) && keyword_command(
            body,
            private,
            start_time,
        ) is None,
    ensures
        interpreted(prefix, start_time, content, private) == shorthand(content),
        shorthand(content) is None ==> interpreted(prefix, start_time, content, private) is None,
{
}

/// The view of a command that may be missing.
pub open spec fn optional_command(command: Option<Command>) -> Option<CommandView> {
    match command {
        Some(command) => Some(command@),
        None => None,
    }
}

/// The payload of the body `content[at..]` for `keyword`, if the body begins
/// with the keyword.
fn payload_at(content: &Vec<char>, at: usize, keyword: &str) -> (found: Option<String>)
    requires
        at <= content.len(),
    ensures
        match found {
            Some(text) => keyword@.is_prefix_of(content@.skip(at as int)) && text@ == payload(
                content@.skip(at as int),
                keyword@,
            ),
            None => !keyword@.is_prefix_of(content@.skip(at as int)),
        },
{
    let pattern = chars_of(keyword);
    if starts_with_at(content, at, &pattern) {
        let from: usize = at + pattern.len();
        let range = trim(content, from);
        assert(content@.skip(at as int).skip(keyword@.len() as int) =~= content@.skip(
            from as int,
        ));
        Some(substring(content, range.0, range.1))
    } else {
        None
    }
}

/// Whether the body `content[at..]` begins with `keyword`.
fn begins_at(content: &Vec<char>, at: usize, keyword: &str) -> (found: bool)
    requires
        at <= content.len(),
    ensures
        found == keyword@.is_prefix_of(content@.skip(at as int)),
{
    let pattern = chars_of(keyword);
    starts_with_at(content, at, &pattern)
}

/// The subject of the shorthand with `mark`, if the text is a word with
/// `mark` right after it.
fn marked_word(content: &Vec<char>, mark: &str) -> (subject: Option<String>)
    ensures
        match subject {
            Some(word) => is_marked_word(content@, mark@) && word@ == content@.take(
                content@.len() - mark@.len(),
            ),
            None => !is_marked_word(content@, mark@),
        },
{
    let pattern = chars_of(mark);
    if content.len() <= pattern.len() {
        return None;
    }
    let end: usize = content.len() - pattern.len();
    if !starts_with_at(content, end, &pattern) {
        return None;
    }
    assert(content@.skip(end as int) =~= mark@);
    let mut i: usize = 0;
    while i < end
        invariant
            i <= end <= content.len(),
            end == content@.len() - mark@.len(),
            forall|k: int| 0 <= k < i ==> is_word_char(#[trigger] content@.take(end as int)[k]),
        decreases end - i,
    {
        let c = content[i];
        if !(c.is_alphanumeric() || c == '_') {
            assert(content@.take(end as int)[i as int] == c);
            assert(!is_word_char(content@.take(end as int)[i as int]));
            return None;
        }
        i += 1;
    }
    let word = substring(content, 0, end);
    assert(content@.subrange(0, end as int) =~= content@.take(end as int));
    Some(word)
}

/// The shorthand that the text is, if it is one.
fn interpret_shorthand(content: &Vec<char>) -> (command: Option<Command>)
    ensures
        optional_command(command) == shorthand(content@),
{
    match marked_word(content, INCREMENT) {
        Some(subject) => Some(Command::KarmaIncrement { subject }),
        None => match marked_word(content, DECREMENT) {
            Some(subject) => Some(Command::KarmaDecrement { subject }),
            None => None,
        },
    }
}

impl Handler {
    /// The activity that the bot shows once it is connected: the prefix
    /// and the `react` keyword, as a hint at how to call it.
    pub fn ready(&self) -> (activity: String)
        ensures
            activity@ == self.prefix@ + REACT@,
    {
        let mut activity = self.prefix.clone();
        push_text(&mut activity, REACT);
        activity
    }

    /// The command that the body `content[at..]` begins with.
    fn interpret_body(&self, content: &Vec<char>, at: usize, private: bool) -> (command: Option<
        Command,
    >)
        requires
            at <= content.len(),
        ensures
            optional_command(command) == keyword_command(
                content@.skip(at as int),
                private,
                self.start_time,
            ),
    {
        if let Some(input) = payload_at(content, at, CLAP) {
            Some(Command::Clap { input })
        } else if begins_at(content, at, INFO) {
            Some(Command::Info { start_time: self.start_time })
        } else if begins_at(content, at, PING) {
            Some(Command::Ping)
        } else if let Some(input) = payload_at(content, at, REACT) {
            Some(Command::React { input })
        } else if let Some(url_raw) = payload_at(content, at, SKETCHIFY) {
            Some(Command::Sketchify { url_raw })
        } else if let Some(input) = payload_at(content, at, SPONGEBOB) {
            Some(Command::Spongebob { input })
        } else if let Some(input) = payload_at(content, at, WAVY) {
            Some(Command::Wavy { input })
        } else if let Some(input) = payload_at(content, at, ZALGO) {
            Some(Command::Zalgo { input, max_chars: None })
        } else if private {
            None
        } else if let Some(subject) = payload_at(content, at, KARMA) {
            if subject.as_str().unicode_len() == 0 {
                Some(Command::KarmaTop)
            } else {
                Some(Command::Karma { subject })
            }
        } else {
            None
        }
    }

    /// Attempt to parse a message as a command. If the message does not
    /// contain a valid command, `None` is returned.
    pub fn interpret_command(&self, msg: &Message) -> (command: Option<Command>)
        ensures
            optional_command(command) == interpreted(
                self.prefix@,
                self.start_time,
                msg.content@,
                msg.private,
            ),
    {
        let content = chars_of(msg.content.as_str());
        let prefix = chars_of(self.prefix.as_str());
        // Messages in a channel must have a prefix on them, but it's optional
        // for private messages.
        let keyed = if starts_with_at(&content, 0, &prefix) {
            assert(content@.skip(0) =~= content@);
            self.interpret_body(&content, prefix.len(), msg.private)
        } else if msg.private {
            assert(content@.skip(0) =~= content@);
            self.interpret_body(&content, 0, msg.private)
        } else {
            assert(content@.skip(0) =~= content@);
            None
        };
        match keyed {
            Some(command) => Some(command),
            None => interpret_shorthand(&content),
        }
    }

    /// Handle a message: if it holds a command, the command is made a task
    /// for the message and executed, and the first step of the task is
    /// handed back; if it holds none, nothing is.
    pub fn message(&self, msg: &Message) -> (step: Option<Step>)
        ensures
            match step {
                Some(step) => interpreted(
                    self.prefix@,
                    self.start_time,
                    msg.content@,
                    msg.private,
                ) matches Some(command) && begins(command, msg.context(), step@),
                None => interpreted(self.prefix@, self.start_time, msg.content@, msg.private)
                    is None,
            },
    {
        match self.interpret_command(msg) {
            Some(command) => {
                let context = Context {
                    channel_id: msg.channel_id,
                    message_id: msg.id,
                    author_id: msg.author_id,
                };
                Some(Task::new(command, context).execute())
            },
            None => None,
        }
    }
}

} // verus!
