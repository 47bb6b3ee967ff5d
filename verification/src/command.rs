//! Commands, their responses and their errors.

pub mod clap;
pub mod info;
pub mod karma;
pub mod ping;
pub mod react;
pub mod sketchify;
pub mod spongebob;
pub mod wavy;
pub mod zalgo;

use crate::command::clap::clapped;
use crate::command::info::{is_info_since, Timestamp};
use crate::command::karma::{
    karma_views, Karma, KarmaView, StoreRequest, StoreRequestView, TOP_COUNT,
};
use crate::command::react::react_outcome;
use crate::command::sketchify::{sketchify_outcome, PostRequest, PostRequestView};
use crate::command::spongebob::spongebob_text;
use crate::command::wavy::wavy_text;
use crate::command::zalgo::{is_zalgo_of, marks_per_char};
use crate::text::byte_len;
use crate::text::Text;
use vstd::prelude::*;

verus! {

/// Commands that can be performed.
#[derive(Debug, PartialEq, Eq)]
pub enum Command {
    /// Insert clapping emojis between every word of the input text.
    Clap {
        /// The input to convert.
        input: String,
    },
    /// A request from a user for some information about the currently running
    /// instance of the bot.
    Info {
        /// The start time of this bot instance.
        start_time: Timestamp,
    },
    /// Get the current karma of a subject.
    Karma {
        /// The subject.
        subject: String,
    },
    /// Get a list of the subjects with the most karma.
    KarmaTop,
    /// Decrease the karma of a subject.
    KarmaDecrement {
        /// The subject.
        subject: String,
    },
    /// Increase the karma of a subject.
    KarmaIncrement {
        /// The subject.
        subject: String,
    },
    /// A request from a user for a response, to check if the bot is alive.
    Ping,
    /// Convert an input string into a series of emojis that can be used to
    /// react to a message.
    React {
        /// The string to convert to emojis.
        input: String,
    },
    /// Convert a URL to a "sketchified" equivalent.
    Sketchify {
        /// The string provided for the URL to sketchify.
        url_raw: String,
    },
    /// Convert text to Spongebob-case text.
    Spongebob {
        /// The input to convert.
        input: String,
    },
    /// Convert text to vaporwave (fullwidth) text.
    Wavy {
        /// The input to convert.
        input: String,
    },
    /// Convert text to Zalgo text.
    Zalgo {
        /// The input to convert.
        input: String,
        /// If provided, the maximum number of characters to output.
        max_chars: Option<usize>,
    },
}

/// What a [`Command`] holds, with each string as its characters.
pub enum CommandView {
    Clap { input: Text },
    Info { start_time: Timestamp },
    Karma { subject: Text },
    KarmaTop,
    KarmaDecrement { subject: Text },
    KarmaIncrement { subject: Text },
    Ping,
    React { input: Text },
    Sketchify { url_raw: Text },
    Spongebob { input: Text },
    Wavy { input: Text },
    Zalgo { input: Text, max_chars: Option<usize> },
}

impl View for Command {
    type V = CommandView;

    open spec fn view(&self) -> CommandView {
        match *self {
            Command::Clap { input } => CommandView::Clap { input: input@ },
            Command::Info { start_time } => CommandView::Info { start_time },
            Command::Karma { subject } => CommandView::Karma { subject: subject@ },
            Command::KarmaTop => CommandView::KarmaTop,
            Command::KarmaDecrement { subject } => CommandView::KarmaDecrement {
                subject: subject@,
            },
            Command::KarmaIncrement { subject } => CommandView::KarmaIncrement {
                subject: subject@,
            },
            Command::Ping => CommandView::Ping,
            Command::React { input } => CommandView::React { input: input@ },
            Command::Sketchify { url_raw } => CommandView::Sketchify { url_raw: url_raw@ },
            Command::Spongebob { input } => CommandView::Spongebob { input: input@ },
            Command::Wavy { input } => CommandView::Wavy { input: input@ },
            Command::Zalgo { input, max_chars } => CommandView::Zalgo { input: input@, max_chars },
        }
    }
}

/// Possible responses as a result of a command. A response holds what is to
/// be shown and nothing of the platform: no channel, no message.
#[derive(Debug, PartialEq, Eq)]
pub enum Response {
    /// Response to a [`Command::Clap`].
    Clap {
        /// The converted input.
        output: String,
    },
    /// Response to a [`Command::Info`].
    Info {
        /// The current version of the bot.
        version: String,
        /// Uptime, in the form `(days, hours, minutes, seconds)`.
        uptime: (i64, i64, i64, i64),
        /// The homepage of the bot.
        homepage: String,
    },
    /// Response to a [`Command::Karma`].
    Karma {
        /// The subject.
        subject: String,
        /// The amount of karma the subject has.
        karma: u32,
    },
    /// Response to a [`Command::KarmaTop`].
    KarmaTop {
        /// The top subjects, sorted by their karma.
        top: Vec<Karma>,
    },
    /// Response to a [`Command::KarmaDecrement`].
    KarmaDecrement,
    /// Response to a [`Command::KarmaIncrement`].
    KarmaIncrement,
    /// Response to a [`Command::Ping`].
    Pong,
    /// Response to a [`Command::React`].
    React {
        /// A sequence of emojis created to represent the input string.
        reactions: Vec<String>,
    },
    /// Response to a [`Command::Sketchify`].
    Sketchify {
        /// The converted URL.
        url: String,
    },
    /// Response to a [`Command::Spongebob`].
    Spongebob {
        /// The converted input.
        output: String,
    },
    /// Response to a [`Command::Wavy`].
    Wavy {
        /// The converted input.
        output: String,
    },
    /// Response to a [`Command::Zalgo`].
    Zalgo {
        /// The converted input.
        output: String,
    },
}

/// What a [`Response`] holds, with each string as its characters.
pub enum ResponseView {
    Clap { output: Text },
    Info { version: Text, uptime: (i64, i64, i64, i64), homepage: Text },
    Karma { subject: Text, karma: u32 },
    KarmaTop { top: Seq<KarmaView> },
    KarmaDecrement,
    KarmaIncrement,
    Pong,
    React { reactions: Seq<Text> },
    Sketchify { url: Text },
    Spongebob { output: Text },
    Wavy { output: Text },
    Zalgo { output: Text },
}

/// The characters of each string of a list.
pub open spec fn texts(list: Seq<String>) -> Seq<Text> {
    Seq::new(list.len(), |i: int| list[i]@)
}

impl View for Response {
    type V = ResponseView;

    open spec fn view(&self) -> ResponseView {
        match *self {
            Response::Clap { output } => ResponseView::Clap { output: output@ },
            Response::Info { version, uptime, homepage } => ResponseView::Info {
                version: version@,
                uptime,
                homepage: homepage@,
            },
            Response::Karma { subject, karma } => ResponseView::Karma { subject: subject@, karma },
            Response::KarmaTop { top } => ResponseView::KarmaTop { top: karma_views(top@) },
            Response::KarmaDecrement => ResponseView::KarmaDecrement,
            Response::KarmaIncrement => ResponseView::KarmaIncrement,
            Response::Pong => ResponseView::Pong,
            Response::React { reactions } => ResponseView::React { reactions: texts(reactions@) },
            Response::Sketchify { url } => ResponseView::Sketchify { url: url@ },
            Response::Spongebob { output } => ResponseView::Spongebob { output: output@ },
            Response::Wavy { output } => ResponseView::Wavy { output: output@ },
            Response::Zalgo { output } => ResponseView::Zalgo { output: output@ },
        }
    }
}

/// Errors that could occur during command processing.
#[derive(Debug, PartialEq, Eq)]
pub enum CommandError {
    /// The string holds a character that is neither a letter nor a digit.
    NonAlphanumeric { original: String },
    /// The string holds a character twice, the case of letters set aside.
    Repetition { original: String },
    /// The string is no URL.
    InvalidUrl,
    /// A request to another service did not complete.
    Request,
    /// Anything else; the text is for the log, not for the user.
    Internal(String),
}

/// What a [`CommandError`] holds, with each string as its characters.
pub enum CommandErrorView {
    NonAlphanumeric { original: Text },
    Repetition { original: Text },
    InvalidUrl,
    Request,
    Internal(Text),
}

impl View for CommandError {
    type V = CommandErrorView;

    open spec fn view(&self) -> CommandErrorView {
        match *self {
            CommandError::NonAlphanumeric { original } => CommandErrorView::NonAlphanumeric {
                original: original@,
            },
            CommandError::Repetition { original } => CommandErrorView::Repetition {
                original: original@,
            },
            CommandError::InvalidUrl => CommandErrorView::InvalidUrl,
            CommandError::Request => CommandErrorView::Request,
            CommandError::Internal(text) => CommandErrorView::Internal(text@),
        }
    }
}

/// The outcome of a command, with each string as its characters.
pub open spec fn outcome_view(outcome: Result<Response, CommandError>) -> Result<
    ResponseView,
    CommandErrorView,
> {
    match outcome {
        Ok(response) => Ok(response@),
        Err(error) => Err(error@),
    }
}

/// How far running a command got. Most commands run in one go. The ones
/// that need something from outside stop at the request for it, and go on,
/// in [`sketchify::sketchified`] or [`karma::answer`], when the reply is
/// there.
#[derive(Debug, PartialEq, Eq)]
pub enum Dispatch {
    /// The command has run: here is its response, or its error.
    Ready(Result<Response, CommandError>),
    /// The form has to be posted; the body of the reply goes to
    /// [`sketchify::sketchified`].
    Post(PostRequest),
    /// The store has to be asked; its answer goes to [`karma::answer`]
    /// together with the question.
    Store(StoreRequest),
}

/// What a [`Dispatch`] holds, with each string as its characters.
pub enum DispatchView {
    Ready(Result<ResponseView, CommandErrorView>),
    Post(PostRequestView),
    Store(StoreRequestView),
}

impl View for Dispatch {
    type V = DispatchView;

    open spec fn view(&self) -> DispatchView {
        match *self {
            Dispatch::Ready(outcome) => DispatchView::Ready(outcome_view(outcome)),
            Dispatch::Post(request) => DispatchView::Post(request@),
            Dispatch::Store(request) => DispatchView::Store(request@),
        }
    }
}

/// Whether `dispatch` is what running `command` can give. For every command
/// but two this names one value. The info command reads the clock, so its
/// response is the one for some instant; the zalgo command draws its marks
/// at random, so its output is some Zalgo form of the input.
pub open spec fn dispatched(command: CommandView, dispatch: DispatchView) -> bool {
    match command {
        CommandView::Clap { input } => dispatch == DispatchView::Ready(
            Ok(ResponseView::Clap { output: clapped(input) }),
        ),
        CommandView::Info { start_time } => dispatch matches DispatchView::Ready(Ok(response))
            && is_info_since(start_time, response),
        CommandView::Karma { subject } => dispatch == DispatchView::Store(
            StoreRequestView::Get { subject },
        ),
        CommandView::KarmaTop => dispatch == DispatchView::Store(
            StoreRequestView::Top { limit: TOP_COUNT },
        ),
        CommandView::KarmaDecrement { subject } => dispatch == DispatchView::Store(
            StoreRequestView::Decrement { subject },
        ),
        CommandView::KarmaIncrement { subject } => dispatch == DispatchView::Store(
            StoreRequestView::Increment { subject },
        ),
        CommandView::Ping => dispatch == DispatchView::Ready(Ok(ResponseView::Pong)),
        CommandView::React { input } => dispatch == DispatchView::Ready(react_outcome(input)),
        CommandView::Sketchify { url_raw } => dispatch == (match sketchify_outcome(url_raw) {
            Ok(request) => DispatchView::Post(request),
            Err(error) => DispatchView::Ready(Err(error)),
        }),
        CommandView::Spongebob { input } => dispatch == DispatchView::Ready(
            Ok(ResponseView::Spongebob { output: spongebob_text(input) }),
        ),
        CommandView::Wavy { input } => dispatch == DispatchView::Ready(
            Ok(ResponseView::Wavy { output: wavy_text(input) }),
        ),
        CommandView::Zalgo { input, max_chars } => dispatch matches DispatchView::Ready(
            Ok(ResponseView::Zalgo { output }),
        ) && is_zalgo_of(input, marks_per_char(byte_len(input) as int, max_chars), output),
    }
}

impl Command {
    /// Execute a command as far as it goes without help from outside: to its
    /// response or error, or to the request that it needs answered. Each
    /// command is tried once.
    pub fn execute(self) -> (dispatch: Dispatch)
        ensures
            dispatched(self@, dispatch@),
    {
        match self {
            Command::Clap { input } => Dispatch::Ready(Ok(clap::clap(input))),
            Command::Info { start_time } => Dispatch::Ready(Ok(info::info(start_time))),
            Command::Karma { subject } => Dispatch::Store(StoreRequest::Get { subject }),
            Command::KarmaTop => Dispatch::Store(StoreRequest::Top { limit: TOP_COUNT }),
            Command::KarmaDecrement { subject } => Dispatch::Store(
                StoreRequest::Decrement { subject },
            ),
            Command::KarmaIncrement { subject } => Dispatch::Store(
                StoreRequest::Increment { subject },
            ),
            Command::Ping => Dispatch::Ready(Ok(ping::ping())),
            Command::React { input } => Dispatch::Ready(react::react(input)),
            Command::Sketchify { url_raw } => match sketchify::sketchify(url_raw) {
                Ok(request) => Dispatch::Post(request),
                Err(error) => Dispatch::Ready(Err(error)),
            },
            Command::Spongebob { input } => Dispatch::Ready(Ok(spongebob::spongebob(input))),
            Command::Wavy { input } => Dispatch::Ready(wavy::wavy(input)),
            Command::Zalgo { input, max_chars } => Dispatch::Ready(
                Ok(zalgo::zalgo(input, max_chars)),
            ),
        }
    }
}

} // verus!
