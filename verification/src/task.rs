//! Tasks represent requests extracted from messages, including both a
//! command and the context surrounding it.
//!
//! A task is run step by step. Each step hands out one [`Action`], an
//! operation on the chat platform or another service, and waits for the
//! [`Event`] that tells how it went. Whoever runs the task performs the
//! actions and reports the events; everything that is decided is decided
//! here. A task first executes its command, and what follows depends on the
//! outcome: a response is carried out, an error is reported to the user, who
//! can dismiss the report with a reaction while the bot waits for it.

pub mod embed;
pub mod laws;

use crate::command::karma::{
    answer, answered, karma_line, karma_listing, listing, push_karma_line, store_failure,
    KarmaView, StoreReply, StoreReplyView, StoreRequest, StoreRequestView, STORE_FAILURE,
};
use crate::command::sketchify::{sketchified, sketchified_outcome, PostRequest, PostRequestView};
use crate::command::{
    dispatched, outcome_view, texts, Command, CommandError, CommandErrorView, CommandView,
    Dispatch, DispatchView, Response, ResponseView,
};
use crate::markup::{link_message, link_text};
use crate::task::embed::{
    info_embed, make_info_embed, make_report_embed, optional_text, report_embed, Embed,
    EmbedView,
};
use crate::text::Text;
use vstd::prelude::*;

verus! {

/// What the bot says to a ping.
pub const PONG: &'static str = "Pong!";

/// The reaction that the bot puts under an error report, and that the author
/// of the command answers with to dismiss it.
pub const OK_EMOJI: &'static str = "🆗";

/// How long the bot waits for the author to dismiss an error report: five
/// minutes.
pub const ACK_TIMEOUT_SECS: u64 = 300;

/// The context of a command: where the message that triggered it stands and
/// who wrote it.
#[derive(Debug, Clone, Copy, PartialEq, Eq)]
pub struct Context {
    /// The channel of the message.
    pub channel_id: u64,
    /// The message that triggered the command.
    pub message_id: u64,
    /// The author of the message.
    pub author_id: u64,
}

/// Errors that could occur during task execution.
#[derive(Debug, PartialEq, Eq)]
pub enum TaskError {
    /// A message could not be sent.
    SendMessage,
    /// A reaction could not be added to the message.
    React { message_id: u64 },
    /// The message could not be fetched.
    GetMessage { message_id: u64 },
    /// No message was found before the message.
    GetPrevious { message_id: u64 },
    /// The message could not be deleted.
    Delete { message_id: u64 },
    /// The error of a command could not be reported to the user.
    ReportError(CommandError),
}

/// What a [`TaskError`] holds, with each string as its characters.
pub enum TaskErrorView {
    SendMessage,
    React { message_id: u64 },
    GetMessage { message_id: u64 },
    GetPrevious { message_id: u64 },
    Delete { message_id: u64 },
    ReportError(CommandErrorView),
}

impl View for TaskError {
    type V = TaskErrorView;

    open spec fn view(&self) -> TaskErrorView {
        match *self {
            TaskError::SendMessage => TaskErrorView::SendMessage,
            TaskError::React { message_id } => TaskErrorView::React { message_id },
            TaskError::GetMessage { message_id } => TaskErrorView::GetMessage { message_id },
            TaskError::GetPrevious { message_id } => TaskErrorView::GetPrevious { message_id },
            TaskError::Delete { message_id } => TaskErrorView::Delete { message_id },
            TaskError::ReportError(error) => TaskErrorView::ReportError(error@),
        }
    }
}

/// How a task ended, with each string as its characters.
pub open spec fn ending_view(ending: Result<(), TaskError>) -> Result<(), TaskErrorView> {
    match ending {
        Ok(()) => Ok(()),
        Err(error) => Err(error@),
    }
}

/// An operation that a task asks for.
#[derive(Debug, PartialEq, Eq)]
pub enum Action {
    /// Post the form, and hand back the body of the reply.
    Post { request: PostRequest },
    /// Put the question to the store of counters, and hand back its answer.
    Store { question: StoreRequest },
    /// Send a plain message to the channel.
    Say { channel_id: u64, text: String },
    /// Fetch the bot's own profile, and hand back the URL of its picture.
    FetchAvatar,
    /// Send an embed to the channel and put the reactions under it; hand
    /// back the id of the message sent.
    SendEmbed { channel_id: u64, embed: Embed, reactions: Vec<String> },
    /// Fetch the one message that stands immediately before `before` in the
    /// channel, and hand back its id.
    FetchPrevious { channel_id: u64, before: u64 },
    /// Fetch the message.
    FetchMessage { channel_id: u64, message_id: u64 },
    /// Add the reaction to the message.
    React { channel_id: u64, message_id: u64, reaction: String },
    /// Delete the message.
    Delete { channel_id: u64, message_id: u64 },
    /// Wait for a reaction with this emoji, by this author, on this message,
    /// and for no longer than the timeout; hand back the reaction, or that
    /// the time ran out.
    AwaitReaction { message_id: u64, author_id: u64, emoji: String, timeout_secs: u64 },
    /// Go on with the wait that is under way: what was handed back did not
    /// end it.
    KeepWaiting,
    /// Remove the bot's own reaction with this emoji from the message.
    RemoveReaction { channel_id: u64, message_id: u64, emoji: String },
}

/// What an [`Action`] holds, with each string as its characters.
pub enum ActionView {
    Post { request: PostRequestView },
    Store { question: StoreRequestView },
    Say { channel_id: u64, text: Text },
    FetchAvatar,
    SendEmbed { channel_id: u64, embed: EmbedView, reactions: Seq<Text> },
    FetchPrevious { channel_id: u64, before: u64 },
    FetchMessage { channel_id: u64, message_id: u64 },
    React { channel_id: u64, message_id: u64, reaction: Text },
    Delete { channel_id: u64, message_id: u64 },
    AwaitReaction { message_id: u64, author_id: u64, emoji: Text, timeout_secs: u64 },
    KeepWaiting,
    RemoveReaction { channel_id: u64, message_id: u64, emoji: Text },
}

impl View for Action {
    type V = ActionView;

    open spec fn view(&self) -> ActionView {
        match *self {
            Action::Post { request } => ActionView::Post { request: request@ },
            Action::Store { question } => ActionView::Store { question: question@ },
            Action::Say { channel_id, text } => ActionView::Say { channel_id, text: text@ },
            Action::FetchAvatar => ActionView::FetchAvatar,
            Action::SendEmbed { channel_id, embed, reactions } => ActionView::SendEmbed {
                channel_id,
                embed: embed@,
                reactions: texts(reactions@),
            },
            Action::FetchPrevious { channel_id, before } => ActionView::FetchPrevious {
                channel_id,
                before,
            },
            Action::FetchMessage { channel_id, message_id } => ActionView::FetchMessage {
                channel_id,
                message_id,
            },
            Action::React { channel_id, message_id, reaction } => ActionView::React {
                channel_id,
                message_id,
                reaction: reaction@,
            },
            Action::Delete { channel_id, message_id } => ActionView::Delete {
                channel_id,
                message_id,
            },
            Action::AwaitReaction { message_id, author_id, emoji, timeout_secs } => {
                ActionView::AwaitReaction { message_id, author_id, emoji: emoji@, timeout_secs }
            },
            Action::KeepWaiting => ActionView::KeepWaiting,
            Action::RemoveReaction { channel_id, message_id, emoji } => {
                ActionView::RemoveReaction { channel_id, message_id, emoji: emoji@ }
            },
        }
    }
}

/// What came of the operation that a task asked for.
#[derive(Debug, PartialEq, Eq)]
pub enum Event {
    /// The operation was carried out and has nothing to hand back.
    Done,
    /// The operation failed.
    Failed,
    /// The message was sent and has this id.
    Sent { message_id: u64 },
    /// The URL of the bot's picture; `None` where it has none or the profile
    /// could not be fetched.
    Avatar { url: Option<String> },
    /// The ids of the messages found, the nearest first.
    Previous { ids: Vec<u64> },
    /// The body of the reply to the form.
    Body { text: String },
    /// The answer of the store of counters.
    Stored { reply: StoreReply },
    /// Someone put a reaction under a message.
    Reaction { message_id: u64, user_id: u64, emoji: String },
    /// The time to wait ran out.
    TimedOut,
}

/// What an [`Event`] holds, with each string as its characters.
pub enum EventView {
    Done,
    Failed,
    Sent { message_id: u64 },
    Avatar { url: Option<Text> },
    Previous { ids: Seq<u64> },
    Body { text: Text },
    Stored { reply: StoreReplyView },
    Reaction { message_id: u64, user_id: u64, emoji: Text },
    TimedOut,
}

impl View for Event {
    type V = EventView;

    open spec fn view(&self) -> EventView {
        match *self {
            Event::Done => EventView::Done,
            Event::Failed => EventView::Failed,
            Event::Sent { message_id } => EventView::Sent { message_id },
            Event::Avatar { url } => EventView::Avatar { url: optional_text(url) },
            Event::Previous { ids } => EventView::Previous { ids: ids@ },
            Event::Body { text } => EventView::Body { text: text@ },
            Event::Stored { reply } => EventView::Stored { reply: reply@ },
            Event::Reaction { message_id, user_id, emoji } => EventView::Reaction {
                message_id,
                user_id,
                emoji: emoji@,
            },
            Event::TimedOut => EventView::TimedOut,
        }
    }
}

/// Where a task stands: which operation it waits for, and what it keeps
/// for the steps to come.
#[derive(Debug, PartialEq, Eq)]
pub enum State {
    /// The form of the sketchify command is being posted.
    Posting,
    /// The store of counters is being asked.
    Storing { request: StoreRequest },
    /// The last message of a response is being sent.
    Saying,
    /// The bot's picture is being fetched for the info embed.
    InfoAvatar { version: String, uptime: (i64, i64, i64, i64), homepage: String },
    /// The message to react to is being looked for.
    FindingTarget { reactions: Vec<String> },
    /// The message to react to is being fetched.
    FetchingTarget { target: u64, reactions: Vec<String> },
    /// A reaction is being added to the target: the one before `next`.
    Reacting { target: u64, reactions: Vec<String>, next: usize },
    /// The converted URL is being sent.
    SayingLink,
    /// The message that triggered the command is being deleted.
    DeletingOriginal,
    /// The bot's picture is being fetched for an error report.
    ReportAvatar { error: CommandError },
    /// The error report is being sent.
    Reporting { error: CommandError },
    /// The report stands, and the bot waits for the author to dismiss it.
    AwaitingAck { report_id: u64 },
    /// The author dismissed the report, which is being deleted.
    Acknowledged { report_id: u64 },
    /// The author did not answer in time; the bot's own reaction is being
    /// removed from the report.
    TimedOut { report_id: u64 },
}

/// What a [`State`] holds, with each string as its characters.
pub enum StateView {
    Posting,
    Storing { request: StoreRequestView },
    Saying,
    InfoAvatar { version: Text, uptime: (i64, i64, i64, i64), homepage: Text },
    FindingTarget { reactions: Seq<Text> },
    FetchingTarget { target: u64, reactions: Seq<Text> },
    Reacting { target: u64, reactions: Seq<Text>, next: usize },
    SayingLink,
    DeletingOriginal,
    ReportAvatar { error: CommandErrorView },
    Reporting { error: CommandErrorView },
    AwaitingAck { report_id: u64 },
    Acknowledged { report_id: u64 },
    TimedOut { report_id: u64 },
}

impl View for State {
    type V = StateView;

    open spec fn view(&self) -> StateView {
        match *self {
            State::Posting => StateView::Posting,
            State::Storing { request } => StateView::Storing { request: request@ },
            State::Saying => StateView::Saying,
            State::InfoAvatar { version, uptime, homepage } => StateView::InfoAvatar {
                version: version@,
                uptime,
                homepage: homepage@,
            },
            State::FindingTarget { reactions } => StateView::FindingTarget {
                reactions: texts(reactions@),
            },
            State::FetchingTarget { target, reactions } => StateView::FetchingTarget {
                target,
                reactions: texts(reactions@),
            },
            State::Reacting { target, reactions, next } => StateView::Reacting {
                target,
                reactions: texts(reactions@),
                next,
            },
            State::SayingLink => StateView::SayingLink,
            State::DeletingOriginal => StateView::DeletingOriginal,
            State::ReportAvatar { error } => StateView::ReportAvatar { error: error@ },
            State::Reporting { error } => StateView::Reporting { error: error@ },
            State::AwaitingAck { report_id } => StateView::AwaitingAck { report_id },
            State::Acknowledged { report_id } => StateView::Acknowledged { report_id },
            State::TimedOut { report_id } => StateView::TimedOut { report_id },
        }
    }
}

/// A task that is under way.
#[derive(Debug, PartialEq, Eq)]
pub struct Execution {
    /// The context of the command.
    pub context: Context,
    /// Where the task stands.
    pub state: State,
}

/// What an [`Execution`] holds, with each string as its characters.
pub struct ExecutionView {
    pub context: Context,
    pub state: StateView,
}

impl View for Execution {
    type V = ExecutionView;

    open spec fn view(&self) -> ExecutionView {
        ExecutionView { context: self.context, state: self.state@ }
    }
}

/// What a step of a task comes to.
#[derive(Debug, PartialEq, Eq)]
pub enum Step {
    /// The task goes on: the action is to be performed, and the event that
    /// comes of it handed to [`Execution::step`].
    Next(Execution, Action),
    /// The task has ended, well or with the error.
    Finished(Result<(), TaskError>),
}

/// What a [`Step`] holds, with each string as its characters.
pub enum StepView {
    Next(ExecutionView, ActionView),
    Finished(Result<(), TaskErrorView>),
}

impl View for Step {
    type V = StepView;

    open spec fn view(&self) -> StepView {
        match *self {
            Step::Next(execution, action) => StepView::Next(execution@, action@),
            Step::Finished(ending) => StepView::Finished(ending_view(ending)),
        }
    }
}

/// The step that goes on in `state` with `action`.
pub open spec fn next(context: Context, state: StateView, action: ActionView) -> StepView {
    StepView::Next(ExecutionView { context, state }, action)
}

/// The step that sends a last plain message.
pub open spec fn say(context: Context, text: Text) -> StepView {
    next(
        context,
        StateView::Saying,
        ActionView::Say { channel_id: context.channel_id, text },
    )
}

/// The step that deletes the message that triggered the command.
pub open spec fn delete_original(context: Context) -> StepView {
    next(
        context,
        StateView::DeletingOriginal,
        ActionView::Delete { channel_id: context.channel_id, message_id: context.message_id },
    )
}

/// Whether the event tells of an operation that was carried out.
pub open spec fn succeeded(event: EventView) -> bool {
    event is Done || event is Sent
}

/// The URL of the bot's picture that an event brings. The picture is an
/// ornament: any event that brings none leaves the embed without one.
pub open spec fn avatar_of(event: EventView) -> Option<Text> {
    match event {
        EventView::Avatar { url } => url,
        _ => None,
    }
}

/// Whether the event is the reaction that dismisses the report: the OK
/// emoji, put under the report by the author of the command.
pub open spec fn acknowledges(context: Context, report_id: u64, event: EventView) -> bool {
    event matches EventView::Reaction { message_id, user_id, emoji } && message_id == report_id
        && user_id == context.author_id && emoji == OK_EMOJI@
}

/// The first step of carrying out a response.
///
/// The text of a clap, spongebob, wavy or zalgo response is sent as a plain
/// message, and so are `Pong!` and what the store said of karma. The info
/// response becomes an embed, for which the bot's picture is fetched first.
/// The reactions of a react response go under the message before the
/// command, which is looked for first. The converted URL is sent to the
/// author with a mention. A change of karma is answered by nothing, and so
/// is a list of the top subjects that holds none.
pub open spec fn respond_spec(context: Context, response: ResponseView) -> StepView {
    match response {
        ResponseView::Clap { output } => say(context, output),
        ResponseView::Spongebob { output } => say(context, output),
        ResponseView::Wavy { output } => say(context, output),
        ResponseView::Zalgo { output } => say(context, output),
        ResponseView::Pong => say(context, PONG@),
        ResponseView::Info { version, uptime, homepage } => next(
            context,
            StateView::InfoAvatar { version, uptime, homepage },
            ActionView::FetchAvatar,
        ),
        ResponseView::React { reactions } => next(
            context,
            StateView::FindingTarget { reactions },
            ActionView::FetchPrevious {
                channel_id: context.channel_id,
                before: context.message_id,
            },
        ),
        ResponseView::Sketchify { url } => next(
            context,
            StateView::SayingLink,
            ActionView::Say {
                channel_id: context.channel_id,
                text: link_text(context.author_id, url),
            },
        ),
        ResponseView::Karma { subject, karma } => say(
            context,
            karma_line(KarmaView { subject, karma }),
        ),
        ResponseView::KarmaTop { top } => if top.len() == 0 {
            StepView::Finished(Ok(()))
        } else {
            say(context, karma_listing(top))
        },
        ResponseView::KarmaDecrement => StepView::Finished(Ok(())),
        ResponseView::KarmaIncrement => StepView::Finished(Ok(())),
    }
}

/// The first step of reporting an error to the user: the bot's picture is
/// fetched for the report.
pub open spec fn report_spec(context: Context, error: CommandErrorView) -> StepView {
    next(context, StateView::ReportAvatar { error }, ActionView::FetchAvatar)
}

/// The step that follows the outcome of a command: a response is carried
/// out, an error is reported.
pub open spec fn settle_spec(
    context: Context,
    outcome: Result<ResponseView, CommandErrorView>,
) -> StepView {
    match outcome {
        Ok(response) => respond_spec(context, response),
        Err(error) => report_spec(context, error),
    }
}

/// The first step of a task whose command got as far as `dispatch`.
pub open spec fn begin(context: Context, dispatch: DispatchView) -> StepView {
    match dispatch {
        DispatchView::Ready(outcome) => settle_spec(context, outcome),
        DispatchView::Post(request) => next(
            context,
            StateView::Posting,
            ActionView::Post { request },
        ),
        DispatchView::Store(request) => next(
            context,
            StateView::Storing { request },
            ActionView::Store { question: request },
        ),
    }
}

/// The step that adds reaction number `index` to the target, or, where
/// there is none left to add, deletes the message that triggered the
/// command.
pub open spec fn react_from(
    context: Context,
    target: u64,
    reactions: Seq<Text>,
    index: usize,
) -> StepView {
    if index < reactions.len() {
        next(
            context,
            StateView::Reacting { target, reactions, next: (index + 1) as usize },
            ActionView::React {
                channel_id: context.channel_id,
                message_id: target,
                reaction: reactions[index as int],
            },
        )
    } else {
        delete_original(context)
    }
}

/// The step that a task in a given state takes on an event.
///
/// An event that does not tell of the success that the state waits for
/// counts as the failure of the operation under way. Two operations cannot
/// fail the task: fetching the bot's picture, without which the embed goes
/// out bare, and deleting a dismissed report, after which the message that
/// triggered the command is deleted all the same. While the bot waits for
/// the author, only the author's OK under the report and the end of the
/// time move it; anything else leaves it waiting.
pub open spec fn step_spec(execution: ExecutionView, event: EventView) -> StepView {
    let context = execution.context;
    match execution.state {
        StateView::Posting => match event {
            EventView::Body { text } => settle_spec(context, sketchified_outcome(text)),
            _ => report_spec(context, CommandErrorView::Request),
        },
        StateView::Storing { request } => match event {
            EventView::Stored { reply } => settle_spec(context, answered(request, reply)),
            _ => report_spec(context, store_failure()),
        },
        StateView::Saying => if succeeded(event) {
            StepView::Finished(Ok(()))
        } else {
            StepView::Finished(Err(TaskErrorView::SendMessage))
        },
        StateView::InfoAvatar { version, uptime, homepage } => next(
            context,
            StateView::Saying,
            ActionView::SendEmbed {
                channel_id: context.channel_id,
                embed: info_embed(version, uptime, homepage, avatar_of(event)),
                reactions: Seq::empty(),
            },
        ),
        StateView::FindingTarget { reactions } => match event {
            EventView::Previous { ids } => if ids.len() > 0 {
                next(
                    context,
                    StateView::FetchingTarget { target: ids[0], reactions },
                    ActionView::FetchMessage {
                        channel_id: context.channel_id,
                        message_id: ids[0],
                    },
                )
            } else {
                StepView::Finished(
                    Err(TaskErrorView::GetPrevious { message_id: context.message_id }),
                )
            },
            _ => StepView::Finished(
                Err(TaskErrorView::GetPrevious { message_id: context.message_id }),
            ),
        },
        StateView::FetchingTarget { target, reactions } => if succeeded(event) {
            react_from(context, target, reactions, 0)
        } else {
            StepView::Finished(Err(TaskErrorView::GetMessage { message_id: target }))
        },
        StateView::Reacting { target, reactions, next } => if succeeded(event) {
            react_from(context, target, reactions, next)
        } else {
            StepView::Finished(Err(TaskErrorView::React { message_id: target }))
        },
        StateView::SayingLink => if succeeded(event) {
            delete_original(context)
        } else {
            StepView::Finished(Err(TaskErrorView::SendMessage))
        },
        StateView::DeletingOriginal => if succeeded(event) {
            StepView::Finished(Ok(()))
        } else {
            StepView::Finished(Err(TaskErrorView::Delete { message_id: context.message_id }))
        },
        StateView::ReportAvatar { error } => self::next(
            context,
            StateView::Reporting { error },
            ActionView::SendEmbed {
                channel_id: context.channel_id,
                embed: report_embed(error, avatar_of(event)),
                reactions: seq![OK_EMOJI@],
            },
        ),
        StateView::Reporting { error } => match event {
            EventView::Sent { message_id } => self::next(
                context,
                StateView::AwaitingAck { report_id: message_id },
                ActionView::AwaitReaction {
                    message_id,
                    author_id: context.author_id,
                    emoji: OK_EMOJI@,
                    timeout_secs: ACK_TIMEOUT_SECS,
                },
            ),
            _ => StepView::Finished(Err(TaskErrorView::ReportError(error))),
        },
        StateView::AwaitingAck { report_id } => if acknowledges(context, report_id, event) {
            self::next(
                context,
                StateView::Acknowledged { report_id },
                ActionView::Delete { channel_id: context.channel_id, message_id: report_id },
            )
        } else if event is TimedOut {
            self::next(
                context,
                StateView::TimedOut { report_id },
                ActionView::RemoveReaction {
                    channel_id: context.channel_id,
                    message_id: report_id,
                    emoji: OK_EMOJI@,
                },
            )
        } else {
            self::next(context, StateView::AwaitingAck { report_id }, ActionView::KeepWaiting)
        },
        StateView::Acknowledged { report_id } => delete_original(context),
        StateView::TimedOut { report_id } => StepView::Finished(Ok(())),
    }
}

/// Whether `step` is a first step that a task can take: the one that
/// follows some outcome that executing its command can have.
pub open spec fn begins(command: CommandView, context: Context, step: StepView) -> bool {
    exists|dispatch: DispatchView|
        dispatched(command, dispatch) && #[trigger] begin(context, dispatch) == step
}

impl Context {
    /// The step that goes on in `state` with `action`.
    fn proceed(&self, state: State, action: Action) -> (step: Step)
        ensures
            step@ == next(*self, state@, action@),
    {
        Step::Next(Execution { context: *self, state }, action)
    }

    /// The step that sends a last plain message.
    fn say(&self, text: String) -> (step: Step)
        ensures
            step@ == say(*self, text@),
    {
        self.proceed(State::Saying, Action::Say { channel_id: self.channel_id, text })
    }

    /// The step that deletes the message that triggered the command.
    fn delete_original(&self) -> (step: Step)
        ensures
            step@ == delete_original(*self),
    {
        self.proceed(
            State::DeletingOriginal,
            Action::Delete { channel_id: self.channel_id, message_id: self.message_id },
        )
    }

    /// Respond to the user with the result of a command: the first step of
    /// carrying out the response.
    pub fn respond(&self, response: Response) -> (step: Step)
        ensures
            step@ == respond_spec(*self, response@),
    {
        match response {
            Response::Clap { output } => self.say(output),
            Response::Spongebob { output } => self.say(output),
            Response::Wavy { output } => self.say(output),
            Response::Zalgo { output } => self.say(output),
            Response::Pong => self.say(PONG.to_string()),
            Response::Info { version, uptime, homepage } => self.proceed(
                State::InfoAvatar { version, uptime, homepage },
                Action::FetchAvatar,
            ),
            Response::React { reactions } => self.proceed(
                State::FindingTarget { reactions },
                Action::FetchPrevious { channel_id: self.channel_id, before: self.message_id },
            ),
            Response::Sketchify { url } => self.proceed(
                State::SayingLink,
                Action::Say {
                    channel_id: self.channel_id,
                    text: link_message(self.author_id, url.as_str()),
                },
            ),
            Response::Karma { subject, karma } => {
                let mut text = String::new();
                push_karma_line(&mut text, subject.as_str(), karma);
                assert(text@ =~= karma_line(KarmaView { subject: subject@, karma }));
                self.say(text)
            },
            Response::KarmaTop { top } => if top.len() == 0 {
                Step::Finished(Ok(()))
            } else {
                self.say(listing(&top))
            },
            Response::KarmaDecrement => Step::Finished(Ok(())),
            Response::KarmaIncrement => Step::Finished(Ok(())),
        }
    }

    /// Report a command error to the user: the first step of the report.
    pub fn report(&self, error: CommandError) -> (step: Step)
        ensures
            step@ == report_spec(*self, error@),
    {
        self.proceed(State::ReportAvatar { error }, Action::FetchAvatar)
    }

    /// The step that follows the outcome of a command.
    pub fn settle(&self, outcome: Result<Response, CommandError>) -> (step: Step)
        ensures
            step@ == settle_spec(*self, outcome_view(outcome)),
    {
        match outcome {
            Ok(response) => self.respond(response),
            Err(error) => self.report(error),
        }
    }

    /// Find the id of the message that stands immediately before the one
    /// that triggered the command, among the messages that the platform
    /// found there: the first of them, or the error that says there is none.
    pub fn find_previous_id(&self, found: &Vec<u64>) -> (target: Result<u64, TaskError>)
        ensures
            match target {
                Ok(id) => found@.len() > 0 && id == found@[0],
                Err(error) => found@.len() == 0 && error@ == (TaskErrorView::GetPrevious {
                    message_id: self.message_id,
                }),
            },
    {
        if found.len() > 0 {
            Ok(found[0])
        } else {
            Err(TaskError::GetPrevious { message_id: self.message_id })
        }
    }

    /// The step that adds reaction number `index` to the target, or deletes
    /// the message that triggered the command where none is left to add.
    fn react_from(&self, target: u64, reactions: Vec<String>, index: usize) -> (step: Step)
        ensures
            step@ == react_from(*self, target, texts(reactions@), index),
    {
        if index < reactions.len() {
            let reaction = reactions[index].clone();
            self.proceed(
                State::Reacting { target, reactions, next: index + 1 },
                Action::React { channel_id: self.channel_id, message_id: target, reaction },
            )
        } else {
            self.delete_original()
        }
    }

    /// Whether the event is the reaction that dismisses the report.
    pub fn is_acknowledgement(&self, report_id: u64, event: &Event) -> (dismissed: bool)
        ensures
            dismissed == acknowledges(*self, report_id, event@),
    {
        match event {
            Event::Reaction { message_id, user_id, emoji } => {
                let ok = OK_EMOJI.to_string();
                *message_id == report_id && *user_id == self.author_id && *emoji == ok
            },
            _ => false,
        }
    }
}

/// Whether the event tells of an operation that was carried out.
fn has_succeeded(event: &Event) -> (success: bool)
    ensures
        success == succeeded(event@),
{
    match event {
        Event::Done => true,
        Event::Sent { message_id } => true,
        _ => false,
    }
}

/// The URL of the bot's picture that an event brings.
fn take_avatar(event: Event) -> (url: Option<String>)
    ensures
        optional_text(url) == avatar_of(event@),
{
    match event {
        Event::Avatar { url } => url,
        _ => None,
    }
}

/// The one reaction that goes under an error report.
fn prompt() -> (reactions: Vec<String>)
    ensures
        texts(reactions@) == seq![OK_EMOJI@],
{
    let mut reactions: Vec<String> = Vec::new();
    reactions.push(OK_EMOJI.to_string());
    assert(texts(reactions@) =~= seq![OK_EMOJI@]);
    reactions
}

impl Execution {
    /// The step that the task takes on an event.
    pub fn step(self, event: Event) -> (step: Step)
        ensures
            step@ == step_spec(self@, event@),
    {
        let context = self.context;
        match self.state {
            State::Posting => match event {
                Event::Body { text } => context.settle(sketchified(text)),
                _ => context.report(CommandError::Request),
            },
            State::Storing { request } => match event {
                Event::Stored { reply } => context.settle(answer(request, reply)),
                _ => context.report(CommandError::Internal(STORE_FAILURE.to_string())),
            },
            State::Saying => if has_succeeded(&event) {
                Step::Finished(Ok(()))
            } else {
                Step::Finished(Err(TaskError::SendMessage))
            },
            State::InfoAvatar { version, uptime, homepage } => {
                let embed = make_info_embed(version, uptime, homepage, take_avatar(event));
                let reactions: Vec<String> = Vec::new();
                assert(texts(reactions@) =~= Seq::<Text>::empty());
                context.proceed(
                    State::Saying,
                    Action::SendEmbed { channel_id: context.channel_id, embed, reactions },
                )
            },
            State::FindingTarget { reactions } => match event {
                Event::Previous { ids } => match context.find_previous_id(&ids) {
                    Ok(target) => context.proceed(
                        State::FetchingTarget { target, reactions },
                        Action::FetchMessage {
                            channel_id: context.channel_id,
                            message_id: target,
                        },
                    ),
                    Err(error) => Step::Finished(Err(error)),
                },
                _ => Step::Finished(
                    Err(TaskError::GetPrevious { message_id: context.message_id }),
                ),
            },
            State::FetchingTarget { target, reactions } => if has_succeeded(&event) {
                context.react_from(target, reactions, 0)
            } else {
                Step::Finished(Err(TaskError::GetMessage { message_id: target }))
            },
            State::Reacting { target, reactions, next } => if has_succeeded(&event) {
                context.react_from(target, reactions, next)
            } else {
                Step::Finished(Err(TaskError::React { message_id: target }))
            },
            State::SayingLink => if has_succeeded(&event) {
                context.delete_original()
            } else {
                Step::Finished(Err(TaskError::SendMessage))
            },
            State::DeletingOriginal => if has_succeeded(&event) {
                Step::Finished(Ok(()))
            } else {
                Step::Finished(Err(TaskError::Delete { message_id: context.message_id }))
            },
            State::ReportAvatar { error } => {
                let embed = make_report_embed(&error, take_avatar(event));
                context.proceed(
                    State::Reporting { error },
                    Action::SendEmbed {
                        channel_id: context.channel_id,
                        embed,
                        reactions: prompt(),
                    },
                )
            },
            State::Reporting { error } => match event {
                Event::Sent { message_id } => context.proceed(
                    State::AwaitingAck { report_id: message_id },
                    Action::AwaitReaction {
                        message_id,
                        author_id: context.author_id,
                        emoji: OK_EMOJI.to_string(),
                        timeout_secs: ACK_TIMEOUT_SECS,
                    },
                ),
                _ => Step::Finished(Err(TaskError::ReportError(error))),
            },
            State::AwaitingAck { report_id } => {
                if context.is_acknowledgement(report_id, &event) {
                    context.proceed(
                        State::Acknowledged { report_id },
                        Action::Delete { channel_id: context.channel_id, message_id: report_id },
                    )
                } else {
                    match event {
                        Event::TimedOut => context.proceed(
                            State::TimedOut { report_id },
                            Action::RemoveReaction {
                                channel_id: context.channel_id,
                                message_id: report_id,
                                emoji: OK_EMOJI.to_string(),
                            },
                        ),
                        _ => context.proceed(
                            State::AwaitingAck { report_id },
                            Action::KeepWaiting,
                        ),
                    }
                }
            },
            State::Acknowledged { report_id } => context.delete_original(),
            State::TimedOut { report_id } => Step::Finished(Ok(())),
        }
    }
}

/// A task containing a command and context about the message that triggered
/// the command.
#[derive(Debug, PartialEq, Eq)]
pub struct Task {
    /// The underlying command.
    command: Command,
    /// The context of the command.
    context: Context,
}

impl Task {
    /// The command of the task.
    pub closed spec fn command(self) -> Command {
        self.command
    }

    /// The context of the task.
    pub closed spec fn context(self) -> Context {
        self.context
    }

    /// Create a new task from a parsed command and the context of the
    /// message that triggered it.
    pub fn new(command: Command, context: Context) -> (task: Task)
        ensures
            task.command() == command,
            task.context() == context,
    {
        Task { command, context }
    }

    /// Execute the task: the underlying command is executed, and the first
    /// step is taken towards carrying out its response or reporting its
    /// error.
    pub fn execute(self) -> (step: Step)
        ensures
            begins(self.command()@, self.context(), step@),
    {
        let context = self.context;
        let dispatch = self.command.execute();
        let ghost reached = dispatch@;
        let step = match dispatch {
            Dispatch::Ready(outcome) => context.settle(outcome),
            Dispatch::Post(request) => context.proceed(State::Posting, Action::Post { request }),
            Dispatch::Store(request) => {
                let asked = clone_request(&request);
                context.proceed(State::Storing { request }, Action::Store { question: asked })
            },
        };
        assert(begin(context, reached) == step@);
        step
    }
}

/// A copy of a question to the store.
fn clone_request(request: &StoreRequest) -> (copy: StoreRequest)
    ensures
        copy@ == request@,
{
    match request {
        StoreRequest::Get { subject } => StoreRequest::Get { subject: subject.clone() },
        StoreRequest::Top { limit } => StoreRequest::Top { limit: *limit },
        StoreRequest::Increment { subject } => StoreRequest::Increment {
            subject: subject.clone(),
        },
        StoreRequest::Decrement { subject } => StoreRequest::Decrement {
            subject: subject.clone(),
        },
    }
}

} // verus!
