//! Track the karma of subjects.
//!
//! The counters live in a store that this crate does not own. A karma
//! command is a question to the store, [`StoreRequest`], and what is made of
//! the store's answer, [`StoreReply`]: whoever runs the command carries the
//! one to the store and the other back.

use crate::command::{CommandError, CommandErrorView, Response, ResponseView};
use crate::text::{decimal_nat, join, lemma_join_push, push_decimal, push_text, Text};
use vstd::prelude::*;

verus! {

/// How many subjects a list of the top subjects holds at most.
pub const TOP_COUNT: usize = 10;

/// What the log is told when the store did not answer the question put to
/// it.
pub const STORE_FAILURE: &'static str = "the karma store did not answer the request";

/// A subject and the karma it has.
#[derive(Debug, PartialEq, Eq)]
pub struct Karma {
    /// The subject.
    pub subject: String,
    /// The amount of karma the subject has.
    pub karma: u32,
}

/// What a [`Karma`] holds, with the subject as its characters.
pub struct KarmaView {
    pub subject: Text,
    pub karma: u32,
}

impl View for Karma {
    type V = KarmaView;

    open spec fn view(&self) -> KarmaView {
        KarmaView { subject: self.subject@, karma: self.karma }
    }
}

/// The view of each entry of a list.
pub open spec fn karma_views(list: Seq<Karma>) -> Seq<KarmaView> {
    Seq::new(list.len(), |i: int| list[i]@)
}

/// A question to the store of counters.
#[derive(Debug, PartialEq, Eq)]
pub enum StoreRequest {
    /// How much karma does the subject have?
    Get { subject: String },
    /// Which subjects have the most karma? At most `limit` of them.
    Top { limit: usize },
    /// Give the subject one more.
    Increment { subject: String },
    /// Give the subject one less.
    Decrement { subject: String },
}

/// What a [`StoreRequest`] holds, with each string as its characters.
pub enum StoreRequestView {
    Get { subject: Text },
    Top { limit: usize },
    Increment { subject: Text },
    Decrement { subject: Text },
}

impl View for StoreRequest {
    type V = StoreRequestView;

    open spec fn view(&self) -> StoreRequestView {
        match *self {
            StoreRequest::Get { subject } => StoreRequestView::Get { subject: subject@ },
            StoreRequest::Top { limit } => StoreRequestView::Top { limit },
            StoreRequest::Increment { subject } => StoreRequestView::Increment {
                subject: subject@,
            },
            StoreRequest::Decrement { subject } => StoreRequestView::Decrement {
                subject: subject@,
            },
        }
    }
}

/// An answer of the store of counters.
#[derive(Debug, PartialEq, Eq)]
pub enum StoreReply {
    /// The karma of the subject asked about.
    Count(u32),
    /// The top subjects, sorted by their karma.
    Top(Vec<Karma>),
    /// The counter was changed.
    Done,
    /// The store failed.
    Failed,
}

/// What a [`StoreReply`] holds, with each string as its characters.
pub enum StoreReplyView {
    Count(u32),
    Top(Seq<KarmaView>),
    Done,
    Failed,
}

impl View for StoreReply {
    type V = StoreReplyView;

    open spec fn view(&self) -> StoreReplyView {
        match *self {
            StoreReply::Count(karma) => StoreReplyView::Count(karma),
            StoreReply::Top(top) => StoreReplyView::Top(karma_views(top@)),
            StoreReply::Done => StoreReplyView::Done,
            StoreReply::Failed => StoreReplyView::Failed,
        }
    }
}

/// The error for an answer that does not fit the question, a failure of the
/// store among them.
pub open spec fn store_failure() -> CommandErrorView {
    CommandErrorView::Internal(STORE_FAILURE@)
}

/// What a karma command gives for the store's answer to its question. A
/// count answers a lookup, a list the question for the top, and `Done` a
/// change; any other pairing is an internal error.
pub open spec fn answered(request: StoreRequestView, reply: StoreReplyView) -> Result<
    ResponseView,
    CommandErrorView,
> {
    match (request, reply) {
        (StoreRequestView::Get { subject }, StoreReplyView::Count(karma)) => Ok(
            ResponseView::Karma { subject, karma },
        ),
        (StoreRequestView::Top { limit }, StoreReplyView::Top(top)) => Ok(
            ResponseView::KarmaTop { top },
        ),
        (StoreRequestView::Increment { subject }, StoreReplyView::Done) => Ok(
            ResponseView::KarmaIncrement,
        ),
        (StoreRequestView::Decrement { subject }, StoreReplyView::Done) => Ok(
            ResponseView::KarmaDecrement,
        ),
        _ => Err(store_failure()),
    }
}

/// The internal error that stands for a failure of the store.
fn failure() -> (error: CommandError)
    ensures
        error@ == store_failure(),
{
    CommandError::Internal(STORE_FAILURE.to_string())
}

/// The current karma of a subject, from the store's answer to
/// [`StoreRequest::Get`].
pub fn get(subject: String, reply: StoreReply) -> (result: Result<Response, CommandError>)
    ensures
        match result {
            Ok(response) => answered(StoreRequestView::Get { subject: subject@ }, reply@) == Ok::<
                _,
                CommandErrorView,
            >(response@),
            Err(error) => answered(StoreRequestView::Get { subject: subject@ }, reply@) == Err::<
                ResponseView,
                _,
            >(error@),
        },
{
    match reply {
        StoreReply::Count(karma) => Ok(Response::Karma { subject, karma }),
        _ => Err(failure()),
    }
}

/// The subjects with the most karma, from the store's answer to
/// [`StoreRequest::Top`].
pub fn top(reply: StoreReply) -> (result: Result<Response, CommandError>)
    ensures
        match result {
            Ok(response) => answered(StoreRequestView::Top { limit: TOP_COUNT }, reply@) == Ok::<
                _,
                CommandErrorView,
            >(response@),
            Err(error) => answered(StoreRequestView::Top { limit: TOP_COUNT }, reply@) == Err::<
                ResponseView,
                _,
            >(error@),
        },
{
    match reply {
        StoreReply::Top(top) => Ok(Response::KarmaTop { top }),
        _ => Err(failure()),
    }
}

/// The outcome of increasing a subject's karma, from the store's answer to
/// [`StoreRequest::Increment`].
pub fn inc(subject: String, reply: StoreReply) -> (result: Result<Response, CommandError>)
    ensures
        match result {
            Ok(response) => answered(StoreRequestView::Increment { subject: subject@ }, reply@)
                == Ok::<_, CommandErrorView>(response@),
            Err(error) => answered(StoreRequestView::Increment { subject: subject@ }, reply@)
                == Err::<ResponseView, _>(error@),
        },
{
    match reply {
        StoreReply::Done => Ok(Response::KarmaIncrement),
        _ => Err(failure()),
    }
}

/// The outcome of decreasing a subject's karma, from the store's answer to
/// [`StoreRequest::Decrement`].
pub fn dec(subject: String, reply: StoreReply) -> (result: Result<Response, CommandError>)
    ensures
        match result {
            Ok(response) => answered(StoreRequestView::Decrement { subject: subject@ }, reply@)
                == Ok::<_, CommandErrorView>(response@),
            Err(error) => answered(StoreRequestView::Decrement { subject: subject@ }, reply@)
                == Err::<ResponseView, _>(error@),
        },
{
    match reply {
        StoreReply::Done => Ok(Response::KarmaDecrement),
        _ => Err(failure()),
    }
}

/// What a karma command gives for the store's answer to its question.
pub fn answer(request: StoreRequest, reply: StoreReply) -> (result: Result<
    Response,
    CommandError,
>)
    ensures
        match result {
            Ok(response) => answered(request@, reply@) == Ok::<_, CommandErrorView>(response@),
            Err(error) => answered(request@, reply@) == Err::<ResponseView, _>(error@),
        },
{
    match request {
        StoreRequest::Get { subject } => get(subject, reply),
        StoreRequest::Top { limit } => top(reply),
        StoreRequest::Increment { subject } => inc(subject, reply),
        StoreRequest::Decrement { subject } => dec(subject, reply),
    }
}

/// One line of a list of karma: the subject, a colon and a space, and the
/// karma in decimal.
pub open spec fn karma_line(entry: KarmaView) -> Text {
    entry.subject + seq![':', ' '] + decimal_nat(entry.karma as nat)
}

/// A list of karma written out: one line for each entry, in order, with a
/// line break between each two.
pub open spec fn karma_listing(top: Seq<KarmaView>) -> Text {
    join(Seq::new(top.len(), |i: int| karma_line(top[i])), seq!['\n'])
}

/// Appends the line for a subject and its karma to `out`.
pub fn push_karma_line(out: &mut String, subject: &str, karma: u32)
    ensures
        final(out)@ == old(out)@ + karma_line(KarmaView { subject: subject@, karma }),
{
    push_text(out, subject);
    out.push(':');
    out.push(' ');
    push_decimal(out, karma as u64);
    assert(out@ =~= old(out)@ + karma_line(KarmaView { subject: subject@, karma }));
}

/// A list of karma written out.
pub fn listing(top: &Vec<Karma>) -> (text: String)
    ensures
        text@ == karma_listing(karma_views(top@)),
{
    let ghost lines = Seq::new(top@.len(), |i: int| karma_line(karma_views(top@)[i]));
    let mut text = String::new();
    let mut i: usize = 0;
    while i < top.len()
        invariant
            i <= top.len(),
            lines == Seq::new(top@.len(), |i: int| karma_line(karma_views(top@)[i])),
            text@ == join(lines.take(i as int), seq!['\n']),
        decreases top.len() - i,
    {
        if i > 0 {
            text.push('\n');
        }
        push_karma_line(&mut text, top[i].subject.as_str(), top[i].karma);
        proof {
            assert(lines.take(i + 1) =~= lines.take(i as int).push(lines[i as int]));
            if i > 0 {
                lemma_join_push(lines.take(i as int), seq!['\n'], lines[i as int]);
                assert(text@ =~= join(lines.take(i as int), seq!['\n']) + seq!['\n']
                    + lines[i as int]);
            } else {
                assert(lines.take(0) =~= Seq::<Text>::empty());
                assert(lines.take(1)[0] == lines[0]);
                assert(text@ =~= lines[0]);
            }
        }
        i += 1;
    }
    assert(lines.take(top@.len() as int) =~= lines);
    assert(lines =~= Seq::new(
        karma_views(top@).len(),
        |i: int| karma_line(karma_views(top@)[i]),
    ));
    text
}

} // verus!
