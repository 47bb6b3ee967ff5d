//! What holds of every run of a task.
//!
//! A run is a task and the events that are handed to it one after the other.
//! The laws speak of the actions that the task asks for along a run, and of
//! how it ends: first of the error report and the wait for its dismissal,
//! and after that of the order in which reactions are added.

use crate::command::CommandErrorView;
use crate::task::embed::report_embed;
use crate::task::{
    acknowledges, avatar_of, react_from, report_spec, step_spec, succeeded, ActionView, Context,
    EventView, ExecutionView, StateView, StepView, TaskErrorView, ACK_TIMEOUT_SECS, OK_EMOJI,
};
use crate::text::Text;
use vstd::prelude::*;

verus! {

/// The actions that a task asks for, in order, while the events are handed
/// to it one after the other. Events that come after the task has ended are
/// left aside.
pub open spec fn actions_along(execution: ExecutionView, events: Seq<EventView>) -> Seq<
    ActionView,
>
    decreases events.len(),
{
    if events.len() == 0 {
        Seq::empty()
    } else {
        match step_spec(execution, events[0]) {
            StepView::Next(following, action) => seq![action] + actions_along(
                following,
                events.skip(1),
            ),
            StepView::Finished(_) => Seq::empty(),
        }
    }
}

/// How the task ends while the events are handed to it one after the other,
/// if it ends before they run out.
pub open spec fn ending_along(execution: ExecutionView, events: Seq<EventView>) -> Option<
    Result<(), TaskErrorView>,
>
    decreases events.len(),
{
    if events.len() == 0 {
        None
    } else {
        match step_spec(execution, events[0]) {
            StepView::Next(following, _) => ending_along(following, events.skip(1)),
            StepView::Finished(ending) => Some(ending),
        }
    }
}

/// Where a task stands after the events, if it has not ended by then.
pub open spec fn state_along(execution: ExecutionView, events: Seq<EventView>) -> Option<
    ExecutionView,
>
    decreases events.len(),
{
    if events.len() == 0 {
        Some(execution)
    } else {
        match step_spec(execution, events[0]) {
            StepView::Next(following, _) => state_along(following, events.skip(1)),
            StepView::Finished(_) => None,
        }
    }
}

/// The task that waits for the author to dismiss the report.
pub open spec fn awaiting(context: Context, report_id: u64) -> ExecutionView {
    ExecutionView { context, state: StateView::AwaitingAck { report_id } }
}

/// The deletion of a message of the task's channel.
pub open spec fn deletion(context: Context, message_id: u64) -> ActionView {
    ActionView::Delete { channel_id: context.channel_id, message_id }
}

/// A report goes out with the OK reaction under it, whatever came of the
/// look for the bot's picture; once it is sent the bot waits for the author
/// of the command, for the OK emoji, under the report, for five minutes; and
/// a report that cannot be sent ends the task with the error it was to
/// report.
pub proof fn lemma_report_is_sent_and_awaited(
    context: Context,
    error: CommandErrorView,
    looked: EventView,
    sent: EventView,
)
    ensures
        report_spec(context, error) matches StepView::Next(first, fetch) && fetch
            == ActionView::FetchAvatar && (step_spec(first, looked) matches StepView::Next(
            second,
            send,
        ) && send == (ActionView::SendEmbed {
            channel_id: context.channel_id,
            embed: report_embed(error, avatar_of(looked)),
            reactions: seq![OK_EMOJI@],
        }) && (match sent {
            EventView::Sent { message_id } => step_spec(second, sent) == StepView::Next(
                awaiting(context, message_id),
                ActionView::AwaitReaction {
                    message_id,
                    author_id: context.author_id,
                    emoji: OK_EMOJI@,
                    timeout_secs: ACK_TIMEOUT_SECS,
                },
            ),
            _ => step_spec(second, sent) == StepView::Finished(
                Err(TaskErrorView::ReportError(error)),
            ),
        })),
{
}

/// Once the author of the command puts the OK emoji under the report, the
/// report is deleted and then the message that triggered the command, and
/// nothing else is asked for. The second deletion follows whatever came of
/// the first, and the task ends with it: well if the message was deleted,
/// with its error if not.
pub proof fn lemma_acknowledged_deletes_both(
    context: Context,
    report_id: u64,
    events: Seq<EventView>,
)
    requires
        events.len() >= 3,
        acknowledges(context, report_id, events[0]),
    ensures
        actions_along(awaiting(context, report_id), events) == seq![
            deletion(context, report_id),
            deletion(context, context.message_id),
        ],
        ending_along(awaiting(context, report_id), events) == Some(
            if events[2] is Done || events[2] is Sent {
                Ok::<(), TaskErrorView>(())
            } else {
                Err(TaskErrorView::Delete { message_id: context.message_id })
            },
        ),
{
    let start = awaiting(context, report_id);
    let second = ExecutionView { context, state: StateView::Acknowledged { report_id } };
    let third = ExecutionView { context, state: StateView::DeletingOriginal };
    assert(step_spec(start, events[0]) == StepView::Next(second, deletion(context, report_id)));
    let rest = events.skip(1);
    assert(rest[0] == events[1]);
    assert(step_spec(second, rest[0]) == StepView::Next(
        third,
        deletion(context, context.message_id),
    ));
    let last = rest.skip(1);
    assert(last[0] == events[2]);
    assert(step_spec(third, last[0]) is Finished);
    assert(actions_along(third, last) == Seq::<ActionView>::empty());
    assert(ending_along(third, last) == Some(step_spec(third, last[0])->Finished_0));
    assert(ending_along(second, rest) == ending_along(third, last));
    assert(ending_along(start, events) == ending_along(second, rest));
    assert(actions_along(second, rest) =~= seq![deletion(context, context.message_id)]);
    assert(actions_along(start, events) =~= seq![
        deletion(context, report_id),
        deletion(context, context.message_id),
    ]);
}

/// Once the time runs out, the bot removes its own OK reaction from the
/// report and the task ends well: it asks for nothing else, so neither the
/// report nor the message that triggered the command is deleted.
pub proof fn lemma_timed_out_deletes_nothing(
    context: Context,
    report_id: u64,
    events: Seq<EventView>,
)
    requires
        events.len() >= 2,
        events[0] is TimedOut,
    ensures
        actions_along(awaiting(context, report_id), events) == seq![
            ActionView::RemoveReaction {
                channel_id: context.channel_id,
                message_id: report_id,
                emoji: OK_EMOJI@,
            },
        ],
        forall|k: int|
            0 <= k < actions_along(awaiting(context, report_id), events).len() ==> !(
            #[trigger] actions_along(awaiting(context, report_id), events)[k] is Delete),
        ending_along(awaiting(context, report_id), events) == Some(Ok::<(), TaskErrorView>(())),
{
    let start = awaiting(context, report_id);
    let second = ExecutionView { context, state: StateView::TimedOut { report_id } };
    let removal = ActionView::RemoveReaction {
        channel_id: context.channel_id,
        message_id: report_id,
        emoji: OK_EMOJI@,
    };
    assert(step_spec(start, events[0]) == StepView::Next(second, removal));
    let rest = events.skip(1);
    assert(step_spec(second, rest[0]) is Finished);
    assert(actions_along(second, rest) == Seq::<ActionView>::empty());
    assert(ending_along(second, rest) == Some(Ok::<(), TaskErrorView>(())));
    assert(ending_along(start, events) == ending_along(second, rest));
    assert(actions_along(start, events) =~= seq![removal]);
}

/// Whether the event leaves the wait as it is: it is neither the reaction
/// that dismisses the report nor the end of the time.
pub open spec fn passes_by(context: Context, report_id: u64, event: EventView) -> bool {
    !acknowledges(context, report_id, event) && !(event is TimedOut)
}

/// A reaction by anyone but the author of the command dismisses nothing,
/// whatever its emoji and wherever it was put; nor does a reaction with
/// another emoji, or under another message.
pub proof fn lemma_only_the_author_acknowledges(
    context: Context,
    report_id: u64,
    message_id: u64,
    user_id: u64,
    emoji: Seq<char>,
)
    ensures
        user_id != context.author_id ==> passes_by(
            context,
            report_id,
            EventView::Reaction { message_id, user_id, emoji },
        ),
        emoji != OK_EMOJI@ ==> passes_by(
            context,
            report_id,
            EventView::Reaction { message_id, user_id, emoji },
        ),
        message_id != report_id ==> passes_by(
            context,
            report_id,
            EventView::Reaction { message_id, user_id, emoji },
        ),
        message_id == report_id && user_id == context.author_id && emoji == OK_EMOJI@
            ==> acknowledges(context, report_id, EventView::Reaction { message_id, user_id, emoji }),
{
}

/// While every event passes the wait by, the bot goes on waiting: it asks
/// for nothing but to keep waiting, so it deletes nothing, it does not end,
/// and it stands where it stood.
pub proof fn lemma_wait_goes_on(context: Context, report_id: u64, events: Seq<EventView>)
    requires
        forall|k: int| 0 <= k < events.len() ==> passes_by(context, report_id, #[trigger] events[k]),
    ensures
        actions_along(awaiting(context, report_id), events).len() == events.len(),
        forall|k: int|
            0 <= k < events.len() ==> #[trigger] actions_along(
                awaiting(context, report_id),
                events,
            )[k] == ActionView::KeepWaiting,
        ending_along(awaiting(context, report_id), events) is None,
        state_along(awaiting(context, report_id), events) == Some(awaiting(context, report_id)),
    decreases events.len(),
{
    let start = awaiting(context, report_id);
    if events.len() > 0 {
        assert(passes_by(context, report_id, events[0]));
        assert(step_spec(start, events[0]) == StepView::Next(start, ActionView::KeepWaiting));
        let rest = events.skip(1);
        assert forall|k: int| 0 <= k < rest.len() implies passes_by(
            context,
            report_id,
            #[trigger] rest[k],
        ) by {
            assert(rest[k] == events[k + 1]);
        }
        lemma_wait_goes_on(context, report_id, rest);
        let along = actions_along(start, events);
        assert(along == seq![ActionView::KeepWaiting] + actions_along(start, rest));
        assert forall|k: int| 0 <= k < events.len() implies #[trigger] along[k]
            == ActionView::KeepWaiting by {
            if k > 0 {
                assert(along[k] == actions_along(start, rest)[k - 1]);
            }
        }
    }
}

/// The task that waits for reaction number `index - 1` to be added, or,
/// where `index` is zero, for the target to be fetched.
pub open spec fn reacting(
    context: Context,
    target: u64,
    reactions: Seq<Text>,
    index: usize,
) -> ExecutionView {
    if index == 0 {
        ExecutionView { context, state: StateView::FetchingTarget { target, reactions } }
    } else {
        ExecutionView { context, state: StateView::Reacting { target, reactions, next: index } }
    }
}

/// The addition of reaction number `index` to the target.
pub open spec fn addition(
    context: Context,
    target: u64,
    reactions: Seq<Text>,
    index: int,
) -> ActionView {
    ActionView::React {
        channel_id: context.channel_id,
        message_id: target,
        reaction: reactions[index],
    }
}

/// While every operation succeeds, the reactions that are left to add go
/// under the target one after the other, in their order, and the deletion of
/// the message that triggered the command comes after the last of them and
/// not before.
pub proof fn lemma_reactions_go_in_order(
    context: Context,
    target: u64,
    reactions: Seq<Text>,
    index: usize,
    events: Seq<EventView>,
)
    requires
        index <= reactions.len() <= usize::MAX,
        events.len() == reactions.len() - index + 1,
        forall|k: int| 0 <= k < events.len() ==> succeeded(#[trigger] events[k]),
    ensures
        actions_along(reacting(context, target, reactions, index), events).len() == events.len(),
        forall|k: int|
            0 <= k < reactions.len() - index ==> #[trigger] actions_along(
                reacting(context, target, reactions, index),
                events,
            )[k] == addition(context, target, reactions, index + k),
        actions_along(reacting(context, target, reactions, index), events).last() == deletion(
            context,
            context.message_id,
        ),
        ending_along(reacting(context, target, reactions, index), events) is None,
    decreases reactions.len() - index,
{
    let start = reacting(context, target, reactions, index);
    let rest = events.skip(1);
    assert(succeeded(events[0]));
    assert(step_spec(start, events[0]) == react_from(context, target, reactions, index));
    if index < reactions.len() {
        let following = reacting(context, target, reactions, (index + 1) as usize);
        assert(step_spec(start, events[0]) == StepView::Next(
            following,
            addition(context, target, reactions, index as int),
        ));
        assert forall|k: int| 0 <= k < rest.len() implies succeeded(#[trigger] rest[k]) by {
            assert(rest[k] == events[k + 1]);
        }
        lemma_reactions_go_in_order(context, target, reactions, (index + 1) as usize, rest);
        let along = actions_along(start, events);
        let after = actions_along(following, rest);
        assert(along == seq![addition(context, target, reactions, index as int)] + after);
        assert forall|k: int| 0 <= k < reactions.len() - index implies #[trigger] along[k]
            == addition(context, target, reactions, index + k) by {
            if k > 0 {
                assert(along[k] == after[k - 1]);
            }
        }
        assert(along.last() == after.last());
        assert(ending_along(start, events) == ending_along(following, rest));
    } else {
        let deleting = ExecutionView { context, state: StateView::DeletingOriginal };
        assert(step_spec(start, events[0]) == StepView::Next(
            deleting,
            deletion(context, context.message_id),
        ));
        assert(rest.len() == 0);
        assert(actions_along(deleting, rest) == Seq::<ActionView>::empty());
        assert(ending_along(deleting, rest) is None);
        assert(ending_along(start, events) == ending_along(deleting, rest));
        assert(actions_along(start, events) =~= seq![deletion(context, context.message_id)]);
    }
}

/// A reaction that cannot be added ends the task with the error that names
/// the target: nothing more is asked for, so the message that triggered the
/// command is not deleted, and the reactions added before stay.
pub proof fn lemma_failed_reaction_ends_the_task(
    context: Context,
    target: u64,
    reactions: Seq<Text>,
    next: usize,
    events: Seq<EventView>,
)
    requires
        events.len() >= 1,
        !succeeded(events[0]),
    ensures
        actions_along(
            ExecutionView { context, state: StateView::Reacting { target, reactions, next } },
            events,
        ) == Seq::<ActionView>::empty(),
        ending_along(
            ExecutionView { context, state: StateView::Reacting { target, reactions, next } },
            events,
        ) == Some(Err::<(), _>(TaskErrorView::React { message_id: target })),
{
}

} // verus!
