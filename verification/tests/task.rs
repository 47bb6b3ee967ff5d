use hatysa::command::info::Timestamp;
use hatysa::command::karma::{Karma, StoreReply, StoreRequest};
use hatysa::command::sketchify::PostRequest;
use hatysa::command::{Command, CommandError, Response};
use hatysa::handler::{Handler, HandlerError, Message};
use hatysa::task::embed::{Embed, EmbedAuthor, EmbedField};
use hatysa::task::{Action, Context, Event, Execution, State, Step, Task, TaskError};

const CHANNEL: u64 = 3;
const ORIGINAL: u64 = 20;
const AUTHOR: u64 = 7;
const REPORT: u64 = 30;
const TARGET: u64 = 19;

fn context() -> Context {
    Context { channel_id: CHANNEL, message_id: ORIGINAL, author_id: AUTHOR }
}

fn in_state(state: State) -> Execution {
    Execution { context: context(), state }
}

fn go_on(step: Step) -> (Execution, Action) {
    match step {
        Step::Next(execution, action) => (execution, action),
        Step::Finished(ending) => panic!("the task ended early: {:?}", ending),
    }
}

fn ok() -> String {
    "🆗".to_string()
}

fn delete(message_id: u64) -> Action {
    Action::Delete { channel_id: CHANNEL, message_id }
}

fn say(text: &str) -> Step {
    Step::Next(
        in_state(State::Saying),
        Action::Say { channel_id: CHANNEL, text: text.to_string() },
    )
}

fn ok_reaction(message_id: u64, user_id: u64) -> Event {
    Event::Reaction { message_id, user_id, emoji: ok() }
}

fn report_embed(sentence: &str, icon_url: Option<&str>) -> Embed {
    Embed {
        author: EmbedAuthor {
            name: "Hatysa".to_string(),
            url: "https://todo.sr.ht/~nerosnm/hatysa".to_string(),
            icon_url: icon_url.map(|url| url.to_string()),
        },
        fields: vec![EmbedField {
            name: "Error".to_string(),
            value: sentence.to_string(),
            inline: false,
        }],
        footer: Some("Click OK within 5 mins to delete.".to_string()),
        colour: (244, 234, 62),
    }
}

#[test]
fn clap_message_is_answered_with_the_clapped_text() {
    let handler =
        Handler { prefix: ",".to_string(), start_time: Timestamp::new(0, 0).unwrap() };
    let msg = Message {
        id: ORIGINAL,
        channel_id: CHANNEL,
        author_id: AUTHOR,
        content: ",clap hello world".to_string(),
        private: false,
    };
    let command = handler.interpret_command(&msg).unwrap();
    assert_eq!(command, Command::Clap { input: "hello world".to_string() });
    let step = handler.message(&msg).unwrap();
    assert_eq!(step, say("hello 👏 world 👏"));
    let (execution, _) = go_on(step);
    assert_eq!(execution.step(Event::Sent { message_id: 22 }), Step::Finished(Ok(())));
}

#[test]
fn react_with_a_repetition_starts_a_report() {
    let handler =
        Handler { prefix: ",".to_string(), start_time: Timestamp::new(0, 0).unwrap() };
    let msg = Message {
        id: ORIGINAL,
        channel_id: CHANNEL,
        author_id: AUTHOR,
        content: ",react aab".to_string(),
        private: false,
    };
    let step = handler.message(&msg).unwrap();
    assert_eq!(
        step,
        Step::Next(
            in_state(State::ReportAvatar {
                error: CommandError::Repetition { original: "aab".to_string() }
            }),
            Action::FetchAvatar
        )
    );
    let (execution, _) = go_on(step);
    let (_, action) = go_on(execution.step(Event::Avatar { url: None }));
    assert_eq!(
        action,
        Action::SendEmbed {
            channel_id: CHANNEL,
            embed: report_embed("String **AAB** contains repeated characters!", None),
            reactions: vec![ok()],
        }
    );
}

#[test]
fn handler_errors_are_task_errors() {
    let handler =
        Handler { prefix: ",".to_string(), start_time: Timestamp::new(0, 0).unwrap() };
    let msg = Message {
        id: ORIGINAL,
        channel_id: CHANNEL,
        author_id: AUTHOR,
        content: ",ping".to_string(),
        private: false,
    };
    let (execution, _) = go_on(handler.message(&msg).unwrap());
    let ending: Result<(), HandlerError> = match execution.step(Event::Failed) {
        Step::Finished(ending) => ending,
        Step::Next(_, action) => panic!("the task goes on: {:?}", action),
    };
    assert_eq!(ending, Err(HandlerError::SendMessage));
}

#[test]
fn message_without_a_command_gives_no_task() {
    let handler =
        Handler { prefix: ",".to_string(), start_time: Timestamp::new(0, 0).unwrap() };
    let msg = Message {
        id: ORIGINAL,
        channel_id: CHANNEL,
        author_id: AUTHOR,
        content: "just talking".to_string(),
        private: false,
    };
    assert_eq!(handler.message(&msg), None);
}

#[test]
fn task_of_a_ping_says_pong() {
    let step = Task::new(Command::Ping, context()).execute();
    assert_eq!(step, say("Pong!"));
}

#[test]
fn task_of_a_text_command_says_the_output() {
    assert_eq!(
        Task::new(Command::Spongebob { input: "ab cd".to_string() }, context()).execute(),
        say("aB cD")
    );
    assert_eq!(
        Task::new(Command::Wavy { input: "ab".to_string() }, context()).execute(),
        say("ａｂ")
    );
    assert_eq!(context().respond(Response::Zalgo { output: "z".to_string() }), say("z"));
}

#[test]
fn saying_ends_the_task() {
    assert_eq!(in_state(State::Saying).step(Event::Done), Step::Finished(Ok(())));
    assert_eq!(
        in_state(State::Saying).step(Event::Sent { message_id: 1 }),
        Step::Finished(Ok(()))
    );
    assert_eq!(
        in_state(State::Saying).step(Event::Failed),
        Step::Finished(Err(TaskError::SendMessage))
    );
    assert_eq!(
        in_state(State::Saying).step(Event::TimedOut),
        Step::Finished(Err(TaskError::SendMessage))
    );
}

#[test]
fn info_is_answered_with_an_embed() {
    let response = Response::Info {
        version: "0.2.1".to_string(),
        uptime: (1, 2, 3, 4),
        homepage: "https://github.com/nerosnm/hatysa".to_string(),
    };
    let (execution, action) = go_on(context().respond(response));
    assert_eq!(action, Action::FetchAvatar);
    let (execution, action) =
        go_on(execution.step(Event::Avatar { url: Some("https://cdn/a.png".to_string()) }));
    assert_eq!(
        action,
        Action::SendEmbed {
            channel_id: CHANNEL,
            embed: Embed {
                author: EmbedAuthor {
                    name: "Hatysa".to_string(),
                    url: "https://sr.ht/~nerosnm/hatysa".to_string(),
                    icon_url: Some("https://cdn/a.png".to_string()),
                },
                fields: vec![
                    EmbedField {
                        name: "Version".to_string(),
                        value: "0.2.1".to_string(),
                        inline: true
                    },
                    EmbedField {
                        name: "Uptime".to_string(),
                        value: "1d 2h 3m 4s".to_string(),
                        inline: true
                    },
                    EmbedField {
                        name: "Homepage".to_string(),
                        value: "https://github.com/nerosnm/hatysa".to_string(),
                        inline: false
                    },
                ],
                footer: None,
                colour: (244, 234, 62),
            },
            reactions: vec![],
        }
    );
    assert_eq!(execution.state, State::Saying);
    assert_eq!(execution.step(Event::Sent { message_id: 5 }), Step::Finished(Ok(())));
}

#[test]
fn info_goes_out_without_a_picture_if_there_is_none() {
    let response = Response::Info {
        version: "v".to_string(),
        uptime: (0, 0, 0, 1),
        homepage: "h".to_string(),
    };
    let (execution, _) = go_on(context().respond(response));
    let (_, action) = go_on(execution.step(Event::Failed));
    match action {
        Action::SendEmbed { embed, .. } => {
            assert_eq!(embed.author.icon_url, None);
            assert_eq!(embed.fields[1].value, "0d 0h 0m 1s");
        }
        other => panic!("not an embed: {:?}", other),
    }
}

#[test]
fn react_goes_under_the_message_before() {
    let reactions = vec!["🇴".to_string(), "🇰".to_string()];
    let (execution, action) =
        go_on(context().respond(Response::React { reactions: reactions.clone() }));
    assert_eq!(action, Action::FetchPrevious { channel_id: CHANNEL, before: ORIGINAL });
    let (execution, action) = go_on(execution.step(Event::Previous { ids: vec![TARGET] }));
    assert_eq!(action, Action::FetchMessage { channel_id: CHANNEL, message_id: TARGET });
    let (execution, action) = go_on(execution.step(Event::Done));
    assert_eq!(
        action,
        Action::React { channel_id: CHANNEL, message_id: TARGET, reaction: "🇴".to_string() }
    );
    let (execution, action) = go_on(execution.step(Event::Done));
    assert_eq!(
        action,
        Action::React { channel_id: CHANNEL, message_id: TARGET, reaction: "🇰".to_string() }
    );
    let (execution, action) = go_on(execution.step(Event::Done));
    assert_eq!(action, delete(ORIGINAL));
    assert_eq!(execution.step(Event::Done), Step::Finished(Ok(())));
}

#[test]
fn react_without_a_message_before_fails() {
    let (execution, _) = go_on(context().respond(Response::React { reactions: vec![ok()] }));
    assert_eq!(
        execution.step(Event::Previous { ids: vec![] }),
        Step::Finished(Err(TaskError::GetPrevious { message_id: ORIGINAL }))
    );
    let (execution, _) = go_on(context().respond(Response::React { reactions: vec![ok()] }));
    assert_eq!(
        execution.step(Event::Failed),
        Step::Finished(Err(TaskError::GetPrevious { message_id: ORIGINAL }))
    );
}

#[test]
fn react_names_the_step_that_failed() {
    let reactions = vec!["a".to_string(), "b".to_string()];
    assert_eq!(
        in_state(State::FetchingTarget { target: TARGET, reactions: reactions.clone() })
            .step(Event::Failed),
        Step::Finished(Err(TaskError::GetMessage { message_id: TARGET }))
    );
    assert_eq!(
        in_state(State::Reacting { target: TARGET, reactions: reactions.clone(), next: 1 })
            .step(Event::Failed),
        Step::Finished(Err(TaskError::React { message_id: TARGET }))
    );
    assert_eq!(
        in_state(State::DeletingOriginal).step(Event::Failed),
        Step::Finished(Err(TaskError::Delete { message_id: ORIGINAL }))
    );
}

#[test]
fn react_without_reactions_only_deletes_the_command() {
    let (_, action) = go_on(
        in_state(State::FetchingTarget { target: TARGET, reactions: vec![] }).step(Event::Done),
    );
    assert_eq!(action, delete(ORIGINAL));
}

#[test]
fn find_previous_id_of_the_context() {
    assert_eq!(context().find_previous_id(&vec![TARGET, 18]), Ok(TARGET));
    assert_eq!(
        context().find_previous_id(&vec![]),
        Err(TaskError::GetPrevious { message_id: ORIGINAL })
    );
}

#[test]
fn sketchify_posts_the_form_and_sends_the_link() {
    let step = Task::new(Command::Sketchify { url_raw: "git.sr.ht".to_string() }, context())
        .execute();
    let (execution, action) = go_on(step);
    assert_eq!(
        action,
        Action::Post {
            request: PostRequest {
                url: "http://verylegit.link/sketchify".to_string(),
                field: "long_url".to_string(),
                value: "http://git.sr.ht/".to_string(),
            }
        }
    );
    assert_eq!(execution.state, State::Posting);
    let (execution, action) =
        go_on(execution.step(Event::Body { text: "verylegit.link/x9".to_string() }));
    assert_eq!(
        action,
        Action::Say { channel_id: CHANNEL, text: "<@7>: <http://verylegit.link/x9>".to_string() }
    );
    let (execution, action) = go_on(execution.step(Event::Sent { message_id: 40 }));
    assert_eq!(action, delete(ORIGINAL));
    assert_eq!(execution.step(Event::Done), Step::Finished(Ok(())));
}

#[test]
fn sketchify_tells_send_failure_from_delete_failure() {
    assert_eq!(
        in_state(State::SayingLink).step(Event::Failed),
        Step::Finished(Err(TaskError::SendMessage))
    );
    let (execution, _) = go_on(in_state(State::SayingLink).step(Event::Done));
    assert_eq!(
        execution.step(Event::Failed),
        Step::Finished(Err(TaskError::Delete { message_id: ORIGINAL }))
    );
}

#[test]
fn sketchify_reports_a_url_that_is_none() {
    let step = Task::new(Command::Sketchify { url_raw: "%393j+}[4".to_string() }, context())
        .execute();
    assert_eq!(
        step,
        Step::Next(
            in_state(State::ReportAvatar { error: CommandError::InvalidUrl }),
            Action::FetchAvatar
        )
    );
}

#[test]
fn sketchify_reports_a_failed_request() {
    let (execution, action) = go_on(in_state(State::Posting).step(Event::Failed));
    assert_eq!(action, Action::FetchAvatar);
    assert_eq!(execution.state, State::ReportAvatar { error: CommandError::Request });
    let (execution, _) = go_on(in_state(State::Posting).step(Event::Body { text: String::new() }));
    assert_eq!(execution.state, State::ReportAvatar { error: CommandError::InvalidUrl });
}

#[test]
fn karma_asks_the_store_and_says_the_answer() {
    let step = Task::new(Command::Karma { subject: "rust".to_string() }, context()).execute();
    let (execution, action) = go_on(step);
    assert_eq!(
        action,
        Action::Store { question: StoreRequest::Get { subject: "rust".to_string() } }
    );
    assert_eq!(
        execution.step(Event::Stored { reply: StoreReply::Count(12) }),
        say("rust: 12")
    );
}

#[test]
fn karma_top_says_the_list() {
    let step = Task::new(Command::KarmaTop, context()).execute();
    let (execution, action) = go_on(step);
    assert_eq!(action, Action::Store { question: StoreRequest::Top { limit: 10 } });
    let top = vec![
        Karma { subject: "rust".to_string(), karma: 12 },
        Karma { subject: "c".to_string(), karma: 3 },
    ];
    assert_eq!(
        execution.step(Event::Stored { reply: StoreReply::Top(top) }),
        say("rust: 12\nc: 3")
    );
    assert_eq!(context().respond(Response::KarmaTop { top: vec![] }), Step::Finished(Ok(())));
}

#[test]
fn karma_changes_are_answered_by_nothing() {
    let step =
        Task::new(Command::KarmaIncrement { subject: "rust".to_string() }, context()).execute();
    let (execution, action) = go_on(step);
    assert_eq!(
        action,
        Action::Store { question: StoreRequest::Increment { subject: "rust".to_string() } }
    );
    assert_eq!(
        execution.step(Event::Stored { reply: StoreReply::Done }),
        Step::Finished(Ok(()))
    );
    let step =
        Task::new(Command::KarmaDecrement { subject: "rust".to_string() }, context()).execute();
    let (execution, action) = go_on(step);
    assert_eq!(
        action,
        Action::Store { question: StoreRequest::Decrement { subject: "rust".to_string() } }
    );
    assert_eq!(
        execution.step(Event::Stored { reply: StoreReply::Done }),
        Step::Finished(Ok(()))
    );
}

#[test]
fn karma_reports_a_store_that_fails() {
    let failure =
        CommandError::Internal("the karma store did not answer the request".to_string());
    let request = StoreRequest::Get { subject: "rust".to_string() };
    let (execution, _) = go_on(
        in_state(State::Storing { request }).step(Event::Stored { reply: StoreReply::Failed }),
    );
    assert_eq!(execution.state, State::ReportAvatar { error: failure });
    let failure =
        CommandError::Internal("the karma store did not answer the request".to_string());
    let request = StoreRequest::Top { limit: 10 };
    let (execution, _) = go_on(in_state(State::Storing { request }).step(Event::Failed));
    assert_eq!(execution.state, State::ReportAvatar { error: failure });
}

#[test]
fn report_shows_one_sentence_for_each_error() {
    let cases = vec![
        (
            CommandError::NonAlphanumeric { original: "a-b".to_string() },
            "String **A-B** contains non-alphanumeric characters!",
        ),
        (
            CommandError::Repetition { original: "straße".to_string() },
            "String **STRASSE** contains repeated characters!",
        ),
        (CommandError::InvalidUrl, "Invalid URL!"),
        (CommandError::Request, "Failed to complete request. Please try again."),
        (
            CommandError::Internal("disk full".to_string()),
            "An internal error occurred. Please try again later.",
        ),
    ];
    for (error, sentence) in cases {
        let (execution, action) = go_on(context().report(error));
        assert_eq!(action, Action::FetchAvatar);
        let (_, action) =
            go_on(execution.step(Event::Avatar { url: Some("https://cdn/a.png".to_string()) }));
        assert_eq!(
            action,
            Action::SendEmbed {
                channel_id: CHANNEL,
                embed: report_embed(sentence, Some("https://cdn/a.png")),
                reactions: vec![ok()],
            }
        );
    }
}

#[test]
fn report_waits_for_the_author() {
    let (execution, action) = go_on(
        in_state(State::Reporting { error: CommandError::InvalidUrl })
            .step(Event::Sent { message_id: REPORT }),
    );
    assert_eq!(
        action,
        Action::AwaitReaction {
            message_id: REPORT,
            author_id: AUTHOR,
            emoji: ok(),
            timeout_secs: 300
        }
    );
    assert_eq!(execution.state, State::AwaitingAck { report_id: REPORT });
}

#[test]
fn report_that_cannot_be_sent_fails_with_its_error() {
    assert_eq!(
        in_state(State::Reporting { error: CommandError::Request }).step(Event::Failed),
        Step::Finished(Err(TaskError::ReportError(CommandError::Request)))
    );
    assert_eq!(
        in_state(State::Reporting { error: CommandError::Request }).step(Event::Done),
        Step::Finished(Err(TaskError::ReportError(CommandError::Request)))
    );
}

#[test]
fn acknowledged_report_is_deleted_with_the_command() {
    let waiting = in_state(State::AwaitingAck { report_id: REPORT });
    let (execution, action) = go_on(waiting.step(ok_reaction(REPORT, AUTHOR)));
    assert_eq!(action, delete(REPORT));
    assert_eq!(execution.state, State::Acknowledged { report_id: REPORT });
    let (execution, action) = go_on(execution.step(Event::Done));
    assert_eq!(action, delete(ORIGINAL));
    assert_eq!(execution.step(Event::Done), Step::Finished(Ok(())));
}

#[test]
fn acknowledged_report_deletes_the_command_even_if_the_report_stays() {
    let (execution, _) = go_on(
        in_state(State::AwaitingAck { report_id: REPORT }).step(ok_reaction(REPORT, AUTHOR)),
    );
    let (execution, action) = go_on(execution.step(Event::Failed));
    assert_eq!(action, delete(ORIGINAL));
    assert_eq!(
        execution.step(Event::Failed),
        Step::Finished(Err(TaskError::Delete { message_id: ORIGINAL }))
    );
}

#[test]
fn timed_out_report_loses_its_prompt_and_stays() {
    let (execution, action) =
        go_on(in_state(State::AwaitingAck { report_id: REPORT }).step(Event::TimedOut));
    assert_eq!(
        action,
        Action::RemoveReaction { channel_id: CHANNEL, message_id: REPORT, emoji: ok() }
    );
    assert_eq!(execution.state, State::TimedOut { report_id: REPORT });
    assert_eq!(execution.step(Event::Done), Step::Finished(Ok(())));
    assert_eq!(
        in_state(State::TimedOut { report_id: REPORT }).step(Event::Failed),
        Step::Finished(Ok(()))
    );
}

#[test]
fn reaction_of_someone_else_dismisses_nothing() {
    let strangers = vec![
        ok_reaction(REPORT, AUTHOR + 1),
        ok_reaction(REPORT + 1, AUTHOR),
        Event::Reaction { message_id: REPORT, user_id: AUTHOR, emoji: "👍".to_string() },
        Event::Done,
        Event::Failed,
    ];
    let mut execution = in_state(State::AwaitingAck { report_id: REPORT });
    for event in strangers {
        let (following, action) = go_on(execution.step(event));
        assert_eq!(action, Action::KeepWaiting);
        assert_eq!(following.state, State::AwaitingAck { report_id: REPORT });
        execution = following;
    }
    let (_, action) = go_on(execution.step(ok_reaction(REPORT, AUTHOR)));
    assert_eq!(action, delete(REPORT));
}

#[test]
fn is_acknowledgement_wants_emoji_author_and_message() {
    assert!(context().is_acknowledgement(REPORT, &ok_reaction(REPORT, AUTHOR)));
    assert!(!context().is_acknowledgement(REPORT, &ok_reaction(REPORT, 8)));
    assert!(!context().is_acknowledgement(REPORT, &ok_reaction(31, AUTHOR)));
    assert!(!context().is_acknowledgement(REPORT, &Event::TimedOut));
}

#[test]
fn settle_goes_by_the_outcome() {
    assert_eq!(context().settle(Ok(Response::Pong)), say("Pong!"));
    let (execution, action) = go_on(context().settle(Err(CommandError::Request)));
    assert_eq!(action, Action::FetchAvatar);
    assert_eq!(execution.state, State::ReportAvatar { error: CommandError::Request });
}
