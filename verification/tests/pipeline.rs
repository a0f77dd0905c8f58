//! End-to-end tests of the three-stage pipeline: classification, processing,
//! and per-channel response filtering.

use oxbow::commands::CommandsStore;
use oxbow::msg::BuiltInCommand;
use oxbow::msg::Help;
use oxbow::msg::ImplicitTask;
use oxbow::msg::Metadata;
use oxbow::msg::Response;
use oxbow::msg::Task;
use oxbow::process::ProcessHandler;
use oxbow::quotes::QuotesStore;
use oxbow::receive::ChatEvent;
use oxbow::receive::ReceiveHandler;
use oxbow::respond::RespondHandler;
use oxbow::timestamp::Timestamp;

fn receiver() -> ReceiveHandler {
    ReceiveHandler {
        prefix: '!',
        twitch_name: "botname".into(),
        authorized_sender: "nerosnm".into(),
    }
}

fn processor() -> ProcessHandler {
    let commands = CommandsStore::new(
        oxbow::store::in_memory().expect("opening an in-memory database should succeed"),
    );
    let quotes = QuotesStore::new(
        oxbow::store::in_memory().expect("opening an in-memory database should succeed"),
    );
    ProcessHandler::new(commands, quotes, '!')
}

fn message(channel: &str, sender: &str, text: &str) -> ChatEvent {
    ChatEvent::Message {
        id: "m1".into(),
        channel: channel.into(),
        sender: sender.into(),
        text: text.into(),
    }
}

fn meta(channel: &str, sender: &str) -> Metadata {
    Metadata { id: "m1".into(), channel: channel.into(), sender: sender.into() }
}

fn stamp() -> Timestamp {
    Timestamp { year: 2021, month: 9, day: 14, hour: 21, minute: 6 }
}

fn only_message(responses: Vec<(Response, Metadata)>) -> (String, Metadata) {
    assert_eq!(responses.len(), 1, "exactly one response expected");
    let (response, m) = responses.into_iter().next().unwrap();
    let Response::Say { message } = response;
    (message, m)
}

#[test]
fn add_command_end_to_end() {
    // Scenario: "!command hello hi there" from alice in #foo defines the
    // command, confirms with "Added !hello", and only #foo's responder
    // emits it.
    let rx = receiver();
    let mut tasks = rx.handle_message(message("#foo", "alice", "!command hello hi there"));
    assert_eq!(tasks.len(), 1);
    let (task, m) = tasks.remove(0);
    assert_eq!(
        task,
        Task::BuiltIn(BuiltInCommand::AddCommand {
            trigger: "hello".into(),
            response: "hi there".into(),
        })
    );
    assert_eq!(m.channel, "#foo");
    assert_eq!(m.sender, "alice");

    let mut proc = processor();
    let responses = proc.handle_task(task, m, &stamp()).expect("processing should succeed");
    let (text, m) = only_message(responses);
    assert_eq!(text, "Added !hello");
    assert_eq!(m.channel, "#foo");

    let foo = RespondHandler::new("#foo".into());
    let bar = RespondHandler::new("#bar".into());
    let sent_foo = foo.process(Response::Say { message: text.clone() }, &m);
    let sent_bar = bar.process(Response::Say { message: text }, &m);
    assert_eq!(sent_foo, vec![("#foo".to_string(), "Added !hello".to_string())]);
    assert!(sent_bar.is_empty(), "the #bar instance must discard #foo's response");
}

#[test]
fn stored_command_answers_later_lookup() {
    // After AddCommand{T, R} succeeds, Command{T} in the same channel yields
    // Say{R}; before it, the lookup stays silent.
    let mut proc = processor();

    let before = proc
        .handle_task(Task::Command { command: "hello".into() }, meta("#foo", "bob"), &stamp())
        .expect("processing should succeed");
    assert!(before.is_empty(), "an undefined command is dropped silently");

    proc.handle_task(
        Task::BuiltIn(BuiltInCommand::AddCommand {
            trigger: "hello".into(),
            response: "hi there".into(),
        }),
        meta("#foo", "alice"),
        &stamp(),
    )
    .expect("processing should succeed");

    let after = proc
        .handle_task(Task::Command { command: "hello".into() }, meta("#foo", "bob"), &stamp())
        .expect("processing should succeed");
    let (text, _) = only_message(after);
    assert_eq!(text, "hi there");
}

#[test]
fn readding_command_switches_verb() {
    let mut proc = processor();
    let first = proc
        .handle_task(
            Task::BuiltIn(BuiltInCommand::AddCommand {
                trigger: "hello".into(),
                response: "hi".into(),
            }),
            meta("#foo", "alice"),
            &stamp(),
        )
        .expect("processing should succeed");
    assert_eq!(only_message(first).0, "Added !hello");

    let second = proc
        .handle_task(
            Task::BuiltIn(BuiltInCommand::AddCommand {
                trigger: "hello".into(),
                response: "hello again".into(),
            }),
            meta("#foo", "alice"),
            &stamp(),
        )
        .expect("processing should succeed");
    assert_eq!(only_message(second).0, "Updated !hello");

    let lookup = proc
        .handle_task(Task::Command { command: "hello".into() }, meta("#foo", "bob"), &stamp())
        .expect("processing should succeed");
    assert_eq!(only_message(lookup).0, "hello again", "the latest write wins");
}

#[test]
fn greeting_end_to_end() {
    // Scenario: "hi @botname" greets the sender back.
    let rx = receiver();
    let mut tasks = rx.handle_message(message("#foo", "alice", "hi @botname"));
    assert_eq!(tasks.len(), 1);
    let (task, m) = tasks.remove(0);
    assert_eq!(task, Task::Implicit(ImplicitTask::Greet));

    let mut proc = processor();
    let responses = proc.handle_task(task, m, &stamp()).expect("processing should succeed");
    let (text, _) = only_message(responses);
    assert_eq!(text, "uwu *nuzzles @alice*");
}

#[test]
fn greeting_requires_word_and_mention() {
    let rx = receiver();
    assert!(rx.handle_message(message("#foo", "alice", "hi there")).is_empty());
    assert!(rx.handle_message(message("#foo", "alice", "@botname are you up")).is_empty());
    assert!(
        rx.handle_message(message("#foo", "alice", "higher @botname")).is_empty(),
        "\"hi\" must stand alone as a word"
    );
    assert_eq!(rx.handle_message(message("#foo", "alice", "HI @botname")).len(), 1);
}

#[test]
fn get_quote_on_empty_store_is_silent() {
    // Scenario: GetQuote{"nope"} against an empty quote store produces zero
    // responses, not even an error message.
    let mut proc = processor();
    let responses = proc
        .handle_task(
            Task::BuiltIn(BuiltInCommand::GetQuote { key: "nope".into() }),
            meta("#foo", "alice"),
            &stamp(),
        )
        .expect("processing should succeed");
    assert_eq!(responses.len(), 0);
}

#[test]
fn add_quote_and_fetch_it() {
    let mut proc = processor();
    let added = proc
        .handle_task(
            Task::BuiltIn(BuiltInCommand::AddQuote {
                username: "nerosnm".into(),
                key: Some("tea".into()),
                text: "tea is mandatory".into(),
            }),
            meta("#foo", "alice"),
            &stamp(),
        )
        .expect("processing should succeed");
    assert_eq!(
        only_message(added).0,
        "Quote #tea added from @nerosnm on 14 Sep 2021 at 21:06 UTC"
    );

    let fetched = proc
        .handle_task(
            Task::BuiltIn(BuiltInCommand::GetQuote { key: "tea".into() }),
            meta("#foo", "bob"),
            &stamp(),
        )
        .expect("processing should succeed");
    assert_eq!(
        only_message(fetched).0,
        "\"tea is mandatory\" - @nerosnm, 14 Sep 2021 (#tea)"
    );
}

#[test]
fn duplicate_quote_conditions_reply_instead_of_failing() {
    let mut proc = processor();
    let add = Task::BuiltIn(BuiltInCommand::AddQuote {
        username: "nerosnm".into(),
        key: Some("tea".into()),
        text: "tea is mandatory".into(),
    });
    proc.handle_task(add.clone(), meta("#foo", "alice"), &stamp())
        .expect("processing should succeed");

    let key_clash = proc
        .handle_task(
            Task::BuiltIn(BuiltInCommand::AddQuote {
                username: "someone".into(),
                key: Some("tea".into()),
                text: "other words".into(),
            }),
            meta("#foo", "alice"),
            &stamp(),
        )
        .expect("a duplicate key is a reply, not an error");
    assert_eq!(only_message(key_clash).0, "Quote #tea already exists");

    let text_clash = proc
        .handle_task(
            Task::BuiltIn(BuiltInCommand::AddQuote {
                username: "nerosnm".into(),
                key: None,
                text: "tea is mandatory".into(),
            }),
            meta("#foo", "alice"),
            &stamp(),
        )
        .expect("a duplicate quote is a reply, not an error");
    assert_eq!(only_message(text_clash).0, "That quote from @nerosnm is already saved");
}

#[test]
fn unkeyed_quote_confirmation() {
    let mut proc = processor();
    let added = proc
        .handle_task(
            Task::BuiltIn(BuiltInCommand::AddQuote {
                username: "nerosnm".into(),
                key: None,
                text: "tea is mandatory".into(),
            }),
            meta("#foo", "alice"),
            &stamp(),
        )
        .expect("processing should succeed");
    assert_eq!(
        only_message(added).0,
        "Quote added from @nerosnm on 14 Sep 2021 at 21:06 UTC"
    );
}

#[test]
fn random_quote_task_on_empty_store_is_silent() {
    let mut proc = processor();
    let responses = proc
        .handle_task(Task::BuiltIn(BuiltInCommand::RandomQuote), meta("#foo", "alice"), &stamp())
        .expect("processing should succeed");
    assert_eq!(responses.len(), 0);
}

#[test]
fn help_replies() {
    let mut proc = processor();
    let general = proc
        .handle_task(Task::Help(Help::General), meta("#foo", "alice"), &stamp())
        .expect("processing should succeed");
    assert_eq!(only_message(general).0, "@alice See oxbow.cacti.dev/commands for help");

    let quote = proc
        .handle_task(Task::Help(Help::Quote), meta("#foo", "alice"), &stamp())
        .expect("processing should succeed");
    assert_eq!(
        only_message(quote).0,
        "@alice See oxbow.cacti.dev/commands#quotes for help with !quote"
    );
}

#[test]
fn word_search_session_lifecycle() {
    let mut proc = processor();

    // Narrowing without a session explains how to start one.
    let lost = proc
        .handle_task(
            Task::BuiltIn(BuiltInCommand::WordLower { word: "mint".into(), distance: None }),
            meta("#foo", "nerosnm"),
            &stamp(),
        )
        .expect("processing should succeed");
    assert_eq!(
        only_message(lost).0,
        "No word search in progress! Start one with !search"
    );

    // Starting replies with the midpoint guess of the dictionary.
    let started = proc
        .handle_task(Task::BuiltIn(BuiltInCommand::WordSearch), meta("#foo", "nerosnm"), &stamp())
        .expect("processing should succeed");
    let (first_guess, _) = only_message(started);
    assert!(first_guess.starts_with("!wg "));

    // A lower bound on the guess narrows the candidates and replies with a
    // new, different guess.
    let word = first_guess["!wg ".len()..].to_string();
    let narrowed = proc
        .handle_task(
            Task::BuiltIn(BuiltInCommand::WordLower { word: word.clone(), distance: None }),
            meta("#foo", "nerosnm"),
            &stamp(),
        )
        .expect("processing should succeed");
    let (second_guess, _) = only_message(narrowed);
    assert_ne!(second_guess, first_guess);

    // Another channel has no session of its own.
    let other = proc
        .handle_task(
            Task::BuiltIn(BuiltInCommand::WordUpper { word, distance: None }),
            meta("#bar", "nerosnm"),
            &stamp(),
        )
        .expect("processing should succeed");
    assert_eq!(
        only_message(other).0,
        "No word search in progress! Start one with !search"
    );

    // Stopping confirms, and the session resets rather than disappears.
    let stopped = proc
        .handle_task(Task::BuiltIn(BuiltInCommand::WordFound), meta("#foo", "nerosnm"), &stamp())
        .expect("processing should succeed");
    assert_eq!(only_message(stopped).0, "Word search stopped");

    let restarted = proc
        .handle_task(Task::BuiltIn(BuiltInCommand::WordSearch), meta("#foo", "nerosnm"), &stamp())
        .expect("processing should succeed");
    assert_eq!(only_message(restarted).0, first_guess);
}

#[test]
fn stop_without_session_replies() {
    let mut proc = processor();
    let stopped = proc
        .handle_task(Task::BuiltIn(BuiltInCommand::WordFound), meta("#foo", "nerosnm"), &stamp())
        .expect("processing should succeed");
    assert_eq!(only_message(stopped).0, "No word search in progress!");
}

#[test]
fn privileged_commands_are_gated_to_authorized_sender() {
    let rx = receiver();
    assert!(rx.handle_message(message("#foo", "alice", "!search")).is_empty());
    assert!(rx.handle_message(message("#foo", "alice", "!lower mint")).is_empty());
    assert!(rx.handle_message(message("#foo", "alice", "!upper mint 2")).is_empty());
    assert!(rx.handle_message(message("#foo", "alice", "!found")).is_empty());

    let mut tasks = rx.handle_message(message("#foo", "nerosnm", "!search"));
    assert_eq!(tasks.len(), 1);
    assert_eq!(tasks.remove(0).0, Task::BuiltIn(BuiltInCommand::WordSearch));
}

#[test]
fn classification_of_quote_and_help_lines() {
    let rx = receiver();
    let tasks = rx.handle_message(message("#foo", "alice", "!quote"));
    assert_eq!(tasks.len(), 1);
    assert_eq!(tasks[0].0, Task::BuiltIn(BuiltInCommand::RandomQuote));

    let tasks = rx.handle_message(message("#foo", "alice", "!quote tea"));
    assert_eq!(tasks[0].0, Task::BuiltIn(BuiltInCommand::GetQuote { key: "tea".into() }));

    let tasks = rx.handle_message(message("#foo", "alice", "!help"));
    assert_eq!(tasks[0].0, Task::Help(Help::General));

    let tasks = rx.handle_message(message("#foo", "alice", "!hello"));
    assert_eq!(tasks[0].0, Task::Command { command: "hello".into() });
}

#[test]
fn non_messages_produce_no_tasks() {
    let rx = receiver();
    assert!(rx.handle_message(ChatEvent::Other).is_empty());
    assert!(
        rx.handle_message(ChatEvent::Notice {
            message_id: Some("msg_banned".into()),
            text: "you are banned".into(),
        })
        .is_empty()
    );
    assert!(rx.handle_message(message("#foo", "alice", "!")).is_empty());
}

#[test]
fn error_notices_are_recognized() {
    assert!(oxbow::receive::is_error_notice(&Some("msg_banned".into())));
    assert!(!oxbow::receive::is_error_notice(&Some("host_on".into())));
    assert!(!oxbow::receive::is_error_notice(&Some("msg".into())));
    assert!(!oxbow::receive::is_error_notice(&None));
}

#[test]
fn responder_filters_by_channel() {
    let foo = RespondHandler::new("#foo".into());
    let m_foo = meta("#foo", "alice");
    let m_bar = meta("#bar", "alice");

    let kept = foo.process(Response::Say { message: "hello".into() }, &m_foo);
    assert_eq!(kept, vec![("#foo".to_string(), "hello".to_string())]);

    let dropped = foo.process(Response::Say { message: "hello".into() }, &m_bar);
    assert!(dropped.is_empty(), "a responder must never emit another channel's message");
}

#[test]
fn metadata_travels_unchanged_through_processing() {
    let mut proc = processor();
    let m = Metadata { id: "id-42".into(), channel: "#foo".into(), sender: "alice".into() };
    let responses = proc
        .handle_task(Task::Implicit(ImplicitTask::Greet), m, &stamp())
        .expect("processing should succeed");
    let (_, out) = only_message(responses);
    assert_eq!(out.id, "id-42");
    assert_eq!(out.channel, "#foo");
    assert_eq!(out.sender, "alice");
}
