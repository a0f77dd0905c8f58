//! Tests of the command store.

use oxbow::commands::CommandsStore;

fn storage() -> CommandsStore {
    let db = oxbow::store::in_memory().expect("opening an in-memory database should succeed");
    CommandsStore::new(db)
}

#[test]
fn set_command() {
    let mut commands = storage();

    let response = commands
        .get_command("asdf", "command")
        .expect("attempting to get the command should succeed");

    assert!(
        response.is_none(),
        "no response should be returned if the command doesn't exist"
    );

    commands
        .set_command("asdf", "command", "this is the response to the command")
        .expect("setting the command should succeed");

    let response2 = commands
        .get_command("asdf", "command")
        .expect("attempting to get the command should succeed");

    assert!(
        response2.is_some(),
        "a response should be returned if the command does exist"
    );
}

#[test]
fn update_command() {
    let mut commands = storage();

    commands
        .set_command(
            "qwerty",
            "updatethis",
            "this is the response to the command",
        )
        .expect("setting the command the first time should succeed");

    commands
        .set_command("qwerty", "updatethis", "now i've changed the response")
        .expect("setting the command again should succeed in updating it");

    let response = commands
        .get_command("qwerty", "updatethis")
        .expect("attempting to get the command should succeed");

    assert_eq!(
        response.expect("response should be Some"),
        "now i've changed the response".to_owned(),
        "response should have been updated"
    );
}

#[test]
fn commands_are_scoped_by_channel() {
    let mut commands = storage();

    commands
        .set_command("one", "greet", "hello from one")
        .expect("setting the command should succeed");

    let other = commands
        .get_command("two", "greet")
        .expect("attempting to get the command should succeed");

    assert!(other.is_none(), "another channel must not see the command");
}
