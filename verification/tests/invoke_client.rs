use ui_bridge::command::{Command, CommandResult, Reply};
use ui_bridge::error::ErrorKind;
use ui_bridge::invoke::{InvokeClient, InvokeStep, Requirement, TransportOutcome};
use ui_bridge::record::Record;

fn login(mail: &str, pass: &str) -> Command {
    Command {
        name: String::from("login"),
        args: Record::new().with("mail", mail).with("pass", pass),
    }
}

fn error(kind: ErrorKind) -> CommandResult {
    CommandResult::Error(kind)
}

#[test]
fn empty_mail_is_invalid_input_without_transport() {
    let client = InvokeClient::standard();
    let result = client.invoke(login("", "x"), |_| panic!("the transport was reached"));
    assert_eq!(result, error(ErrorKind::InvalidInput));
}

#[test]
fn empty_pass_is_invalid_input_without_transport() {
    let client = InvokeClient::standard();
    let result = client.invoke(login("a@b.c", ""), |_| panic!("the transport was reached"));
    assert_eq!(result, error(ErrorKind::InvalidInput));
}

#[test]
fn missing_field_is_invalid_input() {
    let client = InvokeClient::standard();
    let command =
        Command { name: String::from("login"), args: Record::new().with("mail", "a@b.c") };
    assert!(!client.accepts(&command));
    assert_eq!(client.begin(command), InvokeStep::Finished(error(ErrorKind::InvalidInput)));
}

#[test]
fn begin_hands_a_valid_command_to_the_transport() {
    let client = InvokeClient::standard();
    let step = client.begin(login("a@b.c", "secret"));
    assert_eq!(step, InvokeStep::Transmit(login("a@b.c", "secret")));
}

#[test]
fn transport_gets_the_command_as_it_was_given() {
    let client = InvokeClient::standard();
    let mut seen = None;
    let result = client.invoke(login("a@b.c", "secret"), |command| {
        seen = Some(command);
        TransportOutcome::Replied(Reply::Value(Record::new().with("message", "welcome")))
    });
    assert_eq!(seen, Some(login("a@b.c", "secret")));
    assert_eq!(result, CommandResult::Value(Record::new().with("message", "welcome")));
}

#[test]
fn a_command_without_rules_needs_no_arguments() {
    let client = InvokeClient::standard();
    let command = Command { name: String::from("logout"), args: Record::new() };
    assert!(client.accepts(&command));
}

#[test]
fn a_new_client_requires_nothing() {
    let client = InvokeClient::new();
    assert_eq!(client.rules, vec![]);
    assert!(client.accepts(&login("", "")));
}

#[test]
fn require_adds_a_rule_at_the_end() {
    let client = InvokeClient::new().require("greet", "name");
    assert_eq!(
        client.rules,
        vec![Requirement { command: String::from("greet"), field: String::from("name") }]
    );
    let empty = Command { name: String::from("greet"), args: Record::new().with("name", "") };
    let filled = Command { name: String::from("greet"), args: Record::new().with("name", "x") };
    assert!(!client.accepts(&empty));
    assert!(client.accepts(&filled));
    assert!(client.accepts(&login("", "")));
}

#[test]
fn the_standard_client_has_the_two_login_rules() {
    let client = InvokeClient::standard();
    assert_eq!(
        client.rules,
        vec![
            Requirement { command: String::from("login"), field: String::from("mail") },
            Requirement { command: String::from("login"), field: String::from("pass") },
        ]
    );
}

#[test]
fn rejecting_transport_is_communication_failure() {
    let client = InvokeClient::standard();
    let result = client.invoke(login("a@b.c", "secret"), |_| TransportOutcome::Rejected);
    assert_eq!(result, error(ErrorKind::CommunicationFailure));
}

#[test]
fn unreadable_response_is_deserialization_failure() {
    let client = InvokeClient::standard();
    let result = client.invoke(login("a@b.c", "secret"), |_| TransportOutcome::Unreadable);
    assert_eq!(result, error(ErrorKind::DeserializationFailure));
}

#[test]
fn unserializable_arguments_are_serialization_failure() {
    let client = InvokeClient::standard();
    let result = client.invoke(login("a@b.c", "secret"), |_| TransportOutcome::Unserializable);
    assert_eq!(result, error(ErrorKind::SerializationFailure));
}

#[test]
fn unknown_kind_in_reply_is_deserialization_failure() {
    let reply = Reply::Error(String::from("Whatever"));
    let result = InvokeClient::complete(TransportOutcome::Replied(reply));
    assert_eq!(result, error(ErrorKind::DeserializationFailure));
}

#[test]
fn complete_passes_a_value_on() {
    let value = Record::new().with("message", "welcome").with("extra", "1");
    let result = InvokeClient::complete(TransportOutcome::Replied(Reply::Value(value.clone())));
    assert_eq!(result, CommandResult::Value(value));
}

#[test]
fn complete_reads_every_kind_from_its_name() {
    for kind in [
        ErrorKind::InvalidInput,
        ErrorKind::NotFound,
        ErrorKind::SerializationFailure,
        ErrorKind::CommunicationFailure,
        ErrorKind::DeserializationFailure,
        ErrorKind::HandlerFailure,
    ] {
        let reply = Reply::Error(String::from(kind.name()));
        assert_eq!(InvokeClient::complete(TransportOutcome::Replied(reply)), error(kind));
    }
}

#[test]
fn transport_is_called_once() {
    let client = InvokeClient::standard();
    let mut calls = 0;
    let _ = client.invoke(login("a@b.c", "secret"), |_| {
        calls += 1;
        TransportOutcome::Rejected
    });
    assert_eq!(calls, 1);
}
