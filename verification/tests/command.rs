use ui_bridge::command::{Command, CommandResult, HandlerOutcome, Reply};
use ui_bridge::error::ErrorKind;
use ui_bridge::record::Record;

#[test]
fn settle_keeps_what_the_handler_returned() {
    let record = Record::new().with("message", "ok");
    assert_eq!(
        HandlerOutcome::Completed(record.clone()).settle(),
        CommandResult::Value(record)
    );
}

#[test]
fn settle_reports_a_failed_handler_as_handler_failure() {
    assert_eq!(HandlerOutcome::Failed.settle(), CommandResult::Error(ErrorKind::HandlerFailure));
}

#[test]
fn encode_names_the_kind() {
    assert_eq!(
        CommandResult::Error(ErrorKind::NotFound).encode(),
        Reply::Error(String::from("NotFound"))
    );
    let record = Record::new().with("message", "ok");
    assert_eq!(CommandResult::Value(record.clone()).encode(), Reply::Value(record));
}

#[test]
fn decode_of_encode_is_the_result() {
    let results = [
        CommandResult::Value(Record::new()),
        CommandResult::Value(Record::new().with("message", "ok").with("kind", "NotFound")),
        CommandResult::Error(ErrorKind::InvalidInput),
        CommandResult::Error(ErrorKind::NotFound),
        CommandResult::Error(ErrorKind::SerializationFailure),
        CommandResult::Error(ErrorKind::CommunicationFailure),
        CommandResult::Error(ErrorKind::DeserializationFailure),
        CommandResult::Error(ErrorKind::HandlerFailure),
    ];
    for result in results {
        let expected = match &result {
            CommandResult::Value(record) => CommandResult::Value(record.clone()),
            CommandResult::Error(kind) => CommandResult::Error(*kind),
        };
        assert_eq!(CommandResult::decode(result.encode()), expected);
    }
}

#[test]
fn decode_of_an_unknown_name_is_deserialization_failure() {
    assert_eq!(
        CommandResult::decode(Reply::Error(String::new())),
        CommandResult::Error(ErrorKind::DeserializationFailure)
    );
}

#[test]
fn clone_of_a_command_is_equal() {
    let command = Command {
        name: String::from("login"),
        args: Record::new().with("mail", "a@b.c").with("pass", "secret"),
    };
    assert_eq!(command.clone(), command);
}
