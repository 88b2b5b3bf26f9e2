//! Commands, their results, and the shapes in which results travel.

use vstd::prelude::*;
use crate::error::ErrorKind;
use crate::record::{Record, RecordView};
use crate::text::Text;

verus! {

/// A named request from the interface to the host. It is handed over by value: a command is
/// used once.
#[derive(Debug, PartialEq, Eq)]
pub struct Command {
    pub name: String,
    pub args: Record,
}

/// A command as a value.
pub struct CommandView {
    pub name: Text,
    pub args: RecordView,
}

impl View for Command {
    type V = CommandView;

    open spec fn view(&self) -> CommandView {
        CommandView { name: self.name@, args: self.args@ }
    }
}

impl Clone for Command {
    fn clone(&self) -> (copy: Command)
        ensures
            copy@ == self@,
    {
        Command { name: self.name.clone(), args: self.args.clone() }
    }
}

/// What a command came to: a value, or the kind of failure. Never both, never neither.
#[derive(Debug, PartialEq, Eq)]
pub enum CommandResult {
    Value(Record),
    Error(ErrorKind),
}

/// A command's result as a value.
pub enum CommandResultView {
    Value(RecordView),
    Error(ErrorKind),
}

impl View for CommandResult {
    type V = CommandResultView;

    open spec fn view(&self) -> CommandResultView {
        match self {
            CommandResult::Value(record) => CommandResultView::Value(record@),
            CommandResult::Error(kind) => CommandResultView::Error(*kind),
        }
    }
}

/// What came of running a handler: the record it returned, or the fact that it failed.
#[derive(Debug, PartialEq, Eq)]
pub enum HandlerOutcome {
    Completed(Record),
    Failed,
}

/// A handler's outcome as a value.
pub enum HandlerOutcomeView {
    Completed(RecordView),
    Failed,
}

impl View for HandlerOutcome {
    type V = HandlerOutcomeView;

    open spec fn view(&self) -> HandlerOutcomeView {
        match self {
            HandlerOutcome::Completed(record) => HandlerOutcomeView::Completed(record@),
            HandlerOutcome::Failed => HandlerOutcomeView::Failed,
        }
    }
}

/// A result as it travels from the host to the interface: the value, or the wire name of the
/// failure's kind.
#[derive(Debug, PartialEq, Eq)]
pub enum Reply {
    Value(Record),
    Error(String),
}

/// A reply as a value.
pub enum ReplyView {
    Value(RecordView),
    Error(Text),
}

impl View for Reply {
    type V = ReplyView;

    open spec fn view(&self) -> ReplyView {
        match self {
            Reply::Value(record) => ReplyView::Value(record@),
            Reply::Error(name) => ReplyView::Error(name@),
        }
    }
}

/// The result that a handler's outcome stands for: what it returned, or `HandlerFailure`.
pub open spec fn spec_settle(outcome: HandlerOutcomeView) -> CommandResultView {
    match outcome {
        HandlerOutcomeView::Completed(record) => CommandResultView::Value(record),
        HandlerOutcomeView::Failed => CommandResultView::Error(ErrorKind::HandlerFailure),
    }
}

/// The reply in which a result travels.
pub open spec fn spec_encode(result: CommandResultView) -> ReplyView {
    match result {
        CommandResultView::Value(record) => ReplyView::Value(record),
        CommandResultView::Error(kind) => ReplyView::Error(kind.spec_name()),
    }
}

/// The result that a reply carries. A failure under a name that is no kind's does not have
/// the expected shape.
pub open spec fn spec_decode(reply: ReplyView) -> CommandResultView {
    match reply {
        ReplyView::Value(record) => CommandResultView::Value(record),
        ReplyView::Error(name) => match ErrorKind::spec_from_name(name) {
            Some(kind) => CommandResultView::Error(kind),
            None => CommandResultView::Error(ErrorKind::DeserializationFailure),
        },
    }
}

impl HandlerOutcome {
    /// Turns the outcome of a handler into the command's result. A handler's failure is
    /// reported as `HandlerFailure` and goes no further.
    pub fn settle(self) -> (result: CommandResult)
        ensures
            result@ == spec_settle(self@),
    {
        match self {
            HandlerOutcome::Completed(record) => CommandResult::Value(record),
            HandlerOutcome::Failed => CommandResult::Error(ErrorKind::HandlerFailure),
        }
    }
}

impl CommandResult {
    /// Puts the result in the shape in which it travels to the interface.
    pub fn encode(self) -> (reply: Reply)
        ensures
            reply@ == spec_encode(self@),
    {
        match self {
            CommandResult::Value(record) => Reply::Value(record),
            CommandResult::Error(kind) => Reply::Error(kind.name().to_owned()),
        }
    }

    /// Reads a result from a reply.
    pub fn decode(reply: Reply) -> (result: CommandResult)
        ensures
            result@ == spec_decode(reply@),
    {
        match reply {
            Reply::Value(record) => CommandResult::Value(record),
            Reply::Error(name) => match ErrorKind::from_name(name.as_str()) {
                Some(kind) => CommandResult::Error(kind),
                None => CommandResult::Error(ErrorKind::DeserializationFailure),
            },
        }
    }
}

/// A result that is encoded and then decoded is the result itself.
pub proof fn lemma_decode_encode(result: CommandResultView)
    ensures
        spec_decode(spec_encode(result)) == result,
{
    if let CommandResultView::Error(kind) = result {
        crate::error::lemma_name_round_trip(kind);
    }
}

} // verus!
