//! The interface's side of a command: validate, hand to the transport, classify what came back.

use vstd::prelude::*;
use crate::command::{
    lemma_decode_encode, spec_decode, spec_encode, Command, CommandResult, CommandResultView,
    CommandView, Reply, ReplyView,
};
use crate::error::{lemma_name_round_trip, ErrorKind};
use crate::record::{spec_get, RecordView};
use crate::text::{same_text, Text};

verus! {

/// A field that a command's arguments must hold, with a text that is not empty.
#[derive(Debug, PartialEq, Eq)]
pub struct Requirement {
    pub command: String,
    pub field: String,
}

impl View for Requirement {
    type V = (Text, Text);

    open spec fn view(&self) -> (Text, Text) {
        (self.command@, self.field@)
    }
}

/// What came of handing a command to the transport.
#[derive(Debug, PartialEq, Eq)]
pub enum TransportOutcome {
    /// The arguments could not be serialized; nothing was sent.
    Unserializable,
    /// The transport rejected the request, or the host could not be reached.
    Rejected,
    /// A response came, and could not be read as a reply.
    Unreadable,
    /// The host replied.
    Replied(Reply),
}

/// A transport's outcome as a value.
pub enum TransportOutcomeView {
    Unserializable,
    Rejected,
    Unreadable,
    Replied(ReplyView),
}

impl View for TransportOutcome {
    type V = TransportOutcomeView;

    open spec fn view(&self) -> TransportOutcomeView {
        match self {
            TransportOutcome::Unserializable => TransportOutcomeView::Unserializable,
            TransportOutcome::Rejected => TransportOutcomeView::Rejected,
            TransportOutcome::Unreadable => TransportOutcomeView::Unreadable,
            TransportOutcome::Replied(reply) => TransportOutcomeView::Replied(reply@),
        }
    }
}

/// What the caller of [`InvokeClient::begin`] has to do next.
#[derive(Debug, PartialEq, Eq)]
pub enum InvokeStep {
    /// The call is over; the transport is not to be used.
    Finished(CommandResult),
    /// Hand the command to the transport, and the outcome to [`InvokeClient::complete`].
    Transmit(Command),
}

/// A step as a value.
pub enum InvokeStepView {
    Finished(CommandResultView),
    Transmit(CommandView),
}

impl View for InvokeStep {
    type V = InvokeStepView;

    open spec fn view(&self) -> InvokeStepView {
        match self {
            InvokeStep::Finished(result) => InvokeStepView::Finished(result@),
            InvokeStep::Transmit(command) => InvokeStepView::Transmit(command@),
        }
    }
}

/// Whether a record holds a text that is not empty under a name.
pub open spec fn spec_filled(args: RecordView, field: Text) -> bool {
    match spec_get(args, field) {
        Some(value) => value.len() > 0,
        None => false,
    }
}

/// Whether a command's arguments hold every field that the rules require of its name.
pub open spec fn spec_accepts(rules: Seq<(Text, Text)>, command: CommandView) -> bool {
    forall|i: int|
        0 <= i < rules.len() && (#[trigger] rules[i]).0 == command.name ==> spec_filled(
            command.args,
            rules[i].1,
        )
}

/// The first step of a call: straight to `InvalidInput` where a required field is missing or
/// empty, to the transport otherwise.
pub open spec fn spec_begin(rules: Seq<(Text, Text)>, command: CommandView) -> InvokeStepView {
    if spec_accepts(rules, command) {
        InvokeStepView::Transmit(command)
    } else {
        InvokeStepView::Finished(CommandResultView::Error(ErrorKind::InvalidInput))
    }
}

/// The result of a call whose command went to the transport.
pub open spec fn spec_complete(outcome: TransportOutcomeView) -> CommandResultView {
    match outcome {
        TransportOutcomeView::Unserializable => CommandResultView::Error(
            ErrorKind::SerializationFailure,
        ),
        TransportOutcomeView::Rejected => CommandResultView::Error(
            ErrorKind::CommunicationFailure,
        ),
        TransportOutcomeView::Unreadable => CommandResultView::Error(
            ErrorKind::DeserializationFailure,
        ),
        TransportOutcomeView::Replied(reply) => spec_decode(reply),
    }
}

/// The rules of the login command: a mail address and a password.
pub open spec fn spec_login_rules() -> Seq<(Text, Text)> {
    seq![("login"@, "mail"@), ("login"@, "pass"@)]
}

/// Issues commands to the host, one call at a time, and classifies every way in which a call
/// can fail. It never retries.
#[derive(Debug, PartialEq, Eq)]
pub struct InvokeClient {
    pub rules: Vec<Requirement>,
}

impl View for InvokeClient {
    type V = Seq<(Text, Text)>;

    open spec fn view(&self) -> Seq<(Text, Text)> {
        self.rules@.map_values(|r: Requirement| r@)
    }
}

impl InvokeClient {
    /// A client that requires nothing of any command.
    pub fn new() -> (client: InvokeClient)
        ensures
            client@ == Seq::<(Text, Text)>::empty(),
    {
        InvokeClient { rules: Vec::new() }
    }

    /// The client with one more rule: the command of this name needs this field.
    pub fn require(self, command: &str, field: &str) -> (client: InvokeClient)
        ensures
            client@ == self@.push((command@, field@)),
    {
        let mut rules = self.rules;
        rules.push(Requirement { command: command.to_owned(), field: field.to_owned() });
        InvokeClient { rules }
    }

    /// The client of the login form: `login` needs `mail` and `pass`.
    pub fn standard() -> (client: InvokeClient)
        ensures
            client@ == spec_login_rules(),
    {
        InvokeClient::new().require("login", "mail").require("login", "pass")
    }

    /// Whether the command's arguments hold every field required of its name.
    pub fn accepts(&self, command: &Command) -> (ok: bool)
        ensures
            ok == spec_accepts(self@, command@),
    {
        let mut i: usize = 0;
        while i < self.rules.len()
            invariant
                i <= self.rules.len(),
                forall|j: int|
                    0 <= j < i && (#[trigger] self@[j]).0 == command@.name ==> spec_filled(
                        command@.args,
                        self@[j].1,
                    ),
            decreases self.rules.len() - i,
        {
            let rule = &self.rules[i];
            assert(self@[i as int] == rule@);
            if same_text(rule.command.as_str(), command.name.as_str()) {
                let filled = match command.args.get(rule.field.as_str()) {
                    Some(value) => !value.as_str().is_empty(),
                    None => false,
                };
                if !filled {
                    return false;
                }
            }
            i += 1;
        }
        true
    }

    /// Starts a call. The arguments are validated before anything else: where a required
    /// field is missing or empty the call is over, with `InvalidInput`, and the transport is
    /// not used.
    pub fn begin(&self, command: Command) -> (step: InvokeStep)
        ensures
            step@ == spec_begin(self@, command@),
            step matches InvokeStep::Transmit(sent) ==> sent == command,
    {
        if self.accepts(&command) {
            InvokeStep::Transmit(command)
        } else {
            InvokeStep::Finished(CommandResult::Error(ErrorKind::InvalidInput))
        }
    }

    /// Ends a call whose command went to the transport: one result for each outcome.
    pub fn complete(outcome: TransportOutcome) -> (result: CommandResult)
        ensures
            result@ == spec_complete(outcome@),
    {
        match outcome {
            TransportOutcome::Unserializable => CommandResult::Error(
                ErrorKind::SerializationFailure,
            ),
            TransportOutcome::Rejected => CommandResult::Error(ErrorKind::CommunicationFailure),
            TransportOutcome::Unreadable => CommandResult::Error(
                ErrorKind::DeserializationFailure,
            ),
            TransportOutcome::Replied(reply) => CommandResult::decode(reply),
        }
    }

    /// A whole call over a transport that answers at once. The transport is called at most
    /// once, and not at all where the arguments are invalid.
    pub fn invoke<T: FnOnce(Command) -> TransportOutcome>(
        &self,
        command: Command,
        transport: T,
    ) -> (result: CommandResult)
        requires
            spec_accepts(self@, command@) ==> call_requires(transport, (command,)),
        ensures
            !spec_accepts(self@, command@) ==> result@ == CommandResultView::Error(
                ErrorKind::InvalidInput,
            ),
            spec_accepts(self@, command@) ==> exists|outcome: TransportOutcome|
                call_ensures(transport, (command,), outcome) && result@ == spec_complete(
                    outcome@,
                ),
    {
        match self.begin(command) {
            InvokeStep::Finished(result) => result,
            InvokeStep::Transmit(command) => {
                let outcome = transport(command);
                InvokeClient::complete(outcome)
            },
        }
    }
}

/// A result travels intact: what the host encoded is what the call ends with, be it a value
/// or a failure of any kind.
pub proof fn lemma_result_travels_intact(result: CommandResultView)
    ensures
        spec_complete(TransportOutcomeView::Replied(spec_encode(result))) == result,
{
    lemma_decode_encode(result);
}

/// Every call ends in one result, and every failure of the transport in its own kind: a call
/// ends in `SerializationFailure`, `CommunicationFailure` or, without a reply,
/// `DeserializationFailure` exactly where the transport's outcome is the one of that name.
pub proof fn lemma_transport_failures_are_told_apart(outcome: TransportOutcomeView)
    ensures
        spec_complete(outcome) == CommandResultView::Error(ErrorKind::SerializationFailure)
            <==> outcome is Unserializable || outcome == TransportOutcomeView::Replied(
            ReplyView::Error(ErrorKind::SerializationFailure.spec_name()),
        ),
        spec_complete(outcome) == CommandResultView::Error(ErrorKind::CommunicationFailure)
            <==> outcome is Rejected || outcome == TransportOutcomeView::Replied(
            ReplyView::Error(ErrorKind::CommunicationFailure.spec_name()),
        ),
        outcome is Unreadable ==> spec_complete(outcome) == CommandResultView::Error(
            ErrorKind::DeserializationFailure,
        ),
{
    lemma_name_round_trip(ErrorKind::SerializationFailure);
    lemma_name_round_trip(ErrorKind::CommunicationFailure);
}

} // verus!
