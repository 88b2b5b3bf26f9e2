//! The closed set of failure categories that the bridge reports.

use vstd::prelude::*;
use crate::text::{same_text, Text};

verus! {

/// A failure category. Every failure of the bridge is returned to the caller as one of these.
#[derive(Clone, Copy, Debug, PartialEq, Eq, Structural)]
pub enum ErrorKind {
    /// A required argument of a command is missing or empty.
    InvalidInput,
    /// No handler is registered under the command's name.
    NotFound,
    /// The arguments could not be put on the wire.
    SerializationFailure,
    /// The transport rejected the request, or the host could not be reached.
    CommunicationFailure,
    /// The response did not have the expected shape.
    DeserializationFailure,
    /// The handler of the command failed.
    HandlerFailure,
}

impl ErrorKind {
    /// The name under which the kind travels on the wire.
    pub open spec fn spec_name(self) -> Text {
        match self {
            ErrorKind::InvalidInput => "InvalidInput"@,
            ErrorKind::NotFound => "NotFound"@,
            ErrorKind::SerializationFailure => "SerializationFailure"@,
            ErrorKind::CommunicationFailure => "CommunicationFailure"@,
            ErrorKind::DeserializationFailure => "DeserializationFailure"@,
            ErrorKind::HandlerFailure => "HandlerFailure"@,
        }
    }

    /// The kind that travels under a name, if the name is one of the six.
    pub open spec fn spec_from_name(name: Text) -> Option<ErrorKind> {
        if name == "InvalidInput"@ {
            Some(ErrorKind::InvalidInput)
        } else if name == "NotFound"@ {
            Some(ErrorKind::NotFound)
        } else if name == "SerializationFailure"@ {
            Some(ErrorKind::SerializationFailure)
        } else if name == "CommunicationFailure"@ {
            Some(ErrorKind::CommunicationFailure)
        } else if name == "DeserializationFailure"@ {
            Some(ErrorKind::DeserializationFailure)
        } else if name == "HandlerFailure"@ {
            Some(ErrorKind::HandlerFailure)
        } else {
            None
        }
    }

    /// The text shown to the user when a login ends in this kind of failure.
    pub open spec fn spec_message(self) -> Text {
        match self {
            ErrorKind::InvalidInput => "Mail address and password are required"@,
            ErrorKind::NotFound => "Login is not available"@,
            ErrorKind::SerializationFailure => "Failed to serialize login request"@,
            ErrorKind::CommunicationFailure => "Failed to communicate with server"@,
            ErrorKind::DeserializationFailure => "Failed to deserialize login response"@,
            ErrorKind::HandlerFailure => "Login failed on the server"@,
        }
    }

    /// The name under which the kind travels on the wire.
    pub fn name(self) -> (name: &'static str)
        ensures
            name@ == self.spec_name(),
    {
        match self {
            ErrorKind::InvalidInput => "InvalidInput",
            ErrorKind::NotFound => "NotFound",
            ErrorKind::SerializationFailure => "SerializationFailure",
            ErrorKind::CommunicationFailure => "CommunicationFailure",
            ErrorKind::DeserializationFailure => "DeserializationFailure",
            ErrorKind::HandlerFailure => "HandlerFailure",
        }
    }

    /// Reads a kind from its wire name. Any other text names no kind.
    pub fn from_name(name: &str) -> (kind: Option<ErrorKind>)
        ensures
            kind == ErrorKind::spec_from_name(name@),
    {
        if same_text(name, "InvalidInput") {
            Some(ErrorKind::InvalidInput)
        } else if same_text(name, "NotFound") {
            Some(ErrorKind::NotFound)
        } else if same_text(name, "SerializationFailure") {
            Some(ErrorKind::SerializationFailure)
        } else if same_text(name, "CommunicationFailure") {
            Some(ErrorKind::CommunicationFailure)
        } else if same_text(name, "DeserializationFailure") {
            Some(ErrorKind::DeserializationFailure)
        } else if same_text(name, "HandlerFailure") {
            Some(ErrorKind::HandlerFailure)
        } else {
            None
        }
    }

    /// The text shown to the user when a login ends in this kind of failure.
    pub fn message(self) -> (message: &'static str)
        ensures
            message@ == self.spec_message(),
    {
        match self {
            ErrorKind::InvalidInput => "Mail address and password are required",
            ErrorKind::NotFound => "Login is not available",
            ErrorKind::SerializationFailure => "Failed to serialize login request",
            ErrorKind::CommunicationFailure => "Failed to communicate with server",
            ErrorKind::DeserializationFailure => "Failed to deserialize login response",
            ErrorKind::HandlerFailure => "Login failed on the server",
        }
    }
}

/// The six wire names are pairwise distinct: reading a kind's name gives the kind back, and a
/// text that reads as a kind is that kind's name.
pub proof fn lemma_name_round_trip(kind: ErrorKind)
    ensures
        ErrorKind::spec_from_name(kind.spec_name()) == Some(kind),
        forall|name: Text| ErrorKind::spec_from_name(name) == Some(kind) ==> name == kind.spec_name(),
{
    reveal_strlit("InvalidInput");
    reveal_strlit("NotFound");
    reveal_strlit("SerializationFailure");
    reveal_strlit("CommunicationFailure");
    reveal_strlit("DeserializationFailure");
    reveal_strlit("HandlerFailure");
    assert("InvalidInput"@.len() == 12);
    assert("NotFound"@.len() == 8);
    assert("SerializationFailure"@.len() == 20);
    assert("CommunicationFailure"@.len() == 20);
    assert("DeserializationFailure"@.len() == 22);
    assert("HandlerFailure"@.len() == 14);
    assert("SerializationFailure"@[0] != "CommunicationFailure"@[0]);
}

/// Every kind has a message for the user, and none of the messages is empty.
pub proof fn lemma_every_kind_has_a_message(kind: ErrorKind)
    ensures
        kind.spec_message().len() > 0,
{
    reveal_strlit("Mail address and password are required");
    reveal_strlit("Login is not available");
    reveal_strlit("Failed to serialize login request");
    reveal_strlit("Failed to communicate with server");
    reveal_strlit("Failed to deserialize login response");
    reveal_strlit("Login failed on the server");
}

} // verus!
