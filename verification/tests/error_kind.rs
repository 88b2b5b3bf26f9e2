use ui_bridge::error::ErrorKind;

const KINDS: [ErrorKind; 6] = [
    ErrorKind::InvalidInput,
    ErrorKind::NotFound,
    ErrorKind::SerializationFailure,
    ErrorKind::CommunicationFailure,
    ErrorKind::DeserializationFailure,
    ErrorKind::HandlerFailure,
];

#[test]
fn wire_names_are_the_variant_names() {
    assert_eq!(ErrorKind::InvalidInput.name(), "InvalidInput");
    assert_eq!(ErrorKind::NotFound.name(), "NotFound");
    assert_eq!(ErrorKind::SerializationFailure.name(), "SerializationFailure");
    assert_eq!(ErrorKind::CommunicationFailure.name(), "CommunicationFailure");
    assert_eq!(ErrorKind::DeserializationFailure.name(), "DeserializationFailure");
    assert_eq!(ErrorKind::HandlerFailure.name(), "HandlerFailure");
}

#[test]
fn every_name_reads_back_as_its_kind() {
    for kind in KINDS {
        assert_eq!(ErrorKind::from_name(kind.name()), Some(kind));
    }
}

#[test]
fn names_are_pairwise_distinct() {
    for (i, a) in KINDS.iter().enumerate() {
        for (j, b) in KINDS.iter().enumerate() {
            assert_eq!(a.name() == b.name(), i == j);
        }
    }
}

#[test]
fn other_texts_name_no_kind() {
    assert_eq!(ErrorKind::from_name(""), None);
    assert_eq!(ErrorKind::from_name("notfound"), None);
    assert_eq!(ErrorKind::from_name("NotFound "), None);
    assert_eq!(ErrorKind::from_name("Timeout"), None);
}

#[test]
fn messages_are_the_fixed_texts() {
    assert_eq!(ErrorKind::InvalidInput.message(), "Mail address and password are required");
    assert_eq!(ErrorKind::NotFound.message(), "Login is not available");
    assert_eq!(ErrorKind::SerializationFailure.message(), "Failed to serialize login request");
    assert_eq!(ErrorKind::CommunicationFailure.message(), "Failed to communicate with server");
    assert_eq!(
        ErrorKind::DeserializationFailure.message(),
        "Failed to deserialize login response"
    );
    assert_eq!(ErrorKind::HandlerFailure.message(), "Login failed on the server");
}

#[test]
fn every_kind_has_a_message_of_its_own() {
    for (i, a) in KINDS.iter().enumerate() {
        assert!(!a.message().is_empty());
        for (j, b) in KINDS.iter().enumerate() {
            assert_eq!(a.message() == b.message(), i == j);
        }
    }
}
