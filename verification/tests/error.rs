use yew_webview_bridge::{MessageAction, MessageError, MessageErrorType, MessageWaker};

fn described(action: MessageAction, error_type: MessageErrorType) -> String {
    MessageError::<()>::new(action, error_type).describe()
}

#[test]
fn a_closed_connection_is_described() {
    assert_eq!(
        described(MessageAction::Sending, MessageErrorType::ConnectionClosed),
        "Error while sending message. Connection is closing/closed."
    );
}

#[test]
fn a_failed_serialization_is_described() {
    assert_eq!(
        described(MessageAction::Sending, MessageErrorType::UnableToSerialize),
        "Error while sending message. Unable to serialize message."
    );
}

#[test]
fn a_failed_deserialization_is_described() {
    assert_eq!(
        described(MessageAction::Receiving, MessageErrorType::UnableToDeserialze),
        "Error while receiving message. Unable to deserialize message."
    );
}

#[test]
fn a_websocket_failure_is_described() {
    assert_eq!(
        described(MessageAction::Receiving, MessageErrorType::Websocket),
        "Error while receiving message. Error with the websocket connection."
    );
}

#[test]
fn a_new_error_has_nothing_behind_it() {
    let error: MessageError<u8> =
        MessageError::new(MessageAction::Sending, MessageErrorType::Websocket);
    assert_eq!(error.source(), None);
}

#[test]
fn the_source_is_kept_and_not_described() {
    let error = MessageError::new(MessageAction::Sending, MessageErrorType::Websocket)
        .with_source("refused".to_string());
    assert_eq!(error.source(), Some(&"refused".to_string()));
    assert_eq!(
        error.describe(),
        "Error while sending message. Error with the websocket connection."
    );
}

#[test]
fn the_last_source_counts() {
    let error = MessageError::new(MessageAction::Sending, MessageErrorType::Websocket)
        .with_source(1)
        .with_source(2);
    assert_eq!(error.source(), Some(&2));
}

#[test]
fn a_new_message_waker_is_empty() {
    let slot: MessageWaker<u8, ()> = MessageWaker::new();
    assert!(slot.waker.is_none());
    assert!(slot.message_result.is_none());
    let slot: MessageWaker<u8, ()> = MessageWaker::default();
    assert!(slot.waker.is_none());
    assert!(slot.message_result.is_none());
}
