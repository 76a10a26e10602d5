//! What can go wrong with a message, and how it is put into words.

use vstd::prelude::*;
use vstd::string::*;

verus! {

/// What was being done with the message.
#[derive(Clone, Copy, Debug, PartialEq, Eq, Structural)]
pub enum MessageAction {
    Sending,
    Receiving,
}

/// What went wrong with it.
#[derive(Clone, Copy, Debug, PartialEq, Eq, Structural)]
pub enum MessageErrorType {
    ConnectionClosed,
    UnableToSerialize,
    UnableToDeserialze,
    Websocket,
}

/// A failure to send or to receive a message. `S` is the type of the error
/// that may stand behind it.
#[derive(Debug)]
pub struct MessageError<S> {
    error_type: MessageErrorType,
    action: MessageAction,
    source: Option<S>,
}

impl MessageAction {
    /// The first sentence of an error's description.
    pub open spec fn text(self) -> Seq<char> {
        match self {
            MessageAction::Sending => "Error while sending message."@,
            MessageAction::Receiving => "Error while receiving message."@,
        }
    }
}

impl MessageErrorType {
    /// The second sentence of an error's description.
    pub open spec fn text(self) -> Seq<char> {
        match self {
            MessageErrorType::ConnectionClosed => " Connection is closing/closed."@,
            MessageErrorType::UnableToSerialize => " Unable to serialize message."@,
            MessageErrorType::UnableToDeserialze => " Unable to deserialize message."@,
            MessageErrorType::Websocket => " Error with the websocket connection."@,
        }
    }
}

impl<S> MessageError<S> {
    /// What went wrong.
    pub closed spec fn spec_error_type(self) -> MessageErrorType {
        self.error_type
    }

    /// What was being done.
    pub closed spec fn spec_action(self) -> MessageAction {
        self.action
    }

    /// The error behind this one.
    pub closed spec fn spec_source(self) -> Option<S> {
        self.source
    }

    /// An error with nothing behind it.
    pub fn new(action: MessageAction, error_type: MessageErrorType) -> (error: Self)
        ensures
            error.spec_action() == action,
            error.spec_error_type() == error_type,
            error.spec_source() is None,
    {
        MessageError { error_type, action, source: None }
    }

    /// The same error with `source` behind it.
    pub fn with_source(self, source: S) -> (error: Self)
        ensures
            error.spec_action() == self.spec_action(),
            error.spec_error_type() == self.spec_error_type(),
            error.spec_source() == Some(source),
    {
        MessageError { error_type: self.error_type, action: self.action, source: Some(source) }
    }

    /// The error behind this one, if there is one.
    pub fn source(&self) -> (source: Option<&S>)
        ensures
            source is Some <==> self.spec_source() is Some,
            source matches Some(source) ==> self.spec_source() == Some(*source),
    {
        self.source.as_ref()
    }

    /// The error in words: what was being done, then what went wrong. The
    /// error behind it is not part of the text.
    pub fn describe(&self) -> (text: String)
        ensures
            text@ == self.spec_action().text() + self.spec_error_type().text(),
    {
        let mut text = match self.action {
            MessageAction::Sending => "Error while sending message.".to_owned(),
            MessageAction::Receiving => "Error while receiving message.".to_owned(),
        };
        match self.error_type {
            MessageErrorType::ConnectionClosed => text.append(" Connection is closing/closed."),
            MessageErrorType::UnableToSerialize => text.append(" Unable to serialize message."),
            MessageErrorType::UnableToDeserialze => text.append(" Unable to deserialize message."),
            MessageErrorType::Websocket => text.append(" Error with the websocket connection."),
        }
        text
    }
}

} // verus!
