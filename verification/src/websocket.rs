//! The backend's side of a websocket: what a server does with a connection,
//! and with each thing that it reads from one.
//!
//! The steps that touch the world (reading, decoding, calling the handler,
//! writing) are done outside. What each of them gave is an event, and what is
//! to be done next is an action.

use crate::backend::{reply, reply_for};
use crate::message::{Address, Message};
use vstd::prelude::*;

verus! {

/// What was read from a websocket, as far as the server looks at it.
#[derive(Debug)]
pub enum Frame {
    Text(String),
    Binary,
    Ping,
    Pong,
    Close,
}

/// How far the server is with one thing that it has read.
#[derive(Clone, Copy, Debug)]
pub enum Exchange {
    /// Nothing has been read yet.
    Arriving,
    /// A text is being decoded.
    Decoding,
    /// The handler has the message that came from this address.
    Handling(Address),
    /// The reply is being encoded.
    Encoding,
    /// The reply is being written.
    Writing,
    /// There is nothing more to do.
    Done,
}

/// The outcome of a step of an exchange. What failed has been reported by
/// whoever tried it, and counts as `None` here. `R` is the payload of replies.
#[derive(Debug)]
pub enum ExchangeEvent<RECV, R> {
    /// A frame was read, or reading failed.
    Arrived(Option<Frame>),
    /// The text was decoded, or decoding failed.
    Decoded(Option<Message<RECV>>),
    /// The handler has returned, with or without a payload for a reply,
    /// whether it was called or awaited.
    Handled(Option<R>),
    /// The reply was encoded, or encoding failed.
    Encoded(Option<String>),
    /// The reply was written, or writing failed.
    Written,
}

/// The next step of an exchange.
#[derive(Debug)]
pub enum ExchangeAction<RECV, R> {
    /// Decode a text.
    Decode(String),
    /// Call the handler.
    Handle(RECV),
    /// Encode a reply.
    Encode(Message<R>),
    /// Write an encoded reply.
    Write(String),
    /// Leave it at that.
    Finish,
}

impl Exchange {
    /// Whether `event` is the outcome of the step that the exchange is at.
    pub open spec fn expects<RECV, R>(self, event: ExchangeEvent<RECV, R>) -> bool {
        match self {
            Exchange::Arriving => event is Arrived,
            Exchange::Decoding => event is Decoded,
            Exchange::Handling(_) => event is Handled,
            Exchange::Encoding => event is Encoded,
            Exchange::Writing => event is Written,
            Exchange::Done => false,
        }
    }

    /// What is to be done after `event`. An exchange goes on where the last
    /// step gave something to go on with.
    pub open spec fn action<RECV, R>(self, event: ExchangeEvent<RECV, R>) -> ExchangeAction<
        RECV,
        R,
    > {
        match (self, event) {
            (_, ExchangeEvent::Arrived(Some(Frame::Text(text)))) => ExchangeAction::Decode(text),
            (_, ExchangeEvent::Decoded(Some(message))) => ExchangeAction::Handle(message.inner),
            (
                Exchange::Handling(address),
                ExchangeEvent::Handled(output),
            ) => match reply_for(address, output) {
                Some(reply) => ExchangeAction::Encode(reply),
                None => ExchangeAction::Finish,
            },
            (_, ExchangeEvent::Encoded(Some(text))) => ExchangeAction::Write(text),
            _ => ExchangeAction::Finish,
        }
    }

    /// Where the exchange is after `event`: at the step that it is to do next.
    pub open spec fn next<RECV, R>(self, event: ExchangeEvent<RECV, R>) -> Exchange {
        match self.action(event) {
            ExchangeAction::Decode(_) => Exchange::Decoding,
            ExchangeAction::Handle(_) => Exchange::Handling(event->Decoded_0->0.address()),
            ExchangeAction::Encode(_) => Exchange::Encoding,
            ExchangeAction::Write(_) => Exchange::Writing,
            ExchangeAction::Finish => Exchange::Done,
        }
    }

    /// Whether `event` is the outcome of the step that the exchange is at.
    pub fn accepts<RECV, R>(&self, event: &ExchangeEvent<RECV, R>) -> (accepted: bool)
        ensures
            accepted == self.expects(*event),
    {
        match (self, event) {
            (Exchange::Arriving, ExchangeEvent::Arrived(_)) => true,
            (Exchange::Decoding, ExchangeEvent::Decoded(_)) => true,
            (Exchange::Handling(_), ExchangeEvent::Handled(_)) => true,
            (Exchange::Encoding, ExchangeEvent::Encoded(_)) => true,
            (Exchange::Writing, ExchangeEvent::Written) => true,
            _ => false,
        }
    }

    /// Takes the exchange one step further.
    pub fn step<RECV, R>(self, event: ExchangeEvent<RECV, R>) -> (progress: (
        Exchange,
        ExchangeAction<RECV, R>,
    ))
        requires
            self.expects(event),
        ensures
            progress.0 == self.next(event),
            progress.1 == self.action(event),
    {
        match (self, event) {
            (_, ExchangeEvent::Arrived(Some(Frame::Text(text)))) => (
                Exchange::Decoding,
                ExchangeAction::Decode(text),
            ),
            (_, ExchangeEvent::Decoded(Some(message))) => {
                let (address, inner) = message.into_parts();
                (Exchange::Handling(address), ExchangeAction::Handle(inner))
            },
            (Exchange::Handling(address), ExchangeEvent::Handled(output)) => {
                match reply(address, output) {
                    Some(reply) => (Exchange::Encoding, ExchangeAction::Encode(reply)),
                    None => (Exchange::Done, ExchangeAction::Finish),
                }
            },
            (_, ExchangeEvent::Encoded(Some(text))) => (
                Exchange::Writing,
                ExchangeAction::Write(text),
            ),
            _ => (Exchange::Done, ExchangeAction::Finish),
        }
    }
}

/// How far the server is with a connection, on which it handles one thing
/// after another.
#[derive(Clone, Copy, Debug)]
pub enum Connection {
    /// The connection is being accepted.
    Accepting,
    /// The websocket handshake is under way.
    Handshaking,
    /// An exchange is under way.
    Exchanging(Exchange),
    /// The server is done with the connection.
    Closed,
}

/// The outcome of a step on a connection.
#[derive(Debug)]
pub enum ConnectionEvent<RECV, R> {
    /// Whether the connection was accepted.
    Accepted(bool),
    /// Whether the handshake succeeded.
    HandshakeDone(bool),
    /// The outcome of a step of the exchange.
    Exchange(ExchangeEvent<RECV, R>),
}

/// The next step on a connection.
#[derive(Debug)]
pub enum ConnectionAction<RECV, R> {
    /// Do the websocket handshake.
    Handshake,
    /// Read the next frame.
    Read,
    /// Go on with the exchange.
    Exchange(ExchangeAction<RECV, R>),
    /// Leave the connection.
    Stop,
}

impl Connection {
    /// The connection before anything has happened on it.
    pub fn new() -> (connection: Connection)
        ensures
            connection == Connection::Accepting,
    {
        Connection::Accepting
    }

    /// Whether `event` is the outcome of the step that the connection is at.
    pub open spec fn expects<RECV, R>(self, event: ConnectionEvent<RECV, R>) -> bool {
        match self {
            Connection::Accepting => event is Accepted,
            Connection::Handshaking => event is HandshakeDone,
            Connection::Exchanging(exchange) => event matches ConnectionEvent::Exchange(event)
                && exchange.expects(event),
            Connection::Closed => false,
        }
    }

    /// What is to be done after `event`. The server leaves a connection that
    /// could not be established or that the other side closes. Otherwise it
    /// reads on whenever an exchange is done, however that went.
    pub open spec fn action<RECV, R>(self, event: ConnectionEvent<RECV, R>) -> ConnectionAction<
        RECV,
        R,
    > {
        match event {
            ConnectionEvent::Accepted(true) => ConnectionAction::Handshake,
            ConnectionEvent::HandshakeDone(true) => ConnectionAction::Read,
            ConnectionEvent::Accepted(false)
            | ConnectionEvent::HandshakeDone(false)
            | ConnectionEvent::Exchange(
                ExchangeEvent::Arrived(Some(Frame::Close)),
            ) => ConnectionAction::Stop,
            ConnectionEvent::Exchange(event) => match self->Exchanging_0.action(event) {
                ExchangeAction::Finish => ConnectionAction::Read,
                action => ConnectionAction::Exchange(action),
            },
        }
    }

    /// Where the connection is after `event`: at the step that the server is
    /// to do next.
    pub open spec fn next<RECV, R>(self, event: ConnectionEvent<RECV, R>) -> Connection {
        match self.action(event) {
            ConnectionAction::Handshake => Connection::Handshaking,
            ConnectionAction::Read => Connection::Exchanging(Exchange::Arriving),
            ConnectionAction::Exchange(_) => Connection::Exchanging(
                self->Exchanging_0.next(event->Exchange_0),
            ),
            ConnectionAction::Stop => Connection::Closed,
        }
    }

    /// Whether `event` is the outcome of the step that the connection is at.
    pub fn accepts<RECV, R>(&self, event: &ConnectionEvent<RECV, R>) -> (accepted: bool)
        ensures
            accepted == self.expects(*event),
    {
        match (self, event) {
            (Connection::Accepting, ConnectionEvent::Accepted(_)) => true,
            (Connection::Handshaking, ConnectionEvent::HandshakeDone(_)) => true,
            (Connection::Exchanging(exchange), ConnectionEvent::Exchange(event)) => {
                exchange.accepts(event)
            },
            _ => false,
        }
    }

    /// Takes the connection one step further.
    pub fn step<RECV, R>(self, event: ConnectionEvent<RECV, R>) -> (progress: (
        Connection,
        ConnectionAction<RECV, R>,
    ))
        requires
            self.expects(event),
        ensures
            progress.0 == self.next(event),
            progress.1 == self.action(event),
    {
        match event {
            ConnectionEvent::Accepted(accepted) => {
                if accepted {
                    (Connection::Handshaking, ConnectionAction::Handshake)
                } else {
                    (Connection::Closed, ConnectionAction::Stop)
                }
            },
            ConnectionEvent::HandshakeDone(succeeded) => {
                if succeeded {
                    (Connection::Exchanging(Exchange::Arriving), ConnectionAction::Read)
                } else {
                    (Connection::Closed, ConnectionAction::Stop)
                }
            },
            ConnectionEvent::Exchange(ExchangeEvent::Arrived(Some(Frame::Close))) => (
                Connection::Closed,
                ConnectionAction::Stop,
            ),
            ConnectionEvent::Exchange(event) => {
                let exchange = match self {
                    Connection::Exchanging(exchange) => exchange,
                    _ => Exchange::Arriving,
                };
                let (next, action) = exchange.step(event);
                match action {
                    ExchangeAction::Finish => (
                        Connection::Exchanging(Exchange::Arriving),
                        ConnectionAction::Read,
                    ),
                    action => (Connection::Exchanging(next), ConnectionAction::Exchange(action)),
                }
            },
        }
    }
}

} // verus!
