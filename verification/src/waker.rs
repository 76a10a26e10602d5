//! What a waiting task leaves behind, and what is left for it to find.

use crate::error::MessageError;
use std::sync::Arc;
use std::task::Waker;
use vstd::prelude::*;

verus! {

/// The handle by which a task is woken, `std::task::Waker`. It is carried
/// through and never looked into; waking is up to whoever receives it.
#[verifier::external_type_specification]
#[verifier::external_body]
pub struct ExWaker(Waker);

/// The waker and the message data for a given message id. When the message is
/// set to `Some`, the future waiting for it will poll `Ready`.
pub struct WakerMessage<RECV> {
    pub waker: Option<Waker>,
    pub message: Option<Arc<RECV>>,
}

/// A [`WakerMessage`] with the message itself in place of its shared handle.
pub struct Waiting<RECV> {
    pub waker: Option<Waker>,
    pub message: Option<RECV>,
}

impl<RECV> Waiting<RECV> {
    /// Nobody has polled yet and nothing has arrived.
    pub open spec fn fresh() -> Self {
        Waiting { waker: None, message: None }
    }

    /// After a poll by the task behind `waker`: a task that finds nothing
    /// takes the place of the one that waited before, and a poll that finds
    /// the message changes nothing.
    pub open spec fn polled(self, waker: Waker) -> Self {
        match self.message {
            Some(_) => self,
            None => Waiting { waker: Some(waker), message: None },
        }
    }

    /// After the arrival of `message`.
    pub open spec fn resolved(self, message: RECV) -> Self {
        Waiting { waker: self.waker, message: Some(message) }
    }
}

/// The message behind a shared handle.
pub open spec fn shared_message<RECV>(message: Option<Arc<RECV>>) -> Option<RECV> {
    match message {
        Some(shared) => Some(*shared),
        None => None,
    }
}

/// The waker behind a reference.
pub open spec fn waker_of(waker: Option<&Waker>) -> Option<Waker> {
    match waker {
        Some(waker) => Some(*waker),
        None => None,
    }
}

impl<RECV> View for WakerMessage<RECV> {
    type V = Waiting<RECV>;

    open spec fn view(&self) -> Waiting<RECV> {
        Waiting { waker: self.waker, message: shared_message(self.message) }
    }
}

impl<RECV> Default for WakerMessage<RECV> {
    fn default() -> (slot: Self)
        ensures
            slot@ == Waiting::<RECV>::fresh(),
    {
        WakerMessage { waker: None, message: None }
    }
}

impl<RECV> WakerMessage<RECV> {
    /// Looks for the message on behalf of the task behind `waker`. Where there
    /// is none, `waker` is kept, in place of the one kept before.
    pub fn poll(&mut self, waker: Waker) -> (ready: Option<Arc<RECV>>)
        ensures
            shared_message(ready) == old(self)@.message,
            final(self)@ == old(self)@.polled(waker),
    {
        match &self.message {
            Some(message) => Some(message.clone()),
            None => {
                self.waker = Some(waker);
                None
            },
        }
    }

    /// Sets the message, and hands out the waker of the task to wake, if any
    /// waits.
    pub fn resolve(&mut self, message: RECV) -> (woken: Option<&Waker>)
        ensures
            final(self)@ == old(self)@.resolved(message),
            waker_of(woken) == old(self)@.waker,
    {
        self.message = Some(Arc::new(message));
        self.waker.as_ref()
    }
}

/// The waker and the outcome for a given message id, where a failure to send
/// or to receive is an outcome too. When the outcome is set to `Some`, the
/// future waiting for it will poll `Ready`.
pub struct MessageWaker<RECV, S> {
    pub waker: Option<Waker>,
    pub message_result: Option<Arc<Result<RECV, MessageError<S>>>>,
}

impl<RECV, S> MessageWaker<RECV, S> {
    /// Nobody waits and nothing has arrived.
    pub fn new() -> (slot: Self)
        ensures
            slot.waker is None,
            slot.message_result is None,
    {
        MessageWaker { waker: None, message_result: None }
    }
}

impl<RECV, S> Default for MessageWaker<RECV, S> {
    fn default() -> (slot: Self)
        ensures
            slot.waker is None,
            slot.message_result is None,
    {
        Self::new()
    }
}

} // verus!
