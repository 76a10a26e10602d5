//! The frontend's side: a service that sends messages to the backend which
//! hosts the frontend, and hands out futures for the replies.
//!
//! There are two ways to the backend. Inside a `web-view`, a message goes to
//! the host by a call and its reply comes as an event of the document.
//! Elsewhere both go over a websocket, which may still be connecting when the
//! first messages are sent.

use crate::futures::{woken_task, MessageFuturesMap, MessageFuturesView, Woken};
use crate::message::{Address, Message};
use std::marker::PhantomData;
use vstd::prelude::*;
use vstd::string::*;

verus! {

/// The type of the document event by which a `web-view` host delivers replies.
pub const LISTENER_TYPE: &'static str = "yew-webview-bridge-response";

/// The address of the websocket server that listens at `bridge_address`.
pub fn websocket_address(bridge_address: &str) -> (address: String)
    ensures
        address@ == "ws://"@ + bridge_address@,
{
    let mut address = "ws://".to_owned();
    address.append(bridge_address);
    address
}

/// The state of the way to the backend.
#[derive(Clone, Copy, Debug, PartialEq, Eq, Structural)]
pub enum ReadyState {
    Connecting,
    Open,
    Closing,
    Closed,
}

impl ReadyState {
    /// The number by which a browser reports the state of a websocket.
    pub open spec fn code(self) -> u16 {
        match self {
            ReadyState::Connecting => 0,
            ReadyState::Open => 1,
            ReadyState::Closing => 2,
            ReadyState::Closed => 3,
        }
    }

    /// The state that a browser reports as `code`, if there is such a state.
    pub fn from_code(code: u16) -> (state: Option<ReadyState>)
        ensures
            state matches Some(state) ==> state.code() == code,
            state is None <==> code > 3,
            state == Some(ReadyState::Connecting) <==> code == 0,
            state == Some(ReadyState::Open) <==> code == 1,
            state == Some(ReadyState::Closing) <==> code == 2,
            state == Some(ReadyState::Closed) <==> code == 3,
    {
        match code {
            0 => Some(ReadyState::Connecting),
            1 => Some(ReadyState::Open),
            2 => Some(ReadyState::Closing),
            3 => Some(ReadyState::Closed),
            _ => None,
        }
    }
}

/// What is to be done with a message that was sent.
#[derive(Debug)]
pub enum Outgoing<SND> {
    /// Serialize it and hand it to the transport.
    Transmit(Message<SND>),
    /// Nothing: it is queued until the connection is open.
    Queued,
    /// Nothing: the connection is closing or closed, and the message is lost.
    Rejected,
}

/// The outcome of sending a message.
#[derive(Debug)]
pub struct Sent<SND> {
    /// The slot of the future for the reply.
    pub future: u64,
    /// What is to be done with the message.
    pub outgoing: Outgoing<SND>,
}

/// The state of a message service.
#[verifier::ext_equal]
pub struct ServiceView<RECV, SND> {
    pub subscription_id: u32,
    pub futures: MessageFuturesView<RECV>,
    /// The messages that were sent before the connection was open.
    pub queued: Seq<Message<SND>>,
    /// The state of the connection. To a `web-view` host it is always open.
    pub link: ReadyState,
}

impl<RECV, SND> ServiceView<RECV, SND> {
    /// A service that has sent and received nothing.
    pub open spec fn initial(subscription_id: u32, link: ReadyState) -> Self {
        ServiceView {
            subscription_id,
            futures: MessageFuturesView::empty(),
            queued: Seq::empty(),
            link,
        }
    }

    /// The message with the payload `inner` under `message_id`, for this
    /// service.
    pub open spec fn message(self, message_id: u32, inner: SND) -> Message<SND> {
        Address { subscription_id: self.subscription_id, message_id }.message(inner)
    }

    /// After `message` was sent: a future is registered for its id, and it is
    /// queued if the connection is not open yet.
    pub open spec fn sent(self, message: Message<SND>) -> Self {
        ServiceView {
            subscription_id: self.subscription_id,
            futures: self.futures.opened(message.message_id),
            queued: if self.link == ReadyState::Connecting {
                self.queued.push(message)
            } else {
                self.queued
            },
            link: self.link,
        }
    }

    /// What is to be done with `message` when it is sent.
    pub open spec fn outgoing(self, message: Message<SND>) -> Outgoing<SND> {
        match self.link {
            ReadyState::Connecting => Outgoing::Queued,
            ReadyState::Open => Outgoing::Transmit(message),
            ReadyState::Closing | ReadyState::Closed => Outgoing::Rejected,
        }
    }

    /// The same service with other futures.
    pub open spec fn with_futures(self, futures: MessageFuturesView<RECV>) -> Self {
        ServiceView {
            subscription_id: self.subscription_id,
            futures,
            queued: self.queued,
            link: self.link,
        }
    }

    /// After `message` arrived.
    pub open spec fn received(self, message: Message<RECV>) -> Self {
        self.with_futures(self.futures.received(self.subscription_id, message))
    }

    /// The same service after the connection has reached the state `link`.
    pub open spec fn with_link(self, link: ReadyState) -> Self {
        ServiceView {
            subscription_id: self.subscription_id,
            futures: self.futures,
            queued: self.queued,
            link,
        }
    }
}

/// A service that sends messages of the type `SND` and waits for replies of
/// the type `RECV`.
pub trait MessageService<RECV, SND> {
    /// The state of the service.
    spec fn state(&self) -> ServiceView<RECV, SND>;

    /// Sends a message under a new message id, and registers a future for the
    /// reply.
    fn send_message(&mut self, message: SND) -> (sent: Sent<SND>)
        requires
            old(self).state().futures.wf(),
            old(self).state().futures.has_room(),
        ensures
            sent.future == old(self).state().futures.next_slot,
            exists|message_id: u32|
                {
                    let envelope = #[trigger] old(self).state().message(message_id, message);
                    &&& call_ensures(Message::<SND>::generate_message_id, (), message_id)
                    &&& final(self).state() == old(self).state().sent(envelope)
                    &&& sent.outgoing == old(self).state().outgoing(envelope)
                },
            final(self).state().futures.wf(),
    ;
}

/// The service of a frontend that runs inside a `web-view`.
pub struct WebviewClosureMessageService<RECV, SND> {
    subscription_id: u32,
    message_futures_map: MessageFuturesMap<RECV>,
    _receive_message_type: PhantomData<SND>,
}

impl<RECV, SND> WebviewClosureMessageService<RECV, SND> {
    /// A service under a new subscription id.
    pub fn new() -> (service: Self)
        ensures
            call_ensures(
                Message::<SND>::generate_subscription_id,
                (),
                service.state().subscription_id,
            ),
            service.state() == ServiceView::<RECV, SND>::initial(
                service.state().subscription_id,
                ReadyState::Open,
            ),
            service.state().futures.wf(),
    {
        Self::with_subscription_id(Message::<SND>::generate_subscription_id())
    }

    /// A service under the given subscription id.
    pub fn with_subscription_id(subscription_id: u32) -> (service: Self)
        ensures
            service.state() == ServiceView::<RECV, SND>::initial(
                subscription_id,
                ReadyState::Open,
            ),
            service.state().futures.wf(),
    {
        WebviewClosureMessageService {
            subscription_id,
            message_futures_map: MessageFuturesMap::default(),
            _receive_message_type: PhantomData,
        }
    }

    /// Sends `message`: its future is registered, and it goes out at once.
    pub fn send(&mut self, message: Message<SND>) -> (sent: Sent<SND>)
        requires
            old(self).state().futures.wf(),
            old(self).state().futures.has_room(),
        ensures
            sent.future == old(self).state().futures.next_slot,
            final(self).state() == old(self).state().sent(message),
            final(self).state().subscription_id == old(self).state().subscription_id,
            final(self).state().link == old(self).state().link,
            final(self).state().futures == old(self).state().futures.opened(message.message_id),
            final(self).state().queued == (if old(self).state().link == ReadyState::Connecting {
                old(self).state().queued.push(message)
            } else {
                old(self).state().queued
            }),
            sent.outgoing == old(self).state().outgoing(message),
            sent.outgoing == Outgoing::Transmit(message),
            final(self).state().futures.wf(),
    {
        let future: u64 = self.message_futures_map.open(message.message_id);
        Sent { future, outgoing: Outgoing::Transmit(message) }
    }

    /// Handles a message that came as an event of the document, and hands out
    /// the waker of the task to wake.
    pub fn receive(&mut self, message: Message<RECV>) -> (woken: Option<Woken<'_>>)
        requires
            old(self).state().futures.wf(),
        ensures
            final(self).state() == old(self).state().received(message),
            final(self).state().subscription_id == old(self).state().subscription_id,
            final(self).state().queued == old(self).state().queued,
            final(self).state().link == old(self).state().link,
            final(self).state().futures == old(self).state().futures.received(
                old(self).state().subscription_id,
                message,
            ),
            woken_task(woken) == old(self).state().futures.woken(
                old(self).state().subscription_id,
                message,
            ),
            final(self).state().futures.wf(),
    {
        self.message_futures_map.response_handler(self.subscription_id, message)
    }

    /// The futures of the service.
    pub fn futures_mut(&mut self) -> (futures: &mut MessageFuturesMap<RECV>)
        ensures
            futures@ == old(self).state().futures,
            final(self).state() == old(self).state().with_futures(final(futures)@),
            final(self).state().futures == final(futures)@,
            final(self).state().subscription_id == old(self).state().subscription_id,
            final(self).state().queued == old(self).state().queued,
            final(self).state().link == old(self).state().link,
    {
        &mut self.message_futures_map
    }
}

impl<RECV, SND> MessageService<RECV, SND> for WebviewClosureMessageService<RECV, SND> {
    closed spec fn state(&self) -> ServiceView<RECV, SND> {
        ServiceView {
            subscription_id: self.subscription_id,
            futures: self.message_futures_map@,
            queued: Seq::empty(),
            link: ReadyState::Open,
        }
    }

    fn send_message(&mut self, message: SND) -> (sent: Sent<SND>)
        ensures
            sent.outgoing is Transmit,
    {
        let envelope = Message::for_subscription_id(self.subscription_id, message);
        assert(envelope == self.state().message(envelope.message_id, message));
        self.send(envelope)
    }
}

/// What is to be done with the queued messages when the connection opens.
#[derive(Debug)]
pub enum QueueStep<'a, SND> {
    /// Nothing: the connection is not open yet.
    Wait,
    /// Serialize each message and hand it to the transport, in this order.
    Transmit(&'a Vec<Message<SND>>),
    /// Nothing: the connection is closing or closed, and the messages are
    /// lost.
    Rejected,
}

/// What the callbacks of a websocket service work on.
pub struct WebsocketSendMessageData<RECV, SND> {
    subscription_id: u32,
    message_futures_map: MessageFuturesMap<RECV>,
    queued: Vec<Message<SND>>,
    websocket: ReadyState,
}

impl<RECV, SND> WebsocketSendMessageData<RECV, SND> {
    /// The state of the service.
    pub closed spec fn state(&self) -> ServiceView<RECV, SND> {
        ServiceView {
            subscription_id: self.subscription_id,
            futures: self.message_futures_map@,
            queued: self.queued@,
            link: self.websocket,
        }
    }

    /// The data of a service under the given subscription id, whose websocket
    /// has just been created.
    pub fn with_subscription_id(subscription_id: u32) -> (data: Self)
        ensures
            data.state() == ServiceView::<RECV, SND>::initial(
                subscription_id,
                ReadyState::Connecting,
            ),
            data.state().futures.wf(),
    {
        WebsocketSendMessageData {
            subscription_id,
            message_futures_map: MessageFuturesMap::default(),
            queued: Vec::new(),
            websocket: ReadyState::Connecting,
        }
    }

    /// Takes note of the state that the websocket is in.
    pub fn set_ready_state(&mut self, ready_state: ReadyState)
        ensures
            final(self).state() == old(self).state().with_link(ready_state),
            final(self).state().link == ready_state,
            final(self).state().subscription_id == old(self).state().subscription_id,
            final(self).state().queued == old(self).state().queued,
            final(self).state().futures == old(self).state().futures,
    {
        self.websocket = ready_state;
    }

    /// Sends a message under a new message id, and registers a future for the
    /// reply.
    pub fn send_message(&mut self, message: SND) -> (sent: Sent<SND>)
        requires
            old(self).state().futures.wf(),
            old(self).state().futures.has_room(),
        ensures
            sent.future == old(self).state().futures.next_slot,
            exists|message_id: u32|
                {
                    let envelope = #[trigger] old(self).state().message(message_id, message);
                    &&& call_ensures(Message::<SND>::generate_message_id, (), message_id)
                    &&& final(self).state() == old(self).state().sent(envelope)
                    &&& sent.outgoing == old(self).state().outgoing(envelope)
                },
            final(self).state().futures.wf(),
    {
        let envelope = Message::for_subscription_id(self.subscription_id, message);
        assert(envelope == self.state().message(envelope.message_id, message));
        self.send(envelope)
    }

    /// Sends `message`: its future is registered, and the state of the
    /// websocket decides what becomes of the message.
    pub fn send(&mut self, message: Message<SND>) -> (sent: Sent<SND>)
        requires
            old(self).state().futures.wf(),
            old(self).state().futures.has_room(),
        ensures
            sent.future == old(self).state().futures.next_slot,
            final(self).state() == old(self).state().sent(message),
            final(self).state().subscription_id == old(self).state().subscription_id,
            final(self).state().link == old(self).state().link,
            final(self).state().futures == old(self).state().futures.opened(message.message_id),
            final(self).state().queued == (if old(self).state().link == ReadyState::Connecting {
                old(self).state().queued.push(message)
            } else {
                old(self).state().queued
            }),
            sent.outgoing == old(self).state().outgoing(message),
            final(self).state().futures.wf(),
    {
        let future: u64 = self.message_futures_map.open(message.message_id);
        let outgoing = match self.websocket {
            ReadyState::Connecting => {
                self.queued.push(message);
                Outgoing::Queued
            },
            ReadyState::Open => Outgoing::Transmit(message),
            ReadyState::Closing | ReadyState::Closed => Outgoing::Rejected,
        };
        Sent { future, outgoing }
    }

    /// The messages to transmit now that the websocket has opened. They stay
    /// in the queue.
    pub fn send_queue(&self) -> (step: QueueStep<'_, SND>)
        ensures
            step is Wait <==> self.state().link == ReadyState::Connecting,
            step is Transmit <==> self.state().link == ReadyState::Open,
            step matches QueueStep::Transmit(messages) ==> messages@ == self.state().queued,
    {
        match self.websocket {
            ReadyState::Connecting => QueueStep::Wait,
            ReadyState::Open => QueueStep::Transmit(&self.queued),
            ReadyState::Closing | ReadyState::Closed => QueueStep::Rejected,
        }
    }

    /// Handles a message that arrived over the websocket, and hands out the
    /// waker of the task to wake.
    pub fn receive(&mut self, message: Message<RECV>) -> (woken: Option<Woken<'_>>)
        requires
            old(self).state().futures.wf(),
        ensures
            final(self).state() == old(self).state().received(message),
            final(self).state().subscription_id == old(self).state().subscription_id,
            final(self).state().queued == old(self).state().queued,
            final(self).state().link == old(self).state().link,
            final(self).state().futures == old(self).state().futures.received(
                old(self).state().subscription_id,
                message,
            ),
            woken_task(woken) == old(self).state().futures.woken(
                old(self).state().subscription_id,
                message,
            ),
            final(self).state().futures.wf(),
    {
        self.message_futures_map.response_handler(self.subscription_id, message)
    }

    /// The futures of the service.
    pub fn futures_mut(&mut self) -> (futures: &mut MessageFuturesMap<RECV>)
        ensures
            futures@ == old(self).state().futures,
            final(self).state() == old(self).state().with_futures(final(futures)@),
            final(self).state().futures == final(futures)@,
            final(self).state().subscription_id == old(self).state().subscription_id,
            final(self).state().queued == old(self).state().queued,
            final(self).state().link == old(self).state().link,
    {
        &mut self.message_futures_map
    }
}

/// The service of a frontend that reaches its backend over a websocket.
pub struct WebsocketMessageService<RECV, SND> {
    pub callback_data: WebsocketSendMessageData<RECV, SND>,
}

impl<RECV, SND> WebsocketMessageService<RECV, SND> {
    /// A service under a new subscription id, whose websocket has just been
    /// created.
    pub fn new() -> (service: Self)
        ensures
            call_ensures(
                Message::<SND>::generate_subscription_id,
                (),
                service.state().subscription_id,
            ),
            service.state() == ServiceView::<RECV, SND>::initial(
                service.state().subscription_id,
                ReadyState::Connecting,
            ),
            service.state().futures.wf(),
    {
        let subscription_id: u32 = Message::<SND>::generate_subscription_id();
        WebsocketMessageService {
            callback_data: WebsocketSendMessageData::with_subscription_id(subscription_id),
        }
    }
}

impl<RECV, SND> MessageService<RECV, SND> for WebsocketMessageService<RECV, SND> {
    open spec fn state(&self) -> ServiceView<RECV, SND> {
        self.callback_data.state()
    }

    fn send_message(&mut self, message: SND) -> (sent: Sent<SND>) {
        self.callback_data.send_message(message)
    }
}

/// The two ways to the backend.
pub enum ServiceType<RECV, SND> {
    Webview(WebviewClosureMessageService<RECV, SND>),
    Websocket(WebsocketMessageService<RECV, SND>),
}

impl<RECV, SND> MessageService<RECV, SND> for ServiceType<RECV, SND> {
    open spec fn state(&self) -> ServiceView<RECV, SND> {
        match self {
            ServiceType::Webview(service) => service.state(),
            ServiceType::Websocket(service) => service.state(),
        }
    }

    fn send_message(&mut self, message: SND) -> (sent: Sent<SND>)
        ensures
            *final(self) is Webview <==> *old(self) is Webview,
            *old(self) is Webview ==> sent.outgoing is Transmit,
    {
        match self {
            ServiceType::Webview(service) => service.send_message(message),
            ServiceType::Websocket(service) => service.send_message(message),
        }
    }
}

/// This is a service that can be used within a component of the frontend to
/// communicate with the backend which is hosting the frontend.
///
/// + `<RECV>` is the type of message this service can receive.
/// + `<SND>` is the type of message that the backend can receive.
pub struct WebViewMessageService<RECV, SND> {
    pub service: ServiceType<RECV, SND>,
}

impl<RECV, SND> WebViewMessageService<RECV, SND> {
    /// The state of the service.
    pub open spec fn state(&self) -> ServiceView<RECV, SND> {
        self.service.state()
    }

    /// A service under a new subscription id. It uses the host's `web-view`
    /// if there is one, and a websocket otherwise.
    pub fn new(using_webview: bool) -> (service: Self)
        ensures
            service.service is Webview <==> using_webview,
            call_ensures(
                Message::<SND>::generate_subscription_id,
                (),
                service.state().subscription_id,
            ),
            service.state() == ServiceView::<RECV, SND>::initial(
                service.state().subscription_id,
                if using_webview {
                    ReadyState::Open
                } else {
                    ReadyState::Connecting
                },
            ),
            service.state().futures.wf(),
    {
        let service = if using_webview {
            ServiceType::Webview(WebviewClosureMessageService::new())
        } else {
            ServiceType::Websocket(WebsocketMessageService::new())
        };
        WebViewMessageService { service }
    }

    /// Send a message to the backend, and register a future for the reply.
    pub fn send_message(&mut self, message: SND) -> (sent: Sent<SND>)
        requires
            old(self).state().futures.wf(),
            old(self).state().futures.has_room(),
        ensures
            sent.future == old(self).state().futures.next_slot,
            exists|message_id: u32|
                {
                    let envelope = #[trigger] old(self).state().message(message_id, message);
                    &&& call_ensures(Message::<SND>::generate_message_id, (), message_id)
                    &&& final(self).state() == old(self).state().sent(envelope)
                    &&& sent.outgoing == old(self).state().outgoing(envelope)
                },
            final(self).state().futures.wf(),
            final(self).service is Webview <==> old(self).service is Webview,
            old(self).service is Webview ==> sent.outgoing is Transmit,
    {
        self.service.send_message(message)
    }
}

} // verus!
