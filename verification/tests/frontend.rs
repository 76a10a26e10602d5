use std::sync::Arc;
use std::task::{Wake, Waker};
use yew_webview_bridge::frontend::{
    websocket_address, MessageService, Outgoing, QueueStep, ReadyState, ServiceType,
    WebViewMessageService, WebsocketMessageService, WebsocketSendMessageData,
    WebviewClosureMessageService, LISTENER_TYPE,
};
use yew_webview_bridge::Message;

struct Idle;

impl Wake for Idle {
    fn wake(self: Arc<Self>) {}
}

fn waker() -> Waker {
    Waker::from(Arc::new(Idle))
}

fn request(message_id: u32, inner: &'static str) -> Message<&'static str> {
    Message {
        subscription_id: 9,
        message_id,
        inner,
    }
}

fn transmitted<SND>(outgoing: Outgoing<SND>) -> Message<SND> {
    match outgoing {
        Outgoing::Transmit(message) => message,
        Outgoing::Queued => panic!("the message was queued"),
        Outgoing::Rejected => panic!("the message was rejected"),
    }
}

#[test]
fn the_event_type_is_fixed() {
    assert_eq!(LISTENER_TYPE, "yew-webview-bridge-response");
}

#[test]
fn the_websocket_is_at_the_bridge_address() {
    assert_eq!(websocket_address("127.0.0.1:8001"), "ws://127.0.0.1:8001");
    assert_eq!(websocket_address(""), "ws://");
}

#[test]
fn browsers_report_four_states() {
    assert_eq!(ReadyState::from_code(0), Some(ReadyState::Connecting));
    assert_eq!(ReadyState::from_code(1), Some(ReadyState::Open));
    assert_eq!(ReadyState::from_code(2), Some(ReadyState::Closing));
    assert_eq!(ReadyState::from_code(3), Some(ReadyState::Closed));
    assert_eq!(ReadyState::from_code(4), None);
    assert_eq!(ReadyState::from_code(u16::MAX), None);
}

#[test]
fn a_webview_service_transmits_at_once() {
    let mut service: WebviewClosureMessageService<u8, &str> =
        WebviewClosureMessageService::with_subscription_id(9);
    let sent = service.send(request(4, "hello"));
    assert_eq!(sent.future, 0);
    let message = transmitted(sent.outgoing);
    assert_eq!(message.subscription_id, 9);
    assert_eq!(message.message_id, 4);
    assert_eq!(message.inner, "hello");
    let sent = service.send_message("again");
    assert_eq!(sent.future, 1);
    let message = transmitted(sent.outgoing);
    assert_eq!(message.subscription_id, 9);
    assert_eq!(message.inner, "again");
}

#[test]
fn a_reply_resolves_the_future_of_its_request() {
    let mut service: WebviewClosureMessageService<String, &str> =
        WebviewClosureMessageService::with_subscription_id(9);
    let sent = service.send_message("question");
    let asked = transmitted(sent.outgoing);
    assert!(service.futures_mut().poll(sent.future, waker()).is_none());
    let reply = Message {
        subscription_id: asked.subscription_id,
        message_id: asked.message_id,
        inner: "answer".to_string(),
    };
    assert!(service.receive(reply).is_some());
    let ready = service.futures_mut().poll(sent.future, waker()).unwrap();
    assert_eq!(*ready, "answer");
}

#[test]
fn a_reply_to_another_service_is_ignored() {
    let mut service: WebviewClosureMessageService<u8, &str> =
        WebviewClosureMessageService::with_subscription_id(9);
    let sent = service.send(request(4, "hello"));
    let stray = Message {
        subscription_id: 10,
        message_id: 4,
        inner: 1,
    };
    assert!(service.receive(stray).is_none());
    assert!(service.futures_mut().poll(sent.future, waker()).is_none());
}

#[test]
fn early_messages_wait_in_order() {
    let mut data: WebsocketSendMessageData<u8, &str> =
        WebsocketSendMessageData::with_subscription_id(9);
    assert!(matches!(data.send(request(1, "a")).outgoing, Outgoing::Queued));
    assert!(matches!(data.send(request(2, "b")).outgoing, Outgoing::Queued));
    assert!(matches!(data.send_message("c").outgoing, Outgoing::Queued));
    assert!(matches!(data.send_queue(), QueueStep::Wait));
    data.set_ready_state(ReadyState::Open);
    match data.send_queue() {
        QueueStep::Transmit(messages) => {
            let payloads: Vec<&str> = messages.iter().map(|message| message.inner).collect();
            assert_eq!(payloads, vec!["a", "b", "c"]);
            assert_eq!(messages[0].message_id, 1);
            assert_eq!(messages[1].message_id, 2);
            assert!(messages.iter().all(|message| message.subscription_id == 9));
        }
        other => panic!("nothing is transmitted: {:?}", other),
    }
}

#[test]
fn the_queue_is_not_emptied_by_sending_it() {
    let mut data: WebsocketSendMessageData<u8, &str> =
        WebsocketSendMessageData::with_subscription_id(9);
    data.send(request(1, "a"));
    data.set_ready_state(ReadyState::Open);
    for _ in 0..2 {
        assert!(matches!(data.send_queue(), QueueStep::Transmit(messages) if messages.len() == 1));
    }
}

#[test]
fn messages_keep_their_order_behind_those_queued_before() {
    let mut service: WebsocketMessageService<u8, &str> = WebsocketMessageService::new();
    let sent = service.send_message("a");
    service.callback_data.futures_mut().close(sent.future);
    service.send_message("b");
    service.callback_data.send(request(3, "c"));
    service.callback_data.set_ready_state(ReadyState::Open);
    match service.callback_data.send_queue() {
        QueueStep::Transmit(messages) => {
            let payloads: Vec<&str> = messages.iter().map(|message| message.inner).collect();
            assert_eq!(payloads, vec!["a", "b", "c"]);
        }
        other => panic!("nothing is transmitted: {:?}", other),
    }
}

#[test]
fn an_open_websocket_transmits_at_once() {
    let mut data: WebsocketSendMessageData<u8, &str> =
        WebsocketSendMessageData::with_subscription_id(9);
    data.set_ready_state(ReadyState::Open);
    assert_eq!(transmitted(data.send(request(1, "a")).outgoing).inner, "a");
    assert!(matches!(data.send_queue(), QueueStep::Transmit(messages) if messages.is_empty()));
}

#[test]
fn a_closing_websocket_rejects() {
    let mut data: WebsocketSendMessageData<u8, &str> =
        WebsocketSendMessageData::with_subscription_id(9);
    for state in [ReadyState::Closing, ReadyState::Closed] {
        data.set_ready_state(state);
        let sent = data.send(request(1, "a"));
        assert!(matches!(sent.outgoing, Outgoing::Rejected));
        assert!(matches!(data.send_queue(), QueueStep::Rejected));
        assert!(data.futures_mut().poll(sent.future, waker()).is_none());
    }
}

#[test]
fn a_websocket_reply_resolves_its_future() {
    let mut service: WebsocketMessageService<u8, &str> = WebsocketMessageService::new();
    service.callback_data.set_ready_state(ReadyState::Open);
    let sent = service.send_message("question");
    let asked = transmitted(sent.outgoing);
    let reply = Message {
        subscription_id: asked.subscription_id,
        message_id: asked.message_id,
        inner: 7,
    };
    assert!(service.callback_data.receive(reply).is_none());
    let futures = service.callback_data.futures_mut();
    assert_eq!(*futures.poll(sent.future, waker()).unwrap(), 7);
}

#[test]
fn a_host_with_a_webview_is_called() {
    let mut service: WebViewMessageService<u8, &str> = WebViewMessageService::new(true);
    assert!(matches!(service.service, ServiceType::Webview(_)));
    assert_eq!(transmitted(service.send_message("hello").outgoing).inner, "hello");
}

#[test]
fn without_a_webview_there_is_a_websocket() {
    let mut service: WebViewMessageService<u8, &str> = WebViewMessageService::new(false);
    assert!(matches!(service.service, ServiceType::Websocket(_)));
    assert!(matches!(service.send_message("hello").outgoing, Outgoing::Queued));
}

#[test]
fn either_service_sends() {
    let mut webview: ServiceType<u8, &str> =
        ServiceType::Webview(WebviewClosureMessageService::new());
    assert!(matches!(webview.send_message("a").outgoing, Outgoing::Transmit(_)));
    let mut websocket: ServiceType<u8, &str> =
        ServiceType::Websocket(WebsocketMessageService::new());
    assert!(matches!(websocket.send_message("a").outgoing, Outgoing::Queued));
}
