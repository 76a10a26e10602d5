use yew_webview_bridge::backend::{
    dispatch_script, handle_yew_message, reply, response_dispatched, send_response_to_yew,
    YewWebviewBridgeError,
};
use yew_webview_bridge::frontend::{MessageService, Outgoing, WebviewClosureMessageService};
use yew_webview_bridge::{Address, Message};

type Outcome<T> = Result<T, YewWebviewBridgeError<&'static str, u8>>;

fn request() -> Message<String> {
    Message {
        subscription_id: 1,
        message_id: 2,
        inner: "question".to_string(),
    }
}

#[test]
fn a_response_goes_back_to_the_address_of_the_request() {
    let outcome: Outcome<Option<Message<String>>> =
        handle_yew_message(Ok(request()), |message: String| Some(message + "!"));
    let response = outcome.unwrap().unwrap();
    assert_eq!(response.subscription_id, 1);
    assert_eq!(response.message_id, 2);
    assert_eq!(response.inner, "question!");
}

#[test]
fn a_silent_handler_sends_nothing() {
    let outcome: Outcome<Option<Message<u8>>> =
        handle_yew_message(Ok(request()), |_message: String| None);
    assert!(outcome.unwrap().is_none());
}

#[test]
fn a_message_that_cannot_be_read_is_an_error() {
    let outcome: Outcome<Option<Message<u8>>> =
        handle_yew_message(Err("no json"), |_message: String| panic!("not to be called"));
    assert!(matches!(
        outcome,
        Err(YewWebviewBridgeError::UnableToDeserialize("no json"))
    ));
}

#[test]
fn a_reply_is_made_of_a_response_only() {
    let address = Address {
        subscription_id: 5,
        message_id: 6,
    };
    let made = reply(address, Some('r')).unwrap();
    assert_eq!(made.into_parts(), (address, 'r'));
    assert!(reply::<char>(address, None).is_none());
}

#[test]
fn the_script_dispatches_the_event() {
    assert_eq!(
        dispatch_script("some-event", "\"text\""),
        r#"
    document.dispatchEvent(
        new CustomEvent("some-event", { detail: "text" })
    );"#
    );
}

#[test]
fn the_response_is_quoted_in_the_script() {
    let outcome: Outcome<String> = send_response_to_yew(Ok(
        "{\"subscription_id\":1,\"message_id\":2,\"inner\":\"a\\nb\"}".to_string(),
    ));
    assert_eq!(
        outcome.unwrap(),
        r#"
    document.dispatchEvent(
        new CustomEvent("yew-webview-bridge-response", { detail: "{\"subscription_id\":1,\"message_id\":2,\"inner\":\"a\\nb\"}" })
    );"#
    );
}

#[test]
fn a_response_that_cannot_be_serialized_is_an_error() {
    let outcome: Outcome<String> = send_response_to_yew(Err("too deep"));
    assert!(matches!(
        outcome,
        Err(YewWebviewBridgeError::UnableToSerialize("too deep"))
    ));
}

#[test]
fn a_script_that_fails_is_an_error() {
    let outcome: Outcome<()> = response_dispatched(Err(3));
    assert!(matches!(
        outcome,
        Err(YewWebviewBridgeError::FieldToDispatch(3))
    ));
    let outcome: Outcome<()> = response_dispatched(Ok(()));
    assert!(outcome.is_ok());
}

#[test]
fn a_response_resolves_its_request() {
    let mut service: WebviewClosureMessageService<usize, String> =
        WebviewClosureMessageService::new();
    let sent = service.send_message("four".to_string());
    let asked = match sent.outgoing {
        Outgoing::Transmit(message) => message,
        other => panic!("not transmitted: {:?}", other),
    };
    let outcome: Outcome<Option<Message<usize>>> =
        handle_yew_message(Ok(asked), |message: String| Some(message.len()));
    service.receive(outcome.unwrap().unwrap());
    let waker = std::task::Waker::noop();
    let ready = service.futures_mut().poll(sent.future, waker.clone());
    assert_eq!(ready.as_deref(), Some(&4));
}

#[test]
fn services_do_not_mix() {
    let mut sender: WebviewClosureMessageService<usize, String> =
        WebviewClosureMessageService::with_subscription_id(1);
    let mut other: WebviewClosureMessageService<usize, String> =
        WebviewClosureMessageService::with_subscription_id(3);
    let sent = sender.send(request());
    let own = other.send(request());
    let asked = match sent.outgoing {
        Outgoing::Transmit(message) => message,
        other => panic!("not transmitted: {:?}", other),
    };
    let outcome: Outcome<Option<Message<usize>>> =
        handle_yew_message(Ok(asked), |message: String| Some(message.len()));
    assert!(other.receive(outcome.unwrap().unwrap()).is_none());
    let waker = std::task::Waker::noop();
    assert!(other.futures_mut().poll(own.future, waker.clone()).is_none());
}
