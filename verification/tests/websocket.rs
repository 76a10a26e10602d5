use yew_webview_bridge::websocket::{
    Connection, ConnectionAction, ConnectionEvent, Exchange, ExchangeAction, ExchangeEvent, Frame,
};
use yew_webview_bridge::Message;

type Event = ConnectionEvent<String, u32>;
type Action = ConnectionAction<String, u32>;

fn happened(event: ExchangeEvent<String, u32>) -> Event {
    ConnectionEvent::Exchange(event)
}

fn request() -> Message<String> {
    Message {
        subscription_id: 1,
        message_id: 2,
        inner: "question".to_string(),
    }
}

fn step(connection: Connection, event: Event) -> (Connection, Action) {
    assert!(connection.accepts(&event));
    connection.step(event)
}

fn reading() -> Connection {
    let (connection, action) = step(Connection::new(), ConnectionEvent::Accepted(true));
    assert!(matches!(action, ConnectionAction::Handshake));
    let (connection, action) = step(connection, ConnectionEvent::HandshakeDone(true));
    assert!(matches!(action, ConnectionAction::Read));
    connection
}

fn text() -> Event {
    happened(ExchangeEvent::Arrived(Some(Frame::Text("json".to_string()))))
}

#[test]
fn a_connection_that_is_not_accepted_is_left() {
    let (connection, action) = step(Connection::new(), ConnectionEvent::Accepted(false));
    assert!(matches!(action, ConnectionAction::Stop));
    assert!(matches!(connection, Connection::Closed));
}

#[test]
fn a_connection_without_handshake_is_left() {
    let (connection, _) = step(Connection::new(), ConnectionEvent::Accepted(true));
    let (connection, action) = step(connection, ConnectionEvent::HandshakeDone(false));
    assert!(matches!(action, ConnectionAction::Stop));
    assert!(matches!(connection, Connection::Closed));
}

#[test]
fn a_text_is_answered_at_its_address() {
    let (connection, action) = step(reading(), text());
    assert!(matches!(
        action,
        ConnectionAction::Exchange(ExchangeAction::Decode(text)) if text == "json"
    ));
    let (connection, action) = step(connection, happened(ExchangeEvent::Decoded(Some(request()))));
    assert!(matches!(
        action,
        ConnectionAction::Exchange(ExchangeAction::Handle(inner)) if inner == "question"
    ));
    let (connection, action) = step(connection, happened(ExchangeEvent::Handled(Some(42))));
    match action {
        ConnectionAction::Exchange(ExchangeAction::Encode(reply)) => {
            assert_eq!(reply.subscription_id, 1);
            assert_eq!(reply.message_id, 2);
            assert_eq!(reply.inner, 42);
        }
        other => panic!("nothing is encoded: {:?}", other),
    }
    let (connection, action) = step(
        connection,
        happened(ExchangeEvent::Encoded(Some("reply".to_string()))),
    );
    assert!(matches!(
        action,
        ConnectionAction::Exchange(ExchangeAction::Write(text)) if text == "reply"
    ));
    let (connection, action) = step(connection, happened(ExchangeEvent::Written));
    assert!(matches!(action, ConnectionAction::Read));
    assert!(connection.accepts(&text()));
}

#[test]
fn a_silent_handler_leads_to_the_next_frame() {
    let (connection, _) = step(reading(), text());
    let (connection, _) = step(connection, happened(ExchangeEvent::Decoded(Some(request()))));
    let (connection, action) = step(connection, happened(ExchangeEvent::Handled(None)));
    assert!(matches!(action, ConnectionAction::Read));
    assert!(connection.accepts(&text()));
}

#[test]
fn failures_lead_to_the_next_frame() {
    let (connection, action) = step(reading(), happened(ExchangeEvent::Arrived(None)));
    assert!(matches!(action, ConnectionAction::Read));
    let (connection, _) = step(connection, text());
    let (connection, action) = step(connection, happened(ExchangeEvent::Decoded(None)));
    assert!(matches!(action, ConnectionAction::Read));
    let (connection, _) = step(connection, text());
    let (connection, _) = step(connection, happened(ExchangeEvent::Decoded(Some(request()))));
    let (connection, _) = step(connection, happened(ExchangeEvent::Handled(Some(1))));
    let (connection, action) = step(connection, happened(ExchangeEvent::Encoded(None)));
    assert!(matches!(action, ConnectionAction::Read));
    assert!(connection.accepts(&text()));
}

#[test]
fn other_frames_are_skipped() {
    let mut connection = reading();
    for frame in vec![Frame::Binary, Frame::Ping, Frame::Pong] {
        let (next, action) = step(connection, happened(ExchangeEvent::Arrived(Some(frame))));
        assert!(matches!(action, ConnectionAction::Read));
        connection = next;
    }
}

#[test]
fn a_close_frame_ends_the_connection() {
    let (connection, action) = step(
        reading(),
        happened(ExchangeEvent::Arrived(Some(Frame::Close))),
    );
    assert!(matches!(action, ConnectionAction::Stop));
    assert!(!connection.accepts(&text()));
    assert!(!connection.accepts(&Event::Accepted(true)));
}

#[test]
fn an_event_out_of_turn_is_not_accepted() {
    let connection = reading();
    assert!(!connection.accepts(&Event::HandshakeDone(true)));
    assert!(!connection.accepts(&happened(ExchangeEvent::Written)));
    assert!(!connection.accepts(&happened(ExchangeEvent::Encoded(None))));
    assert!(!Connection::new().accepts(&text()));
}

fn decode(text: &str) -> Option<Message<String>> {
    text.strip_prefix("to 7 ").map(|inner| Message {
        subscription_id: 1,
        message_id: 7,
        inner: inner.to_string(),
    })
}

fn handle(inner: &str) -> Option<u32> {
    inner.parse().ok()
}

fn encode(reply: &Message<u32>) -> Option<String> {
    if reply.inner < 100 {
        Some(format!("{}/{}: {}", reply.subscription_id, reply.message_id, reply.inner))
    } else {
        None
    }
}

fn outcome(
    action: ExchangeAction<String, u32>,
    texts: &mut Vec<String>,
) -> Option<ExchangeEvent<String, u32>> {
    match action {
        ExchangeAction::Decode(text) => Some(ExchangeEvent::Decoded(decode(&text))),
        ExchangeAction::Handle(inner) => Some(ExchangeEvent::Handled(handle(&inner))),
        ExchangeAction::Encode(reply) => Some(ExchangeEvent::Encoded(encode(&reply))),
        ExchangeAction::Write(text) => {
            texts.push(text);
            Some(ExchangeEvent::Written)
        }
        ExchangeAction::Finish => None,
    }
}

fn written_in_exchange(frame: Option<Frame>) -> Vec<String> {
    let mut texts = Vec::new();
    let mut exchange = Exchange::Arriving;
    let mut event: ExchangeEvent<String, u32> = ExchangeEvent::Arrived(frame);
    loop {
        assert!(exchange.accepts(&event));
        let (next, action) = exchange.step(event);
        exchange = next;
        match outcome(action, &mut texts) {
            Some(next_event) => event = next_event,
            None => return texts,
        }
    }
}

fn written_on_connection(frames: Vec<Option<Frame>>) -> Vec<String> {
    let mut texts = Vec::new();
    let mut connection = reading();
    for frame in frames {
        let mut event = happened(ExchangeEvent::Arrived(frame));
        loop {
            let (next, action) = step(connection, event);
            connection = next;
            match action {
                ConnectionAction::Exchange(action) => {
                    event = happened(outcome(action, &mut texts).unwrap());
                }
                ConnectionAction::Read => break,
                ConnectionAction::Stop => return texts,
                other => panic!("unexpected on an open connection: {:?}", other),
            }
        }
    }
    texts
}

fn frames() -> Vec<Option<Frame>> {
    vec![
        Some(Frame::Text("to 7 12".to_string())),
        None,
        Some(Frame::Text("to nobody".to_string())),
        Some(Frame::Text("to 7 nothing".to_string())),
        Some(Frame::Ping),
        Some(Frame::Text("to 7 200".to_string())),
        Some(Frame::Text("to 7 34".to_string())),
    ]
}

#[test]
fn a_synchronous_server_writes_the_answers() {
    assert_eq!(written_on_connection(frames()), vec!["1/7: 12", "1/7: 34"]);
}

#[test]
fn a_synchronous_server_answers_what_came_before_the_close() {
    let mut closing = frames();
    closing.insert(6, Some(Frame::Close));
    assert_eq!(written_on_connection(closing), vec!["1/7: 12"]);
}

#[test]
fn exchanges_in_turn_keep_the_order() {
    let mut texts: Vec<String> = Vec::new();
    for frame in frames() {
        texts.extend(written_in_exchange(frame));
    }
    assert_eq!(texts, vec!["1/7: 12", "1/7: 34"]);
}

#[test]
fn the_handler_is_called_once_for_each_message() {
    let mut connection = reading();
    let mut calls: Vec<String> = Vec::new();
    for inner in vec!["a", "b"] {
        for arrival in vec![None, Some(inner)] {
            let (next, _) = step(connection, text());
            let decoded = arrival.map(|inner| Message {
                subscription_id: 1,
                message_id: 2,
                inner: inner.to_string(),
            });
            let (next, action) = step(next, happened(ExchangeEvent::Decoded(decoded)));
            connection = next;
            if let ConnectionAction::Exchange(ExchangeAction::Handle(inner)) = action {
                calls.push(inner);
                let (next, _) = step(connection, happened(ExchangeEvent::Handled(None)));
                connection = next;
            }
        }
    }
    assert_eq!(calls, vec!["a", "b"]);
}

#[test]
fn both_servers_write_the_same() {
    let mut separately: Vec<String> = Vec::new();
    for frame in frames().into_iter().rev() {
        separately.extend(written_in_exchange(frame));
    }
    separately.sort();
    let mut together = written_on_connection(frames());
    together.sort();
    assert_eq!(separately, together);
}

#[test]
fn an_awaited_handler_without_response_sends_nothing() {
    assert!(written_in_exchange(Some(Frame::Text("to 7 nothing".to_string()))).is_empty());
}

#[test]
fn an_awaited_response_is_sent() {
    assert_eq!(
        written_in_exchange(Some(Frame::Text("to 7 5".to_string()))),
        vec!["1/7: 5"]
    );
}

#[test]
fn an_exchange_ends_where_there_is_nothing_to_go_on_with() {
    let frames = vec![
        None,
        Some(Frame::Binary),
        Some(Frame::Ping),
        Some(Frame::Pong),
        Some(Frame::Close),
    ];
    for frame in frames {
        let arrived: ExchangeEvent<String, u32> = ExchangeEvent::Arrived(frame);
        let (exchange, action) = Exchange::Arriving.step(arrived);
        assert!(matches!(action, ExchangeAction::Finish));
        assert!(matches!(exchange, Exchange::Done));
    }
    let undecoded: ExchangeEvent<String, u32> = ExchangeEvent::Decoded(None);
    let (exchange, action) = Exchange::Decoding.step(undecoded);
    assert!(matches!(action, ExchangeAction::Finish));
    assert!(matches!(exchange, Exchange::Done));
}
