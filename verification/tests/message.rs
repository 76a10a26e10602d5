use yew_webview_bridge::{Address, Message};

#[test]
fn a_message_is_made_for_its_subscription() {
    let message = Message::for_subscription_id(17, "payload".to_string());
    assert_eq!(message.subscription_id, 17);
    assert_eq!(message.inner, "payload");
}

#[test]
fn message_ids_are_drawn_anew() {
    // Eight equal draws of 32 random bits do not happen.
    let first = Message::<()>::generate_message_id();
    let all_equal = (0..8).all(|_| Message::<()>::generate_message_id() == first);
    assert!(!all_equal);
}

#[test]
fn subscription_ids_are_drawn_anew() {
    let first = Message::<()>::generate_subscription_id();
    let all_equal = (0..8).all(|_| Message::<()>::generate_subscription_id() == first);
    assert!(!all_equal);
}

#[test]
fn messages_of_one_subscription_get_different_ids() {
    let first = Message::for_subscription_id(1, ()).message_id;
    let all_equal = (0..8).all(|_| Message::for_subscription_id(1, ()).message_id == first);
    assert!(!all_equal);
}

#[test]
fn a_message_comes_apart_into_address_and_payload() {
    let address = Address {
        subscription_id: 3,
        message_id: 4,
    };
    let message = Message::at(address, 'x');
    assert_eq!(message.subscription_id, 3);
    assert_eq!(message.message_id, 4);
    assert_eq!(message.inner, 'x');
    assert_eq!(message.into_parts(), (address, 'x'));
}
