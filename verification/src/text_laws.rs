//! What holds of the texts and numbers that the bridge exchanges with the
//! world.

use crate::backend::{
    debug_text, dispatch_script, dispatch_script_text, response_dispatched, send_response_to_yew,
    YewWebviewBridgeError,
};
use crate::error::{MessageAction, MessageError, MessageErrorType};
use crate::frontend::{websocket_address, ReadyState, LISTENER_TYPE};
use vstd::prelude::*;

verus! {

/// A script holds its event name and its detail whole, however long they are,
/// each at its place between three pieces that are the same in every script.
pub proof fn law_a_script_holds_its_detail(event_name: Seq<char>, detail: Seq<char>)
    ensures
        ({
            let script = dispatch_script_text(event_name, detail);
            let before = "\n    document.dispatchEvent(\n        new CustomEvent(\""@;
            let between = "\", { detail: "@;
            let behind = " })\n    );"@;
            let name_at = before.len() as int;
            let detail_at = name_at + event_name.len() + between.len();
            &&& before.len() == 54 && between.len() == 13 && behind.len() == 10
            &&& script.len() == 77 + event_name.len() + detail.len()
            &&& script.subrange(0, name_at) == before
            &&& script.subrange(name_at, name_at + event_name.len()) == event_name
            &&& script.subrange(name_at + event_name.len(), detail_at) == between
            &&& script.subrange(detail_at, detail_at + detail.len()) == detail
            &&& script.subrange(detail_at + detail.len(), script.len() as int) == behind
        }),
{
    reveal_strlit("\n    document.dispatchEvent(\n        new CustomEvent(\"");
    reveal_strlit("\", { detail: ");
    reveal_strlit(" })\n    );");
    let script = dispatch_script_text(event_name, detail);
    let name_at: int = 54;
    let detail_at = 67int + event_name.len();
    assert(script.subrange(0, name_at)
        =~= "\n    document.dispatchEvent(\n        new CustomEvent(\""@);
    assert(script.subrange(name_at, name_at + event_name.len()) =~= event_name);
    assert(script.subrange(name_at + event_name.len(), detail_at) =~= "\", { detail: "@);
    assert(script.subrange(detail_at, detail_at + detail.len()) =~= detail);
    assert(script.subrange(detail_at + detail.len(), script.len() as int) =~= " })\n    );"@);
}

/// Two scripts for the same event are the same only if their details are, and
/// two scripts with the same detail only if their events are.
pub proof fn law_different_details_make_different_scripts(
    event_name: Seq<char>,
    detail: Seq<char>,
    other_name: Seq<char>,
    other_detail: Seq<char>,
)
    requires
        dispatch_script_text(event_name, detail) == dispatch_script_text(other_name, other_detail),
        event_name == other_name || detail == other_detail,
    ensures
        event_name == other_name,
        detail == other_detail,
{
    law_a_script_holds_its_detail(event_name, detail);
    law_a_script_holds_its_detail(other_name, other_detail);
}

/// What `dispatch_script` returns holds the event name and the detail that it
/// was given, with nothing taken out and nothing but the fixed pieces added.
pub proof fn law_a_dispatched_script_holds_its_detail(
    event_name: &str,
    detail: &str,
    script: String,
)
    requires
        call_ensures(dispatch_script, (event_name, detail), script),
    ensures
        script@.len() == 77 + event_name@.len() + detail@.len(),
        script@.subrange(54, 54int + event_name@.len()) == event_name@,
        script@.subrange(67int + event_name@.len(), 67int + event_name@.len() + detail@.len())
            == detail@,
{
    law_a_script_holds_its_detail(event_name@, detail@);
}

/// A response that was serialized becomes a script for the event of replies,
/// with the serialized text, quoted and whole, as its detail. A failure to
/// serialize it or to run the script is passed on as what it is.
pub proof fn law_a_response_is_delivered_or_its_failure_passed_on<J, W>(
    serialized: Result<String, J>,
    script: Result<String, YewWebviewBridgeError<J, W>>,
    evaluated: Result<(), W>,
    outcome: Result<(), YewWebviewBridgeError<J, W>>,
)
    requires
        call_ensures(send_response_to_yew::<J, W>, (serialized,), script),
        call_ensures(response_dispatched::<J, W>, (evaluated,), outcome),
    ensures
        serialized is Ok <==> script is Ok,
        serialized matches Ok(text) ==> {
            let detail = debug_text(text@);
            &&& script matches Ok(script)
            &&& script@.len() == 104 + detail.len()
            &&& script@.subrange(54, 81) == "yew-webview-bridge-response"@
            &&& script@.subrange(94, 94int + detail.len()) == detail
        },
        serialized matches Err(error) ==> script matches Err(
            YewWebviewBridgeError::UnableToSerialize(passed_on),
        ) && passed_on == error,
        evaluated is Ok <==> outcome is Ok,
        evaluated matches Err(error) ==> outcome matches Err(
            YewWebviewBridgeError::FieldToDispatch(passed_on),
        ) && passed_on == error,
{
    if let Ok(text) = serialized {
        law_replies_come_by_one_event();
        law_a_script_holds_its_detail(LISTENER_TYPE@, debug_text(text@));
    }
}

/// Replies are delivered by one and the same type of event.
pub proof fn law_replies_come_by_one_event()
    ensures
        LISTENER_TYPE@ == "yew-webview-bridge-response"@,
        LISTENER_TYPE@.len() == 27,
{
    reveal_strlit("yew-webview-bridge-response");
}

/// The address of a websocket is the bridge address with the scheme in front
/// of it: the bridge address is all there, and can be read off.
pub proof fn law_a_websocket_is_at_its_bridge_address(bridge_address: &str, address: String)
    requires
        call_ensures(websocket_address, (bridge_address,), address),
    ensures
        address@.len() == 5 + bridge_address@.len(),
        address@.subrange(0, 5) == "ws://"@,
        address@.subrange(5, address@.len() as int) == bridge_address@,
{
    reveal_strlit("ws://");
    assert(address@.subrange(0, 5) =~= "ws://"@);
    assert(address@.subrange(5, address@.len() as int) =~= bridge_address@);
}

/// The states of a websocket have the numbers that browsers give them, in the
/// order in which a connection goes through them, and every state is
/// recognized by its number.
pub proof fn law_states_are_known_by_their_numbers(
    state: ReadyState,
    code: u16,
    reported: Option<ReadyState>,
)
    requires
        call_ensures(ReadyState::from_code, (code,), reported),
    ensures
        state == ReadyState::Connecting <==> state.code() == 0,
        state == ReadyState::Open <==> state.code() == 1,
        state == ReadyState::Closing <==> state.code() == 2,
        state == ReadyState::Closed <==> state.code() == 3,
        state.code() == code <==> reported == Some(state),
        reported is None <==> code > 3,
{
}

/// The words of an error tell what was being done and what went wrong: errors
/// that differ in either are described differently.
pub proof fn law_errors_are_told_apart(
    action: MessageAction,
    error_type: MessageErrorType,
    other_action: MessageAction,
    other_type: MessageErrorType,
)
    requires
        action.text() + error_type.text() == other_action.text() + other_type.text(),
    ensures
        action == other_action,
        error_type == other_type,
{
    reveal_strlit("Error while sending message.");
    reveal_strlit("Error while receiving message.");
    reveal_strlit(" Connection is closing/closed.");
    reveal_strlit(" Unable to serialize message.");
    reveal_strlit(" Unable to deserialize message.");
    reveal_strlit(" Error with the websocket connection.");
    let text = action.text() + error_type.text();
    let other = other_action.text() + other_type.text();
    assert(text[12] == action.text()[12]);
    assert(other[12] == other_action.text()[12]);
    assert(action == other_action);
    assert(text.len() == action.text().len() + error_type.text().len());
    assert(other.len() == other_action.text().len() + other_type.text().len());
}

/// The description of an error depends on what was being done and on what went
/// wrong, and on nothing else: not on the error behind it.
pub proof fn law_the_source_is_not_described<S>(
    error: MessageError<S>,
    text: String,
    other: MessageError<S>,
    other_text: String,
)
    requires
        call_ensures(MessageError::<S>::describe, (&error,), text),
        call_ensures(MessageError::<S>::describe, (&other,), other_text),
    ensures
        text@ == other_text@ <==> error.spec_action() == other.spec_action()
            && error.spec_error_type() == other.spec_error_type(),
{
    if text@ == other_text@ {
        law_errors_are_told_apart(
            error.spec_action(),
            error.spec_error_type(),
            other.spec_action(),
            other.spec_error_type(),
        );
    }
}

/// Every description begins with what was being done and goes on with what
/// went wrong, in whole sentences.
pub proof fn law_errors_are_described_in_sentences(
    action: MessageAction,
    error_type: MessageErrorType,
)
    ensures
        action.text().subrange(0, 12) == "Error while "@,
        action.text().subrange(12, action.text().len() as int) == (if action
            == MessageAction::Sending {
            "sending message."@
        } else {
            "receiving message."@
        }),
        error_type.text()[0] == ' ',
        error_type.text().last() == '.',
        error_type.text().subrange(1, error_type.text().len() - 1) == (match error_type {
            MessageErrorType::ConnectionClosed => "Connection is closing/closed"@,
            MessageErrorType::UnableToSerialize => "Unable to serialize message"@,
            MessageErrorType::UnableToDeserialze => "Unable to deserialize message"@,
            MessageErrorType::Websocket => "Error with the websocket connection"@,
        }),
{
    reveal_strlit("Error while ");
    reveal_strlit("sending message.");
    reveal_strlit("receiving message.");
    reveal_strlit("Error while sending message.");
    reveal_strlit("Error while receiving message.");
    reveal_strlit(" Connection is closing/closed.");
    reveal_strlit(" Unable to serialize message.");
    reveal_strlit(" Unable to deserialize message.");
    reveal_strlit(" Error with the websocket connection.");
    reveal_strlit("Connection is closing/closed");
    reveal_strlit("Unable to serialize message");
    reveal_strlit("Unable to deserialize message");
    reveal_strlit("Error with the websocket connection");
}

} // verus!
