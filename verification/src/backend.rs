//! The backend's side of a `web-view`: what becomes of a message from the
//! frontend, and how the reply gets back.

use crate::frontend::LISTENER_TYPE;
use crate::message::{Address, Message};
use vstd::prelude::*;
use vstd::string::*;

verus! {

/// Why a message could not be handled. `J` is the type of the errors of the
/// serialization, `W` that of the errors of the `web-view`.
#[derive(Debug)]
pub enum YewWebviewBridgeError<J, W> {
    /// Unable to serialize the outgoing message to a json string.
    UnableToSerialize(J),
    /// Unable to deserialize the incoming json string.
    UnableToDeserialize(J),
    /// Failed to dispatch the message to the frontend.
    FieldToDispatch(W),
}

/// The reply with the handler's `output` to the message at `address`: none,
/// where the handler has nothing to say.
pub open spec fn reply_for<SND>(address: Address, output: Option<SND>) -> Option<Message<SND>> {
    match output {
        Some(response) => Some(address.message(response)),
        None => None,
    }
}

/// The reply with the handler's `output` to the message at `address`: none,
/// where the handler has nothing to say.
pub fn reply<SND>(address: Address, output: Option<SND>) -> (reply: Option<Message<SND>>)
    ensures
        reply == reply_for(address, output),
        reply is Some <==> output is Some,
        reply matches Some(message) ==> {
            &&& message.subscription_id == address.subscription_id
            &&& message.message_id == address.message_id
            &&& output == Some(message.inner)
        },
{
    match output {
        Some(response) => Some(Message::at(address, response)),
        None => None,
    }
}

/// Handle a `web-view` message as a message coming from the frontend.
/// `incoming` is what the deserialization of it gave. The outcome is the
/// message to send back: if the handler returns a `Some(_)`, there is a
/// response for this message, and otherwise there is none.
///
/// + `<RECV>` is the type of message being received from the message service
///   in the frontend.
/// + `<SND>` is the type of message expected by the message service in the
///   frontend, in the reply to the `RECV` message.
pub fn handle_yew_message<RECV, SND, J, W, H>(
    incoming: Result<Message<RECV>, J>,
    handler: H,
) -> (outcome: Result<Option<Message<SND>>, YewWebviewBridgeError<J, W>>) where
    H: Fn(RECV) -> Option<SND>,

    requires
        incoming matches Ok(message) ==> handler.requires((message.inner,)),
    ensures
        match incoming {
            Ok(message) => exists|output: Option<SND>|
                {
                    &&& #[trigger] handler.ensures((message.inner,), output)
                    &&& outcome == Ok::<Option<Message<SND>>, YewWebviewBridgeError<J, W>>(
                        reply_for(message.address(), output),
                    )
                },
            Err(error) => outcome == Err::<Option<Message<SND>>, YewWebviewBridgeError<J, W>>(
                YewWebviewBridgeError::UnableToDeserialize(error),
            ),
        },
{
    match incoming {
        Ok(message) => {
            let (address, inner) = message.into_parts();
            let output = handler(inner);
            Ok(reply(address, output))
        },
        Err(error) => Err(YewWebviewBridgeError::UnableToDeserialize(error)),
    }
}

/// How a string is written by its `Debug` implementation: between double
/// quotes, with escapes for what cannot stand there as it is.
pub uninterp spec fn debug_text(text: Seq<char>) -> Seq<char>;

/// `format!` with `{:?}` on a string, that is `<str as Debug>::fmt`. The
/// result is named by [`debug_text`], and nothing more is stated of it.
#[verifier::external_body]
fn debug_format(text: &str) -> (written: String)
    ensures
        written@ == debug_text(text@),
{
    format!("{:?}", text)
}

/// The script that dispatches an event of the type `event_name` to the
/// document, with the value of the expression `detail` as its detail.
pub open spec fn dispatch_script_text(event_name: Seq<char>, detail: Seq<char>) -> Seq<char> {
    "\n    document.dispatchEvent(\n        new CustomEvent(\""@ + event_name + "\", { detail: "@
        + detail + " })\n    );"@
}

/// The script that dispatches an event of the type `event_name` to the
/// document, with the value of the expression `detail` as its detail.
pub fn dispatch_script(event_name: &str, detail: &str) -> (script: String)
    ensures
        script@ == dispatch_script_text(event_name@, detail@),
        script@ == "\n    document.dispatchEvent(\n        new CustomEvent(\""@ + event_name@
            + "\", { detail: "@ + detail@ + " })\n    );"@,
{
    let mut script = "\n    document.dispatchEvent(\n        new CustomEvent(\"".to_owned();
    script.append(event_name);
    script.append("\", { detail: ");
    script.append(detail);
    script.append(" })\n    );");
    script
}

/// Prepares the response to a message received from the frontend.
/// `serialized` is what the serialization of the response gave. The outcome is
/// the script by which the `web-view` is to hand it to the frontend.
pub fn send_response_to_yew<J, W>(serialized: Result<String, J>) -> (outcome: Result<
    String,
    YewWebviewBridgeError<J, W>,
>)
    ensures
        match serialized {
            Ok(text) => outcome matches Ok(script) && script@ == dispatch_script_text(
                LISTENER_TYPE@,
                debug_text(text@),
            ),
            Err(error) => outcome == Err::<String, YewWebviewBridgeError<J, W>>(
                YewWebviewBridgeError::UnableToSerialize(error),
            ),
        },
{
    match serialized {
        Ok(text) => {
            let detail = debug_format(text.as_str());
            Ok(dispatch_script(LISTENER_TYPE, detail.as_str()))
        },
        Err(error) => Err(YewWebviewBridgeError::UnableToSerialize(error)),
    }
}

/// The outcome of a response, when `evaluated` is what the `web-view` gave for
/// its script.
pub fn response_dispatched<J, W>(evaluated: Result<(), W>) -> (outcome: Result<
    (),
    YewWebviewBridgeError<J, W>,
>)
    ensures
        outcome == (match evaluated {
            Ok(()) => Ok(()),
            Err(error) => Err(YewWebviewBridgeError::<J, W>::FieldToDispatch(error)),
        }),
{
    match evaluated {
        Ok(()) => Ok(()),
        Err(error) => Err(YewWebviewBridgeError::FieldToDispatch(error)),
    }
}

} // verus!
