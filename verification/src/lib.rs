//! The logic of a bridge between a web frontend and the native backend that
//! hosts it: message envelopes, the futures that wait for replies, the two
//! transports of the frontend, and the backend's side of a conversation.

pub mod backend;
pub mod effect_laws;
pub mod error;
pub mod frontend;
pub mod futures;
pub mod laws;
pub mod message;
pub mod server_laws;
pub mod service_laws;
pub mod text_laws;
pub mod waker;
pub mod websocket;

pub use error::{MessageAction, MessageError, MessageErrorType};
pub use futures::{MessageFuture, MessageFuturesMap, Woken};
pub use message::{Address, Message};
pub use waker::{MessageWaker, WakerMessage};
