//! The envelope that carries a payload between the backend and the frontend.

use rand::Rng;
use vstd::prelude::*;

verus! {

/// The message passed between the backend and frontend. Includes
/// associated metadata ensuring that the message is delivered to the
/// intended message service and to the future that waits for a reply.
#[derive(Debug)]
pub struct Message<T> {
    pub subscription_id: u32,
    pub message_id: u32,
    pub inner: T,
}

/// Where a message belongs: the service that it was sent for, and the
/// exchange within that service.
#[derive(Clone, Copy, Debug, PartialEq, Eq, Structural)]
pub struct Address {
    pub subscription_id: u32,
    pub message_id: u32,
}

impl Address {
    /// The message with the payload `inner` at this address.
    pub open spec fn message<T>(self, inner: T) -> Message<T> {
        Message { subscription_id: self.subscription_id, message_id: self.message_id, inner }
    }
}

/// Draws a `u32` from the random number generator of the operating system,
/// by `gen` on `rand::rngs::OsRng`. Every `u32` is a possible outcome, so
/// nothing is stated of the result. The call panics when the operating system
/// has no randomness to give, which no argument can rule out.
#[verifier::external_body]
fn random_u32() -> (value: u32) {
    rand::rngs::OsRng.gen()
}

/// Whether `id` is what a draw of [`random_u32`] has given. No value is ruled
/// out by this: it only says where the id comes from.
pub closed spec fn is_drawn(id: u32) -> bool {
    call_ensures(random_u32, (), id)
}

impl<T> Message<T> {
    /// The address that the message carries.
    pub open spec fn address(self) -> Address {
        Address { subscription_id: self.subscription_id, message_id: self.message_id }
    }

    /// Generate a new subscription id.
    pub fn generate_subscription_id() -> (id: u32)
        ensures
            is_drawn(id),
    {
        random_u32()
    }

    /// Generate a new message id.
    pub fn generate_message_id() -> (id: u32)
        ensures
            is_drawn(id),
    {
        random_u32()
    }

    /// Create a message for the provided subscription id, under a new message
    /// id.
    pub fn for_subscription_id(subscription_id: u32, inner: T) -> (message: Self)
        ensures
            message.subscription_id == subscription_id,
            call_ensures(Self::generate_message_id, (), message.message_id),
            message.inner == inner,
    {
        let message_id: u32 = Self::generate_message_id();
        Self::at(Address { subscription_id, message_id }, inner)
    }

    /// The message with the payload `inner` at `address`.
    pub fn at(address: Address, inner: T) -> (message: Self)
        ensures
            message == address.message(inner),
            message.subscription_id == address.subscription_id,
            message.message_id == address.message_id,
            message.inner == inner,
    {
        Message { subscription_id: address.subscription_id, message_id: address.message_id, inner }
    }

    /// Splits the message into its address and its payload.
    pub fn into_parts(self) -> (parts: (Address, T))
        ensures
            parts.0 == self.address(),
            parts.0.subscription_id == self.subscription_id,
            parts.0.message_id == self.message_id,
            parts.1 == self.inner,
    {
        let address = Address {
            subscription_id: self.subscription_id,
            message_id: self.message_id,
        };
        (address, self.inner)
    }
}

/// An id of either kind is what was drawn for it, with nothing done to it.
proof fn law_an_id_is_what_was_drawn<T>(id: u32)
    ensures
        is_drawn(id) <==> call_ensures(random_u32, (), id),
        call_ensures(Message::<T>::generate_subscription_id, (), id) ==> call_ensures(
            random_u32,
            (),
            id,
        ),
        call_ensures(Message::<T>::generate_message_id, (), id) ==> call_ensures(
            random_u32,
            (),
            id,
        ),
{
}

} // verus!
