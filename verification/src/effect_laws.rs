//! What each single operation changes, and that it leaves everything else as
//! it was.

use crate::backend::{handle_yew_message, reply_for, YewWebviewBridgeError};
use crate::error::{MessageAction, MessageError, MessageErrorType};
use crate::frontend::{Outgoing, ReadyState, ServiceView};
use crate::futures::{woken_task, MessageFuturesView, Woken};
use crate::message::{Address, Message};
use crate::waker::{shared_message, waker_of, Waiting};
use std::sync::Arc;
use std::task::Waker;
use vstd::prelude::*;

verus! {

/// A message is put together from its address and its payload, and comes apart
/// into the same: neither id takes the place of the other.
pub proof fn law_a_message_carries_its_address<T>(address: Address, message: Message<T>, inner: T)
    ensures
        address.message(inner).subscription_id == address.subscription_id,
        address.message(inner).message_id == address.message_id,
        address.message(inner).inner == inner,
        message.address().subscription_id == message.subscription_id,
        message.address().message_id == message.message_id,
        message.address().message(message.inner) == message,
{
}

/// A reply goes where its request came from, with the payload that the handler
/// has given. There is one exactly when the handler has given a payload.
pub proof fn law_a_reply_goes_back<RECV, SND>(request: Message<RECV>, output: Option<SND>)
    ensures
        reply_for(request.address(), output) is Some <==> output is Some,
        reply_for(request.address(), output) matches Some(reply) ==> {
            &&& reply.subscription_id == request.subscription_id
            &&& reply.message_id == request.message_id
            &&& output == Some(reply.inner)
        },
{
}

/// A message from the frontend is answered with what the handler gives for its
/// payload, at the address that it came from, or not at all where the handler
/// gives nothing. A message that cannot be read is refused with the reason.
pub proof fn law_a_message_is_answered_or_refused<RECV, SND, J, W, H>(
    incoming: Result<Message<RECV>, J>,
    handler: H,
    outcome: Result<Option<Message<SND>>, YewWebviewBridgeError<J, W>>,
) where
    H: Fn(RECV) -> Option<SND>,

    requires
        call_ensures(handle_yew_message::<RECV, SND, J, W, H>, (incoming, handler), outcome),
    ensures
        incoming is Ok <==> outcome is Ok,
        incoming matches Ok(message) ==> match outcome {
            Ok(Some(reply)) => {
                &&& handler.ensures((message.inner,), Some(reply.inner))
                &&& reply.subscription_id == message.subscription_id
                &&& reply.message_id == message.message_id
            },
            Ok(None) => handler.ensures((message.inner,), None),
            Err(_) => false,
        },
        incoming matches Err(error) ==> outcome matches Err(
            YewWebviewBridgeError::UnableToDeserialize(reason),
        ) && reason == error,
{
}

/// An error keeps what it was made of. A source that is put behind it changes
/// nothing else of it, and is what is found behind it.
pub proof fn law_an_error_keeps_what_it_was_made_of<S>(
    action: MessageAction,
    error_type: MessageErrorType,
    source: S,
    bare: MessageError<S>,
    sourced: MessageError<S>,
    behind_bare: Option<&S>,
    behind_sourced: Option<&S>,
)
    requires
        call_ensures(MessageError::<S>::new, (action, error_type), bare),
        call_ensures(MessageError::<S>::with_source, (bare, source), sourced),
        call_ensures(MessageError::<S>::source, (&bare,), behind_bare),
        call_ensures(MessageError::<S>::source, (&sourced,), behind_sourced),
    ensures
        sourced.spec_action() == action && bare.spec_action() == action,
        sourced.spec_error_type() == error_type && bare.spec_error_type() == error_type,
        behind_bare is None,
        behind_sourced matches Some(behind) && *behind == source,
{
}

/// A handle stands for what is behind it.
pub proof fn law_handles_stand_for_what_is_behind_them<RECV>(
    message: Option<Arc<RECV>>,
    waker: Option<&Waker>,
    woken: Option<Woken<'_>>,
)
    ensures
        message is Some <==> shared_message(message) is Some,
        message matches Some(shared) ==> shared_message(message) == Some(*shared),
        waker is Some <==> waker_of(waker) is Some,
        waker matches Some(waker_behind) ==> waker_of(waker) == Some(*waker_behind),
        woken is Some <==> woken_task(woken) is Some,
        woken matches Some(Woken::Held(held)) ==> woken_task(woken) == Some(*held),
        woken matches Some(Woken::Left(left)) ==> woken_task(woken) == Some(left),
{
}

/// The message of a future comes from its arrival and from nowhere else, and
/// its waker from the last poll that found nothing.
pub proof fn law_what_a_future_holds<RECV>(waiting: Waiting<RECV>, waker: Waker, message: RECV)
    ensures
        Waiting::<RECV>::fresh().message is None,
        Waiting::<RECV>::fresh().waker is None,
        waiting.polled(waker).message == waiting.message,
        waiting.message is None ==> waiting.polled(waker).waker == Some(waker),
        waiting.message is Some ==> waiting.polled(waker).waker == waiting.waker,
        waiting.resolved(message).message == Some(message),
        waiting.resolved(message).waker == waiting.waker,
{
}

/// A new service awaits nothing, holds no future and has all slots before it.
pub proof fn law_nothing_is_awaited_at_first<RECV>(message_id: u32, slot: u64)
    ensures
        !MessageFuturesView::<RECV>::empty().pending.contains_key(message_id),
        !MessageFuturesView::<RECV>::empty().slots.contains_key(slot),
        MessageFuturesView::<RECV>::empty().next_slot == 0,
        MessageFuturesView::<RECV>::empty().wf(),
{
}

/// A poll finds the message that has come for the future in the slot, if there
/// is a future in the slot and a message has come.
pub proof fn law_a_poll_finds_what_has_come<RECV>(futures: MessageFuturesView<RECV>, slot: u64)
    ensures
        futures.has_future(slot) <==> futures.slots.contains_key(slot) && futures.slots[slot].held,
        futures.found(slot) is Some <==> futures.slots.contains_key(slot) && futures.slots[slot].held
            && futures.slots[slot].waiting.message is Some,
        futures.found(slot) is Some ==> futures.found(slot) == futures.slots[slot].waiting.message,
{
}

/// A future that is registered is the only one that its id leads to, and is
/// new. The future that the id led to before, if it still exists, keeps what
/// it has and awaits nothing any more. All else stays: the other ids, the
/// other futures and what they hold.
pub proof fn law_registering_adds_one_future<RECV>(
    futures: MessageFuturesView<RECV>,
    message_id: u32,
    other_id: u32,
    slot: u64,
)
    requires
        futures.wf(),
        futures.next_slot < u64::MAX,
    ensures
        ({
            let after = futures.opened(message_id);
            let new = futures.next_slot;
            &&& after.next_slot == new + 1
            &&& !futures.slots.contains_key(new)
            &&& after.pending.contains_key(message_id) && after.pending[message_id] == new
            &&& after.slots.contains_key(new)
            &&& after.slots[new].held
            &&& after.slots[new].awaits == Some(message_id)
            &&& after.slots[new].waiting.message is None
            &&& after.slots[new].waiting.waker is None
            &&& other_id != message_id ==> {
                &&& after.pending.contains_key(other_id) <==> futures.pending.contains_key(other_id)
                &&& futures.pending.contains_key(other_id) ==> after.pending[other_id]
                    == futures.pending[other_id]
            }
            &&& slot != new ==> {
                let awaited = futures.slots[slot].awaits == Some(message_id);
                &&& after.slots.contains_key(slot) <==> futures.slots.contains_key(slot) && (
                futures.slots[slot].held || !awaited)
                &&& after.slots.contains_key(slot) ==> {
                    &&& after.slots[slot].waiting == futures.slots[slot].waiting
                    &&& after.slots[slot].held == futures.slots[slot].held
                    &&& after.slots[slot].awaits == (if awaited {
                        None
                    } else {
                        futures.slots[slot].awaits
                    })
                }
            }
        }),
{
}

/// An awaited reply resolves the future that its id leads to and wakes the
/// task that waits there; the id leads nowhere any more. All else stays: the
/// other ids, the other futures and what they hold, and the next slot.
pub proof fn law_a_reply_resolves_one_future<RECV>(
    futures: MessageFuturesView<RECV>,
    message: Message<RECV>,
    other_id: u32,
    slot: u64,
)
    requires
        futures.wf(),
        futures.pending.contains_key(message.message_id),
    ensures
        ({
            let after = futures.received(message.subscription_id, message);
            let resolved = futures.pending[message.message_id];
            &&& futures.awaits(message.subscription_id, message)
            &&& futures.woken(message.subscription_id, message)
                == futures.slots[resolved].waiting.waker
            &&& after.next_slot == futures.next_slot
            &&& !after.pending.contains_key(message.message_id)
            &&& after.slots.contains_key(resolved) <==> futures.slots[resolved].held
            &&& after.slots.contains_key(resolved) ==> {
                &&& after.slots[resolved].held
                &&& after.slots[resolved].awaits is None
                &&& after.slots[resolved].waiting.message == Some(message.inner)
                &&& after.slots[resolved].waiting.waker == futures.slots[resolved].waiting.waker
            }
            &&& other_id != message.message_id ==> {
                &&& after.pending.contains_key(other_id) <==> futures.pending.contains_key(other_id)
                &&& futures.pending.contains_key(other_id) ==> after.pending[other_id]
                    == futures.pending[other_id]
            }
            &&& slot != resolved ==> {
                &&& after.slots.contains_key(slot) <==> futures.slots.contains_key(slot)
                &&& futures.slots.contains_key(slot) ==> after.slots[slot] == futures.slots[slot]
            }
        }),
{
}

/// A message that is not awaited changes nothing at all and wakes nobody.
pub proof fn law_an_unawaited_message_changes_nothing<RECV>(
    futures: MessageFuturesView<RECV>,
    subscription_id: u32,
    message: Message<RECV>,
)
    requires
        message.subscription_id != subscription_id || !futures.pending.contains_key(
            message.message_id,
        ),
    ensures
        !futures.awaits(subscription_id, message),
        futures.received(subscription_id, message).pending == futures.pending,
        futures.received(subscription_id, message).slots == futures.slots,
        futures.received(subscription_id, message).next_slot == futures.next_slot,
        futures.woken(subscription_id, message) is None,
{
}

/// A poll changes the waker of a future that still waits, and nothing else.
pub proof fn law_a_poll_leaves_its_waker<RECV>(
    futures: MessageFuturesView<RECV>,
    polled: u64,
    waker: Waker,
    slot: u64,
)
    ensures
        ({
            let after = futures.polled(polled, waker);
            let waits = futures.slots.contains_key(polled) && futures.slots[polled].held
                && futures.slots[polled].waiting.message is None;
            &&& after.pending == futures.pending
            &&& after.next_slot == futures.next_slot
            &&& after.slots.contains_key(slot) <==> futures.slots.contains_key(slot)
            &&& slot != polled || !waits ==> after.slots[slot] == futures.slots[slot]
            &&& waits ==> {
                &&& after.slots[polled].held
                &&& after.slots[polled].awaits == futures.slots[polled].awaits
                &&& after.slots[polled].waiting.message is None
                &&& after.slots[polled].waiting.waker == Some(waker)
            }
        }),
{
}

/// A future that is dropped is not there any more. As long as its reply is
/// awaited, what it has left stays; all else stays in any case.
pub proof fn law_a_dropped_future_is_gone<RECV>(
    futures: MessageFuturesView<RECV>,
    dropped: u64,
    slot: u64,
)
    ensures
        ({
            let after = futures.closed(dropped);
            let held = futures.slots.contains_key(dropped) && futures.slots[dropped].held;
            &&& after.pending == futures.pending
            &&& after.next_slot == futures.next_slot
            &&& slot != dropped || !held ==> {
                &&& after.slots.contains_key(slot) <==> futures.slots.contains_key(slot)
                &&& futures.slots.contains_key(slot) ==> after.slots[slot] == futures.slots[slot]
            }
            &&& !(after.slots.contains_key(dropped) && after.slots[dropped].held)
            &&& held ==> {
                &&& after.slots.contains_key(dropped) <==> futures.slots[dropped].awaits is Some
                &&& after.slots.contains_key(dropped) ==> {
                    &&& after.slots[dropped].awaits == futures.slots[dropped].awaits
                    &&& after.slots[dropped].waiting == futures.slots[dropped].waiting
                }
            }
        }),
{
}

/// What the invariant says of an id and of a slot: they lead to each other, an
/// awaited future has no message yet, and a slot is in use just as long as
/// somebody can reach it.
pub proof fn law_ids_and_slots_lead_to_each_other<RECV>(
    futures: MessageFuturesView<RECV>,
    message_id: u32,
    slot: u64,
)
    requires
        futures.wf(),
    ensures
        futures.pending.contains_key(message_id) ==> {
            let awaited = futures.pending[message_id];
            &&& futures.slots.contains_key(awaited)
            &&& futures.slots[awaited].awaits == Some(message_id)
            &&& futures.slots[awaited].waiting.message is None
        },
        futures.slots.contains_key(slot) ==> {
            &&& slot < futures.next_slot
            &&& futures.slots[slot].held || futures.slots[slot].awaits is Some
            &&& futures.slots[slot].awaits matches Some(id) ==> futures.pending.contains_key(id)
                && futures.pending[id] == slot
        },
{
}

/// A new service has the given subscription id and connection, awaits nothing
/// and has nothing in its queue.
pub proof fn law_a_new_service_is_empty<RECV, SND>(
    subscription_id: u32,
    link: ReadyState,
    message_id: u32,
    slot: u64,
)
    ensures
        ({
            let service = ServiceView::<RECV, SND>::initial(subscription_id, link);
            &&& service.subscription_id == subscription_id
            &&& service.link == link
            &&& service.queued.len() == 0
            &&& service.futures.next_slot == 0
            &&& !service.futures.pending.contains_key(message_id)
            &&& !service.futures.slots.contains_key(slot)
        }),
{
}

/// A message of a service carries the subscription id of the service, the
/// given message id and the given payload.
pub proof fn law_a_service_signs_its_messages<RECV, SND>(
    service: ServiceView<RECV, SND>,
    message_id: u32,
    inner: SND,
)
    ensures
        service.message(message_id, inner).subscription_id == service.subscription_id,
        service.message(message_id, inner).message_id == message_id,
        service.message(message_id, inner).inner == inner,
{
}

/// Sending registers a future and nothing else, except that a message goes to
/// the end of the queue while the connection is being made.
pub proof fn law_sending_registers_a_future<RECV, SND>(
    service: ServiceView<RECV, SND>,
    message: Message<SND>,
)
    ensures
        ({
            let after = service.sent(message);
            &&& after.subscription_id == service.subscription_id
            &&& after.link == service.link
            &&& after.futures == service.futures.opened(message.message_id)
            &&& service.link == ReadyState::Connecting ==> {
                &&& after.queued.len() == service.queued.len() + 1
                &&& after.queued.last() == message
                &&& after.queued.drop_last() == service.queued
            }
            &&& service.link != ReadyState::Connecting ==> after.queued == service.queued
        }),
{
    assert(service.queued.push(message).drop_last() =~= service.queued);
}

/// A message goes out exactly as it is when the connection is open, waits when
/// it is being made, and is lost when it is closing or closed.
pub proof fn law_the_link_decides_over_a_message<RECV, SND>(
    service: ServiceView<RECV, SND>,
    message: Message<SND>,
)
    ensures
        service.outgoing(message) is Queued <==> service.link == ReadyState::Connecting,
        service.outgoing(message) is Transmit <==> service.link == ReadyState::Open,
        service.outgoing(message) is Rejected <==> (service.link == ReadyState::Closing
            || service.link == ReadyState::Closed),
        service.outgoing(message) matches Outgoing::Transmit(transmitted) ==> transmitted
            == message,
{
}

/// A message that arrives changes the futures of a service and nothing else of
/// it.
pub proof fn law_receiving_changes_the_futures_only<RECV, SND>(
    service: ServiceView<RECV, SND>,
    message: Message<RECV>,
)
    ensures
        service.received(message).subscription_id == service.subscription_id,
        service.received(message).queued == service.queued,
        service.received(message).link == service.link,
        service.received(message).futures == service.futures.received(
            service.subscription_id,
            message,
        ),
{
}

/// A new state of the connection changes nothing else of a service.
pub proof fn law_the_link_changes_alone<RECV, SND>(
    service: ServiceView<RECV, SND>,
    link: ReadyState,
)
    ensures
        service.with_link(link).link == link,
        service.with_link(link).subscription_id == service.subscription_id,
        service.with_link(link).queued == service.queued,
        service.with_link(link).futures == service.futures,
{
}

/// Access to the futures of a service changes nothing else of it.
pub proof fn law_the_futures_change_alone<RECV, SND>(
    service: ServiceView<RECV, SND>,
    futures: MessageFuturesView<RECV>,
)
    ensures
        service.with_futures(futures).futures == futures,
        service.with_futures(futures).subscription_id == service.subscription_id,
        service.with_futures(futures).queued == service.queued,
        service.with_futures(futures).link == service.link,
{
}

} // verus!
