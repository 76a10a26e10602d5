//! What holds of a service, whatever happens to it.

use crate::frontend::{Outgoing, QueueStep, ReadyState, ServiceView, WebsocketSendMessageData};
use crate::futures::MessageFuturesView;
use crate::laws::{
    after_step, after_steps, all_can_happen, can_happen, law_each_future_gets_its_own_reply,
    law_every_step_keeps_the_invariant, law_the_invariant_always_holds, reply_among, stays_open,
    Step,
};
use crate::message::Message;
use std::task::Waker;
use vstd::prelude::*;

verus! {

/// Something that happens to a service.
pub enum ServiceStep<RECV, SND> {
    /// A message is sent.
    Send(Message<SND>),
    /// A message arrives.
    Receive(Message<RECV>),
    /// The future in a slot is polled.
    Poll(u64, Waker),
    /// The future in a slot is dropped.
    Close(u64),
    /// The connection reaches a state.
    Link(ReadyState),
}

/// `service` after `step`.
pub open spec fn after_service_step<RECV, SND>(
    service: ServiceView<RECV, SND>,
    step: ServiceStep<RECV, SND>,
) -> ServiceView<RECV, SND> {
    match step {
        ServiceStep::Send(message) => service.sent(message),
        ServiceStep::Receive(message) => service.received(message),
        ServiceStep::Poll(slot, waker) => service.with_futures(service.futures.polled(slot, waker)),
        ServiceStep::Close(slot) => service.with_futures(service.futures.closed(slot)),
        ServiceStep::Link(link) => service.with_link(link),
    }
}

/// `service` after all of `steps`.
pub open spec fn after_service_steps<RECV, SND>(
    service: ServiceView<RECV, SND>,
    steps: Seq<ServiceStep<RECV, SND>>,
) -> ServiceView<RECV, SND>
    decreases steps.len(),
{
    if steps.len() == 0 {
        service
    } else {
        after_service_steps(after_service_step(service, steps.first()), steps.drop_first())
    }
}

/// What `steps` do to the futures of a service.
pub open spec fn futures_steps<RECV, SND>(steps: Seq<ServiceStep<RECV, SND>>) -> Seq<Step<RECV>>
    decreases steps.len(),
{
    if steps.len() == 0 {
        seq![]
    } else {
        let rest = futures_steps(steps.drop_first());
        match steps.first() {
            ServiceStep::Send(message) => seq![Step::Open(message.message_id)] + rest,
            ServiceStep::Receive(message) => seq![Step::Receive(message)] + rest,
            ServiceStep::Poll(slot, waker) => seq![Step::Poll(slot, waker)] + rest,
            ServiceStep::Close(slot) => seq![Step::Close(slot)] + rest,
            ServiceStep::Link(_) => rest,
        }
    }
}

/// The messages that `steps` send while the connection is being made, when it
/// is at `link` before them.
pub open spec fn early_messages<RECV, SND>(
    link: ReadyState,
    steps: Seq<ServiceStep<RECV, SND>>,
) -> Seq<Message<SND>>
    decreases steps.len(),
{
    if steps.len() == 0 {
        seq![]
    } else {
        let rest = steps.drop_first();
        match steps.first() {
            ServiceStep::Send(message) if link == ReadyState::Connecting => seq![message]
                + early_messages(link, rest),
            ServiceStep::Link(next) => early_messages(next, rest),
            _ => early_messages(link, rest),
        }
    }
}

/// The state that the connection has reached after `steps`, when it is at
/// `link` before them.
pub open spec fn link_after<RECV, SND>(
    link: ReadyState,
    steps: Seq<ServiceStep<RECV, SND>>,
) -> ReadyState
    decreases steps.len(),
{
    if steps.len() == 0 {
        link
    } else {
        match steps.first() {
            ServiceStep::Link(next) => link_after(next, steps.drop_first()),
            _ => link_after(link, steps.drop_first()),
        }
    }
}

/// How many futures `steps` register.
pub open spec fn opens<RECV>(steps: Seq<Step<RECV>>) -> nat
    decreases steps.len(),
{
    if steps.len() == 0 {
        0
    } else {
        opens(steps.drop_first()) + if steps.first() is Open {
            1nat
        } else {
            0nat
        }
    }
}

/// The slots are used one after another: registering a future takes the next
/// one, and nothing else does.
pub proof fn law_only_registering_takes_a_slot<RECV>(
    futures: MessageFuturesView<RECV>,
    subscription_id: u32,
    step: Step<RECV>,
)
    requires
        futures.next_slot < u64::MAX,
    ensures
        MessageFuturesView::<RECV>::empty().next_slot == 0,
        after_step(futures, subscription_id, step).next_slot == futures.next_slot + opens(
            seq![step],
        ),
        step is Open <==> after_step(futures, subscription_id, step).next_slot
            == futures.next_slot + 1,
{
    reveal_with_fuel(opens, 2);
}

proof fn lemma_slots_are_counted<RECV>(
    futures: MessageFuturesView<RECV>,
    subscription_id: u32,
    steps: Seq<Step<RECV>>,
)
    requires
        futures.next_slot + opens(steps) <= u64::MAX,
    ensures
        all_can_happen(futures, subscription_id, steps),
        after_steps(futures, subscription_id, steps).next_slot == futures.next_slot + opens(steps),
    decreases steps.len(),
{
    if steps.len() > 0 {
        lemma_slots_are_counted(
            after_step(futures, subscription_id, steps.first()),
            subscription_id,
            steps.drop_first(),
        );
    }
}

/// There is room for one more future until the numbers of the slots run out,
/// and not a moment less.
pub proof fn law_there_is_room_until_the_slots_run_out<RECV>(
    futures: MessageFuturesView<RECV>,
    subscription_id: u32,
    steps: Seq<Step<RECV>>,
)
    requires
        futures.next_slot + opens(steps) <= u64::MAX,
    ensures
        futures.has_room() <==> futures.next_slot < u64::MAX,
        after_steps(futures, subscription_id, steps).has_room() <==> futures.next_slot + opens(
            steps,
        ) < u64::MAX,
        forall|message_id: u32| #[trigger]
            can_happen(futures, Step::<RECV>::Open(message_id)) <==> futures.next_slot < u64::MAX,
{
    lemma_slots_are_counted(futures, subscription_id, steps);
}

/// Anything can happen to a new service, in any order and any number, as long
/// as it does not register more futures than there are numbers for them. All
/// the while the invariant holds.
pub proof fn law_anything_can_happen<RECV>(subscription_id: u32, steps: Seq<Step<RECV>>)
    requires
        opens(steps) <= u64::MAX,
    ensures
        all_can_happen(MessageFuturesView::<RECV>::empty(), subscription_id, steps),
        after_steps(MessageFuturesView::<RECV>::empty(), subscription_id, steps).wf(),
        after_steps(MessageFuturesView::<RECV>::empty(), subscription_id, steps).next_slot == opens(
            steps,
        ),
{
    lemma_slots_are_counted(MessageFuturesView::<RECV>::empty(), subscription_id, steps);
    law_the_invariant_always_holds(subscription_id, steps);
}

/// A service keeps its subscription id, whatever happens.
pub proof fn law_the_subscription_id_never_changes<RECV, SND>(
    service: ServiceView<RECV, SND>,
    steps: Seq<ServiceStep<RECV, SND>>,
)
    ensures
        after_service_steps(service, steps).subscription_id == service.subscription_id,
    decreases steps.len(),
{
    if steps.len() > 0 {
        law_the_subscription_id_never_changes(
            after_service_step(service, steps.first()),
            steps.drop_first(),
        );
    }
}

/// The connection is in the state that it was last seen in, whatever else
/// happens.
pub proof fn law_the_link_is_the_last_one_seen<RECV, SND>(
    service: ServiceView<RECV, SND>,
    steps: Seq<ServiceStep<RECV, SND>>,
)
    ensures
        after_service_steps(service, steps).link == link_after(service.link, steps),
    decreases steps.len(),
{
    if steps.len() > 0 {
        law_the_link_is_the_last_one_seen(
            after_service_step(service, steps.first()),
            steps.drop_first(),
        );
    }
}

/// The queue holds exactly the messages that were sent while the connection
/// was being made, behind those that were queued before, in the order in which
/// they were sent. Polls, dropped futures, arriving messages and changes of
/// the connection in between neither take one out nor move one.
pub proof fn law_the_queue_holds_the_early_messages<RECV, SND>(
    service: ServiceView<RECV, SND>,
    steps: Seq<ServiceStep<RECV, SND>>,
)
    ensures
        after_service_steps(service, steps).queued == service.queued + early_messages(
            service.link,
            steps,
        ),
    decreases steps.len(),
{
    if steps.len() > 0 {
        let after = after_service_step(service, steps.first());
        let rest = steps.drop_first();
        law_the_queue_holds_the_early_messages(after, rest);
        assert(after.queued + early_messages(after.link, rest) =~= service.queued + early_messages(
            service.link,
            steps,
        ));
    } else {
        assert(service.queued + early_messages(service.link, steps) =~= service.queued);
    }
}

/// The futures of a service see what happens to the service, one step after
/// another, and see nothing of the connection.
pub proof fn law_futures_see_every_step<RECV, SND>(
    service: ServiceView<RECV, SND>,
    steps: Seq<ServiceStep<RECV, SND>>,
)
    ensures
        after_service_steps(service, steps).futures == after_steps(
            service.futures,
            service.subscription_id,
            futures_steps(steps),
        ),
    decreases steps.len(),
{
    if steps.len() > 0 {
        let rest = futures_steps(steps.drop_first());
        law_futures_see_every_step(
            after_service_step(service, steps.first()),
            steps.drop_first(),
        );
        match steps.first() {
            ServiceStep::Link(_) => {},
            _ => {
                assert(futures_steps(steps).drop_first() =~= rest);
            },
        }
    }
}

/// Each request gets its own reply and no other. Whatever happens to a service
/// after it has sent `message`, in whichever state the connection was then and
/// is now, a poll of the future of `message` finds exactly the first message
/// that came at its address since, unless the id was taken for another message
/// before.
pub proof fn law_each_request_gets_its_own_reply<RECV, SND>(
    service: ServiceView<RECV, SND>,
    message: Message<SND>,
    steps: Seq<ServiceStep<RECV, SND>>,
)
    requires
        service.futures.wf(),
        service.futures.next_slot + 1 + opens(futures_steps(steps)) <= u64::MAX,
        stays_open(service.futures.next_slot, futures_steps(steps)),
    ensures
        ({
            let after = after_service_steps(service.sent(message), steps).futures;
            let future = service.futures.next_slot;
            &&& after.slots.contains_key(future)
            &&& after.slots[future].held
            &&& after.slots[future].waiting.message == reply_among(
                service.subscription_id,
                message.message_id,
                futures_steps(steps),
            )
            &&& after.found(future) == after.slots[future].waiting.message
        }),
{
    let sent = service.sent(message);
    lemma_slots_are_counted(sent.futures, service.subscription_id, futures_steps(steps));
    law_futures_see_every_step(sent, steps);
    law_each_future_gets_its_own_reply(
        service.futures,
        service.subscription_id,
        message.message_id,
        futures_steps(steps),
    );
}

/// One service awaits many replies at a time. The replies to two of its
/// messages resolve both futures, each with its own payload, in whichever
/// order they come.
pub proof fn law_two_replies_reach_two_futures<RECV, SND>(
    service: ServiceView<RECV, SND>,
    first: Message<RECV>,
    second: Message<RECV>,
)
    requires
        service.futures.wf(),
        first.subscription_id == service.subscription_id,
        second.subscription_id == service.subscription_id,
        first.message_id != second.message_id,
        service.futures.pending.contains_key(first.message_id),
        service.futures.pending.contains_key(second.message_id),
        service.futures.slots[service.futures.pending[first.message_id]].held,
        service.futures.slots[service.futures.pending[second.message_id]].held,
    ensures
        ({
            let after = service.received(first).received(second);
            let one = service.futures.pending[first.message_id];
            let other = service.futures.pending[second.message_id];
            &&& one != other
            &&& after.futures.found(one) == Some(first.inner)
            &&& after.futures.found(other) == Some(second.inner)
            &&& !after.futures.pending.contains_key(first.message_id)
            &&& !after.futures.pending.contains_key(second.message_id)
            &&& after == service.received(second).received(first)
        }),
{
    let one = service.futures.pending[first.message_id];
    let other = service.futures.pending[second.message_id];
    assert(service.futures.slots[one].awaits == Some(first.message_id));
    assert(service.futures.slots[other].awaits == Some(second.message_id));
    law_every_step_keeps_the_invariant(
        service.futures,
        service.subscription_id,
        Step::Receive(first),
    );
    assert(service.received(first).received(second).futures =~= service.received(second).received(
        first,
    ).futures);
}

/// A message that was sent before the connection was open is answered like any
/// other: it waits in the queue, is still there when the connection opens, and
/// the reply at its address resolves its future.
pub proof fn law_an_early_message_is_answered<RECV, SND>(
    service: ServiceView<RECV, SND>,
    message: Message<SND>,
    link: ReadyState,
    reply: Message<RECV>,
)
    requires
        service.futures.wf(),
        service.futures.next_slot < u64::MAX,
        service.link == ReadyState::Connecting,
        message.subscription_id == service.subscription_id,
        reply.subscription_id == message.subscription_id,
        reply.message_id == message.message_id,
    ensures
        ({
            let opened = service.sent(message).with_link(link);
            let future = service.futures.next_slot;
            &&& service.outgoing(message) == Outgoing::<SND>::Queued
            &&& opened.link == link
            &&& opened.queued.len() == service.queued.len() + 1
            &&& opened.queued.last() == message
            &&& opened.futures.has_future(future)
            &&& opened.futures.found(future) is None
            &&& opened.received(reply).futures.found(future) == Some(reply.inner)
            &&& opened.received(reply).queued == opened.queued
        }),
{
}

/// Once the websocket is open, what is to be transmitted of the queue are
/// exactly the messages that the service has sent while it was connecting, in
/// the order in which they were sent, whatever else has happened since the
/// service was made. Before that nothing is transmitted, and after the websocket
/// has begun to close everything is rejected.
pub proof fn law_the_early_messages_are_transmitted<RECV, SND>(
    subscription_id: u32,
    steps: Seq<ServiceStep<RECV, SND>>,
    data: WebsocketSendMessageData<RECV, SND>,
    step: QueueStep<'_, SND>,
)
    requires
        data.state() == after_service_steps(
            ServiceView::<RECV, SND>::initial(subscription_id, ReadyState::Connecting),
            steps,
        ),
        call_ensures(WebsocketSendMessageData::<RECV, SND>::send_queue, (&data,), step),
    ensures
        match link_after(ReadyState::Connecting, steps) {
            ReadyState::Connecting => step is Wait,
            ReadyState::Open => step matches QueueStep::Transmit(messages) && messages@
                == early_messages(ReadyState::Connecting, steps),
            ReadyState::Closing | ReadyState::Closed => step is Rejected,
        },
{
    let service = ServiceView::<RECV, SND>::initial(subscription_id, ReadyState::Connecting);
    law_the_link_is_the_last_one_seen(service, steps);
    law_the_queue_holds_the_early_messages(service, steps);
    assert(service.queued + early_messages(service.link, steps) =~= early_messages(
        service.link,
        steps,
    ));
}

} // verus!
