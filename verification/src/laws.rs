//! What holds of requests and replies, whatever happens in between.

use crate::backend::reply_for;
use crate::frontend::{Outgoing, ReadyState, ServiceView};
use crate::futures::MessageFuturesView;
use crate::message::Message;
use std::task::Waker;
use vstd::prelude::*;

verus! {

/// Something that happens to the futures of a service.
pub enum Step<RECV> {
    /// A future is registered for a message id.
    Open(u32),
    /// A message arrives.
    Receive(Message<RECV>),
    /// The future in a slot is polled.
    Poll(u64, Waker),
    /// The future in a slot is dropped.
    Close(u64),
}

/// Whether `step` can happen to `futures`: a future is registered while there
/// is room.
pub open spec fn can_happen<RECV>(futures: MessageFuturesView<RECV>, step: Step<RECV>) -> bool {
    match step {
        Step::Open(_) => futures.has_room(),
        _ => true,
    }
}

/// The futures of the service with `subscription_id` after `step`.
pub open spec fn after_step<RECV>(
    futures: MessageFuturesView<RECV>,
    subscription_id: u32,
    step: Step<RECV>,
) -> MessageFuturesView<RECV> {
    match step {
        Step::Open(message_id) => futures.opened(message_id),
        Step::Receive(message) => futures.received(subscription_id, message),
        Step::Poll(slot, waker) => futures.polled(slot, waker),
        Step::Close(slot) => futures.closed(slot),
    }
}

/// The futures of the service with `subscription_id` after all of `steps`.
pub open spec fn after_steps<RECV>(
    futures: MessageFuturesView<RECV>,
    subscription_id: u32,
    steps: Seq<Step<RECV>>,
) -> MessageFuturesView<RECV>
    decreases steps.len(),
{
    if steps.len() == 0 {
        futures
    } else {
        after_steps(
            after_step(futures, subscription_id, steps.first()),
            subscription_id,
            steps.drop_first(),
        )
    }
}

/// Whether `steps` can happen to `futures` one after another.
pub open spec fn all_can_happen<RECV>(
    futures: MessageFuturesView<RECV>,
    subscription_id: u32,
    steps: Seq<Step<RECV>>,
) -> bool
    decreases steps.len(),
{
    steps.len() == 0 || {
        &&& can_happen(futures, steps.first())
        &&& all_can_happen(
            after_step(futures, subscription_id, steps.first()),
            subscription_id,
            steps.drop_first(),
        )
    }
}

/// The reply that `steps` hold for the future registered for `message_id`: the
/// first message at its address, unless the id is taken for another future
/// before it comes.
pub open spec fn reply_among<RECV>(
    subscription_id: u32,
    message_id: u32,
    steps: Seq<Step<RECV>>,
) -> Option<RECV>
    decreases steps.len(),
{
    if steps.len() == 0 {
        None
    } else {
        match steps.first() {
            Step::Open(id) if id == message_id => None,
            Step::Receive(message) if message.subscription_id == subscription_id
                && message.message_id == message_id => Some(message.inner),
            _ => reply_among(subscription_id, message_id, steps.drop_first()),
        }
    }
}

/// Whether the future in `slot` survives `steps`.
pub open spec fn stays_open<RECV>(slot: u64, steps: Seq<Step<RECV>>) -> bool {
    forall|i: int| 0 <= i < steps.len() ==> #[trigger] steps[i] != Step::<RECV>::Close(slot)
}

/// The invariant of the futures survives every step.
pub proof fn law_every_step_keeps_the_invariant<RECV>(
    futures: MessageFuturesView<RECV>,
    subscription_id: u32,
    step: Step<RECV>,
)
    requires
        futures.wf(),
        can_happen(futures, step),
    ensures
        after_step(futures, subscription_id, step).wf(),
{
}

proof fn lemma_steps_keep_the_invariant<RECV>(
    futures: MessageFuturesView<RECV>,
    subscription_id: u32,
    steps: Seq<Step<RECV>>,
)
    requires
        futures.wf(),
        all_can_happen(futures, subscription_id, steps),
    ensures
        after_steps(futures, subscription_id, steps).wf(),
    decreases steps.len(),
{
    if steps.len() > 0 {
        law_every_step_keeps_the_invariant(futures, subscription_id, steps.first());
        lemma_steps_keep_the_invariant(
            after_step(futures, subscription_id, steps.first()),
            subscription_id,
            steps.drop_first(),
        );
    }
}

/// The invariant holds in every state that the futures of a service can reach.
pub proof fn law_the_invariant_always_holds<RECV>(subscription_id: u32, steps: Seq<Step<RECV>>)
    requires
        all_can_happen(MessageFuturesView::<RECV>::empty(), subscription_id, steps),
    ensures
        after_steps(MessageFuturesView::<RECV>::empty(), subscription_id, steps).wf(),
{
    lemma_steps_keep_the_invariant(MessageFuturesView::empty(), subscription_id, steps);
}

proof fn lemma_tail_stays_open<RECV>(slot: u64, steps: Seq<Step<RECV>>)
    requires
        steps.len() > 0,
        stays_open(slot, steps),
    ensures
        steps.first() != Step::<RECV>::Close(slot),
        stays_open(slot, steps.drop_first()),
{
    assert(steps[0] != Step::<RECV>::Close(slot));
    let rest = steps.drop_first();
    assert forall|i: int| 0 <= i < rest.len() implies #[trigger] rest[i] != Step::<RECV>::Close(
        slot,
    ) by {
        assert(rest[i] == steps[i + 1]);
    }
}

proof fn lemma_unawaited<RECV>(
    futures: MessageFuturesView<RECV>,
    subscription_id: u32,
    slot: u64,
    steps: Seq<Step<RECV>>,
)
    requires
        futures.wf(),
        all_can_happen(futures, subscription_id, steps),
        futures.has_future(slot),
        futures.slots[slot].awaits is None,
        stays_open(slot, steps),
    ensures
        after_steps(futures, subscription_id, steps).has_future(slot),
        after_steps(futures, subscription_id, steps).found(slot) == futures.found(slot),
    decreases steps.len(),
{
    if steps.len() > 0 {
        let step = steps.first();
        let after = after_step(futures, subscription_id, step);
        lemma_tail_stays_open(slot, steps);
        law_every_step_keeps_the_invariant(futures, subscription_id, step);
        assert(after.has_future(slot) && after.slots[slot].awaits is None && after.found(slot)
            == futures.found(slot));
        lemma_unawaited(after, subscription_id, slot, steps.drop_first());
    }
}

proof fn lemma_awaited<RECV>(
    futures: MessageFuturesView<RECV>,
    subscription_id: u32,
    message_id: u32,
    slot: u64,
    steps: Seq<Step<RECV>>,
)
    requires
        futures.wf(),
        all_can_happen(futures, subscription_id, steps),
        futures.has_future(slot),
        futures.slots[slot].awaits == Some(message_id),
        stays_open(slot, steps),
    ensures
        after_steps(futures, subscription_id, steps).has_future(slot),
        after_steps(futures, subscription_id, steps).found(slot) == reply_among(
            subscription_id,
            message_id,
            steps,
        ),
    decreases steps.len(),
{
    if steps.len() > 0 {
        let step = steps.first();
        let rest = steps.drop_first();
        let after = after_step(futures, subscription_id, step);
        lemma_tail_stays_open(slot, steps);
        law_every_step_keeps_the_invariant(futures, subscription_id, step);
        let taken = step == Step::<RECV>::Open(message_id);
        let answered = step matches Step::Receive(message) && message.subscription_id
            == subscription_id && message.message_id == message_id;
        assert(after.has_future(slot));
        if taken || answered {
            assert(after.slots[slot].awaits is None);
            lemma_unawaited(after, subscription_id, slot, rest);
        } else {
            assert(after.slots[slot].awaits == Some(message_id));
            lemma_awaited(after, subscription_id, message_id, slot, rest);
        }
    }
}

/// Each future gets its own reply and no other. Whatever happens to the
/// service after a future was registered for `message_id`, a poll finds
/// exactly the first message that came at its address since, unless the id was
/// taken for another future before.
pub proof fn law_each_future_gets_its_own_reply<RECV>(
    futures: MessageFuturesView<RECV>,
    subscription_id: u32,
    message_id: u32,
    steps: Seq<Step<RECV>>,
)
    requires
        futures.wf(),
        futures.has_room(),
        all_can_happen(futures.opened(message_id), subscription_id, steps),
        stays_open(futures.next_slot, steps),
    ensures
        ({
            let after = after_steps(futures.opened(message_id), subscription_id, steps);
            &&& after.has_future(futures.next_slot)
            &&& after.found(futures.next_slot) == reply_among(subscription_id, message_id, steps)
        }),
{
    law_every_step_keeps_the_invariant(futures, subscription_id, Step::Open(message_id));
    lemma_awaited(
        futures.opened(message_id),
        subscription_id,
        message_id,
        futures.next_slot,
        steps,
    );
}

/// A reply is kept. Once a poll finds a message, every later poll finds the
/// same message, whatever happens, as long as the future is not dropped.
pub proof fn law_a_reply_is_kept<RECV>(
    futures: MessageFuturesView<RECV>,
    subscription_id: u32,
    slot: u64,
    steps: Seq<Step<RECV>>,
)
    requires
        futures.wf(),
        futures.found(slot) is Some,
        all_can_happen(futures, subscription_id, steps),
        stays_open(slot, steps),
    ensures
        after_steps(futures, subscription_id, steps).found(slot) == futures.found(slot),
{
    lemma_unawaited(futures, subscription_id, slot, steps);
}

/// A message that nobody waits for changes nothing and wakes nobody: one for
/// another subscription, or one under an id that is not registered.
pub proof fn law_strangers_are_ignored<RECV>(
    futures: MessageFuturesView<RECV>,
    subscription_id: u32,
    message: Message<RECV>,
)
    requires
        message.subscription_id != subscription_id || !futures.pending.contains_key(
            message.message_id,
        ),
    ensures
        futures.received(subscription_id, message) == futures,
        futures.woken(subscription_id, message) is None,
{
}

/// A message touches no future but the one that it is for: whoever does not
/// await its id finds what there was to find before, and goes on waiting for
/// whatever it waited for.
pub proof fn law_a_message_touches_no_other_future<RECV>(
    futures: MessageFuturesView<RECV>,
    subscription_id: u32,
    message: Message<RECV>,
    other: u64,
)
    requires
        futures.wf(),
        futures.slots.contains_key(other),
        futures.slots[other].awaits != Some(message.message_id),
    ensures
        ({
            let after = futures.received(subscription_id, message);
            &&& after.slots.contains_key(other)
            &&& after.slots[other] == futures.slots[other]
            &&& after.found(other) == futures.found(other)
        }),
{
}

/// A message is answered once. After a message arrived, a second one under the
/// same id changes nothing and wakes nobody.
pub proof fn law_only_the_first_reply_counts<RECV>(
    futures: MessageFuturesView<RECV>,
    subscription_id: u32,
    first: Message<RECV>,
    second: Message<RECV>,
)
    requires
        first.subscription_id == subscription_id,
        second.message_id == first.message_id,
    ensures
        ({
            let after = futures.received(subscription_id, first);
            &&& after.received(subscription_id, second) == after
            &&& after.woken(subscription_id, second) is None
        }),
{
}

/// Whether `step` leaves `message_id` registered as it is: it does not take
/// the id for another future or bring its reply.
pub open spec fn leaves_registered<RECV>(
    subscription_id: u32,
    message_id: u32,
    step: Step<RECV>,
) -> bool {
    match step {
        Step::Open(id) => id != message_id,
        Step::Receive(message) => message.subscription_id != subscription_id || message.message_id
            != message_id,
        Step::Poll(..) | Step::Close(_) => true,
    }
}

/// Whether all of `steps` leave `message_id` registered as it is.
pub open spec fn all_leave_registered<RECV>(
    subscription_id: u32,
    message_id: u32,
    steps: Seq<Step<RECV>>,
) -> bool {
    forall|i: int|
        0 <= i < steps.len() ==> leaves_registered(
            subscription_id,
            message_id,
            #[trigger] steps[i],
        )
}

/// Whether none of `steps` polls the future in `slot`.
pub open spec fn none_polls<RECV>(slot: u64, steps: Seq<Step<RECV>>) -> bool {
    forall|i: int|
        0 <= i < steps.len() ==> !(#[trigger] steps[i] matches Step::Poll(polled, _) && polled
            == slot)
}

proof fn lemma_still_registered<RECV>(
    futures: MessageFuturesView<RECV>,
    subscription_id: u32,
    message_id: u32,
    slot: u64,
    steps: Seq<Step<RECV>>,
)
    requires
        futures.wf(),
        futures.pending.contains_key(message_id),
        futures.pending[message_id] == slot,
        all_can_happen(futures, subscription_id, steps),
        all_leave_registered(subscription_id, message_id, steps),
    ensures
        ({
            let after = after_steps(futures, subscription_id, steps);
            &&& after.pending.contains_key(message_id)
            &&& after.pending[message_id] == slot
            &&& none_polls(slot, steps) ==> after.slots[slot].waiting
                == futures.slots[slot].waiting
        }),
    decreases steps.len(),
{
    if steps.len() > 0 {
        let step = steps.first();
        let rest = steps.drop_first();
        let after = after_step(futures, subscription_id, step);
        assert(leaves_registered(subscription_id, message_id, steps[0]));
        law_every_step_keeps_the_invariant(futures, subscription_id, step);
        assert forall|i: int| 0 <= i < rest.len() implies leaves_registered(
            subscription_id,
            message_id,
            #[trigger] rest[i],
        ) by {
            assert(rest[i] == steps[i + 1]);
        }
        if none_polls(slot, steps) {
            assert(!(steps[0] matches Step::Poll(polled, _) && polled == slot));
            assert forall|i: int| 0 <= i < rest.len() implies !(#[trigger] rest[i] matches Step::Poll(
                polled,
                _,
            ) && polled == slot) by {
                assert(rest[i] == steps[i + 1]);
            }
            assert(after.slots[slot].waiting == futures.slots[slot].waiting);
        }
        lemma_still_registered(after, subscription_id, message_id, slot, rest);
    }
}

/// The reply wakes whoever polled last. When a future that waits for a reply
/// is polled, and then other things happen, the reply wakes the task that
/// polled, even if the future was dropped since.
pub proof fn law_the_reply_wakes_the_last_to_poll<RECV>(
    futures: MessageFuturesView<RECV>,
    subscription_id: u32,
    slot: u64,
    waker: Waker,
    steps: Seq<Step<RECV>>,
    reply: Message<RECV>,
)
    requires
        futures.wf(),
        futures.has_future(slot),
        futures.slots[slot].awaits == Some(reply.message_id),
        reply.subscription_id == subscription_id,
        all_can_happen(futures.polled(slot, waker), subscription_id, steps),
        all_leave_registered(subscription_id, reply.message_id, steps),
        none_polls(slot, steps),
    ensures
        after_steps(futures.polled(slot, waker), subscription_id, steps).woken(
            subscription_id,
            reply,
        ) == Some(waker),
{
    law_every_step_keeps_the_invariant(futures, subscription_id, Step::Poll(slot, waker));
    assert(futures.pending.contains_key(reply.message_id) && futures.pending[reply.message_id]
        == slot);
    lemma_still_registered(
        futures.polled(slot, waker),
        subscription_id,
        reply.message_id,
        slot,
        steps,
    );
}

/// A request and its reply find each other. When a service sends a message and
/// the backend's handler has a response to it, the reply that the backend
/// makes resolves the future of that message with that response, whatever
/// happens at the service in between, unless it drops that future, takes its
/// id for another one or brings another reply to it.
pub proof fn law_a_response_resolves_its_request<RECV, SND>(
    service: ServiceView<RECV, SND>,
    message_id: u32,
    inner: SND,
    steps: Seq<Step<RECV>>,
    response: RECV,
)
    requires
        service.futures.wf(),
        service.futures.has_room(),
        all_can_happen(
            service.sent(service.message(message_id, inner)).futures,
            service.subscription_id,
            steps,
        ),
        all_leave_registered(service.subscription_id, message_id, steps),
        stays_open(service.futures.next_slot, steps),
    ensures
        ({
            let request = service.message(message_id, inner);
            let sent = service.sent(request);
            let waiting = sent.with_futures(
                after_steps(sent.futures, service.subscription_id, steps),
            );
            let future = service.futures.next_slot;
            &&& service.link == ReadyState::Open ==> service.outgoing(request)
                == Outgoing::Transmit(request)
            &&& waiting.futures.has_future(future)
            &&& waiting.futures.found(future) is None
            &&& reply_for(request.address(), Some(response)) matches Some(reply)
            &&& waiting.received(reply).futures.found(future) == Some(response)
            &&& !waiting.received(reply).futures.pending.contains_key(message_id)
        }),
{
    let sent = service.sent(service.message(message_id, inner));
    let future = service.futures.next_slot;
    law_every_step_keeps_the_invariant(
        service.futures,
        service.subscription_id,
        Step::Open(message_id),
    );
    lemma_still_registered(sent.futures, service.subscription_id, message_id, future, steps);
    lemma_steps_keep_the_invariant(sent.futures, service.subscription_id, steps);
    lemma_awaited(sent.futures, service.subscription_id, message_id, future, steps);
}

/// Services do not get each other's replies: the reply to a message of one
/// service leaves a service under another subscription id as it was.
pub proof fn law_services_do_not_mix<RECV, SND>(
    sender: ServiceView<RECV, SND>,
    other: ServiceView<RECV, SND>,
    message_id: u32,
    inner: SND,
    response: RECV,
)
    requires
        sender.subscription_id != other.subscription_id,
    ensures
        reply_for(sender.message(message_id, inner).address(), Some(response)) matches Some(reply)
            && other.received(reply) == other && other.futures.woken(other.subscription_id, reply)
            is None,
{
}

/// A service after all of `messages` were sent.
pub open spec fn after_sends<RECV, SND>(
    service: ServiceView<RECV, SND>,
    messages: Seq<Message<SND>>,
) -> ServiceView<RECV, SND>
    decreases messages.len(),
{
    if messages.len() == 0 {
        service
    } else {
        after_sends(service, messages.drop_last()).sent(messages.last())
    }
}

/// Messages that are sent while the connection is being made are all there
/// when it opens, behind those that were queued before, in the order in which
/// they were sent.
pub proof fn law_early_messages_keep_their_order<RECV, SND>(
    service: ServiceView<RECV, SND>,
    messages: Seq<Message<SND>>,
)
    requires
        service.link == ReadyState::Connecting,
    ensures
        after_sends(service, messages).link == ReadyState::Connecting,
        after_sends(service, messages).queued == service.queued + messages,
        after_sends(service, messages).with_link(ReadyState::Open).queued == service.queued
            + messages,
    decreases messages.len(),
{
    if messages.len() > 0 {
        law_early_messages_keep_their_order(service, messages.drop_last());
        assert((service.queued + messages.drop_last()).push(messages.last()) =~= service.queued
            + messages);
    } else {
        assert(service.queued + messages =~= service.queued);
    }
}

} // verus!
