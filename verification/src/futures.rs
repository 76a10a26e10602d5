//! The futures of a message service: which replies are still awaited, and
//! what has arrived for whom.
//!
//! Every future has a slot, which holds what the future and the service share
//! about it. A message id that still awaits its reply leads to the slot of the
//! future that waits for it.

use crate::message::Message;
use crate::waker::{shared_message, waker_of, Waiting, WakerMessage};
use dashmap::DashMap;
use std::collections::hash_map::RandomState;
use std::collections::HashMap;
use std::sync::Arc;
use std::task::Waker;
use vstd::prelude::*;

verus! {

broadcast use vstd::std_specs::hash::group_hash_axioms;

/// The concurrent map `dashmap::DashMap`. Verification sees nothing of it but
/// the name [`registered`] for what it holds. It is changed only by the
/// functions below, which take it by `&mut`: nobody else holds a reference
/// into it then, so what it holds changes by these calls alone, and none of
/// them waits for a lock.
#[verifier::external_type_specification]
#[verifier::external_body]
#[verifier::reject_recursive_types(K)]
#[verifier::reject_recursive_types(V)]
#[verifier::reject_recursive_types(S)]
pub struct ExDashMap<K, V, S>(DashMap<K, V, S>);

/// The slot that each registered message id leads to in `map`.
pub uninterp spec fn registered(map: DashMap<u32, u64, RandomState>) -> Map<u32, u64>;

/// `DashMap::default`: the map holds nothing.
#[verifier::external_body]
fn new_registry() -> (registry: DashMap<u32, u64, RandomState>)
    ensures
        registered(registry) == (Map::<u32, u64>::empty()),
{
    DashMap::default()
}

/// `DashMap::insert`: `message_id` leads to `slot` afterwards, whatever it led
/// to before, and nothing else changes. The slot it led to before is returned.
#[verifier::external_body]
fn registry_insert(
    map: &mut DashMap<u32, u64, RandomState>,
    message_id: u32,
    slot: u64,
) -> (replaced: Option<u64>)
    ensures
        registered(*final(map)) == registered(*old(map)).insert(message_id, slot),
        replaced == (if registered(*old(map)).contains_key(message_id) {
            Some(registered(*old(map))[message_id])
        } else {
            None
        }),
{
    map.insert(message_id, slot)
}

/// `DashMap::contains_key`: whether `message_id` leads to a slot.
#[verifier::external_body]
fn registry_contains(map: &DashMap<u32, u64, RandomState>, message_id: u32) -> (found: bool)
    ensures
        found == registered(*map).contains_key(message_id),
{
    map.contains_key(&message_id)
}

/// `DashMap::remove`: `message_id` leads nowhere afterwards, and nothing else
/// changes. It is returned with the slot that it led to before, if any.
#[verifier::external_body]
fn registry_remove(
    map: &mut DashMap<u32, u64, RandomState>,
    message_id: u32,
) -> (removed: Option<(u32, u64)>)
    ensures
        registered(*final(map)) == registered(*old(map)).remove(message_id),
        removed == (if registered(*old(map)).contains_key(message_id) {
            Some((message_id, registered(*old(map))[message_id]))
        } else {
            None
        }),
{
    map.remove(&message_id)
}

/// A message that will be received in the future.
pub struct MessageFuture<RECV> {
    message: WakerMessage<RECV>,
}

impl<RECV> View for MessageFuture<RECV> {
    type V = Waiting<RECV>;

    closed spec fn view(&self) -> Waiting<RECV> {
        self.message@
    }
}

impl<RECV> MessageFuture<RECV> {
    /// A future that nobody has polled and nothing has arrived for.
    pub fn new() -> (future: Self)
        ensures
            future@ == Waiting::<RECV>::fresh(),
    {
        MessageFuture { message: WakerMessage::default() }
    }

    /// Polls for the message on behalf of the task behind `waker`: the message
    /// if it has arrived, and otherwise `None`, with `waker` kept to be woken.
    pub fn poll(&mut self, waker: Waker) -> (ready: Option<Arc<RECV>>)
        ensures
            shared_message(ready) == old(self)@.message,
            final(self)@ == old(self)@.polled(waker),
    {
        self.message.poll(waker)
    }

    /// Lets the message arrive, and hands out the waker of the task to wake,
    /// if any waits.
    pub fn resolve(&mut self, message: RECV) -> (woken: Option<&Waker>)
        ensures
            final(self)@ == old(self)@.resolved(message),
            waker_of(woken) == old(self)@.waker,
    {
        self.message.resolve(message)
    }
}

/// What is kept in a slot.
pub struct SlotView<RECV> {
    /// What the future and the service share.
    pub waiting: Waiting<RECV>,
    /// The message id whose reply the slot awaits, as long as that id leads
    /// here.
    pub awaits: Option<u32>,
    /// Whether the future exists. It may be dropped while its reply is still
    /// awaited.
    pub held: bool,
}

impl<RECV> SlotView<RECV> {
    /// The slot of a new future for the reply to `message_id`.
    pub open spec fn opened(message_id: u32) -> Self {
        SlotView { waiting: Waiting::fresh(), awaits: Some(message_id), held: true }
    }

    /// The slot after a poll of its future.
    pub open spec fn polled(self, waker: Waker) -> Self {
        SlotView { waiting: self.waiting.polled(waker), awaits: self.awaits, held: self.held }
    }

    /// The slot after its reply came.
    pub open spec fn resolved(self, message: RECV) -> Self {
        SlotView { waiting: self.waiting.resolved(message), awaits: None, held: self.held }
    }

    /// The slot after its message id was taken for another future.
    pub open spec fn replaced(self) -> Self {
        SlotView { waiting: self.waiting, awaits: None, held: self.held }
    }

    /// The slot after its future was dropped.
    pub open spec fn dropped(self) -> Self {
        SlotView { waiting: self.waiting, awaits: self.awaits, held: false }
    }

    /// Whether anybody can still reach the slot: its future, or a reply.
    pub open spec fn is_needed(self) -> bool {
        self.held || self.awaits is Some
    }
}

/// The state of a [`MessageFuturesMap`].
#[verifier::ext_equal]
pub struct MessageFuturesView<RECV> {
    /// The slot that each awaited message id leads to.
    pub pending: Map<u32, u64>,
    /// What each slot in use holds.
    pub slots: Map<u64, SlotView<RECV>>,
    /// The slot of the next future. No slot from here on has been used.
    pub next_slot: u64,
}

impl<RECV> MessageFuturesView<RECV> {
    /// No future has been registered.
    pub open spec fn empty() -> Self {
        MessageFuturesView { pending: Map::empty(), slots: Map::empty(), next_slot: 0 }
    }

    /// What every operation keeps: ids and slots lead to each other, so that
    /// no two ids lead to one slot; whoever is still awaited has no message
    /// yet; a slot is in use just as long as somebody can reach it, and is
    /// never used twice.
    pub open spec fn wf(self) -> bool {
        &&& forall|id: u32| #[trigger]
            self.pending.contains_key(id) ==> {
                &&& self.slots.contains_key(self.pending[id])
                &&& self.slots[self.pending[id]].awaits == Some(id)
                &&& self.slots[self.pending[id]].waiting.message is None
            }
        &&& forall|slot: u64| #[trigger]
            self.slots.contains_key(slot) ==> {
                &&& slot < self.next_slot
                &&& self.slots[slot].is_needed()
                &&& self.slots[slot].awaits matches Some(id) ==> self.pending.contains_key(id)
                    && self.pending[id] == slot
            }
    }

    /// There is a slot left for one more future.
    pub open spec fn has_room(self) -> bool {
        self.next_slot < u64::MAX
    }

    /// The slots with `slot` holding `content`, or given up if nobody can
    /// reach that.
    pub open spec fn with_slot(self, slot: u64, content: SlotView<RECV>) -> Map<
        u64,
        SlotView<RECV>,
    > {
        if content.is_needed() {
            self.slots.insert(slot, content)
        } else {
            self.slots.remove(slot)
        }
    }

    /// After a new future was registered for `message_id`. A future that was
    /// registered for the same id before is no longer reachable by it.
    pub open spec fn opened(self, message_id: u32) -> Self {
        let slots = if self.pending.contains_key(message_id) {
            let replaced = self.pending[message_id];
            self.with_slot(replaced, self.slots[replaced].replaced())
        } else {
            self.slots
        };
        MessageFuturesView {
            pending: self.pending.insert(message_id, self.next_slot),
            slots: slots.insert(self.next_slot, SlotView::opened(message_id)),
            next_slot: (self.next_slot + 1) as u64,
        }
    }

    /// Whether `message` is one that the service with `subscription_id` waits
    /// for.
    pub open spec fn awaits(self, subscription_id: u32, message: Message<RECV>) -> bool {
        message.subscription_id == subscription_id && self.pending.contains_key(message.message_id)
    }

    /// After `message` reached the service with `subscription_id`.
    pub open spec fn received(self, subscription_id: u32, message: Message<RECV>) -> Self {
        if !self.awaits(subscription_id, message) {
            self
        } else {
            let slot = self.pending[message.message_id];
            MessageFuturesView {
                pending: self.pending.remove(message.message_id),
                slots: self.with_slot(slot, self.slots[slot].resolved(message.inner)),
                next_slot: self.next_slot,
            }
        }
    }

    /// Whom `message` wakes when it reaches the service with
    /// `subscription_id`: the task that polled last for it.
    pub open spec fn woken(self, subscription_id: u32, message: Message<RECV>) -> Option<Waker> {
        if self.awaits(subscription_id, message) {
            self.slots[self.pending[message.message_id]].waiting.waker
        } else {
            None
        }
    }

    /// Whether there is a future in `slot`.
    pub open spec fn has_future(self, slot: u64) -> bool {
        self.slots.contains_key(slot) && self.slots[slot].held
    }

    /// What a poll of the future in `slot` finds. Where there is no future,
    /// there is nothing to find.
    pub open spec fn found(self, slot: u64) -> Option<RECV> {
        if self.has_future(slot) {
            self.slots[slot].waiting.message
        } else {
            None
        }
    }

    /// After a poll of the future in `slot`. Where there is no future, nothing
    /// changes.
    pub open spec fn polled(self, slot: u64, waker: Waker) -> Self {
        if self.has_future(slot) {
            MessageFuturesView {
                pending: self.pending,
                slots: self.slots.insert(slot, self.slots[slot].polled(waker)),
                next_slot: self.next_slot,
            }
        } else {
            self
        }
    }

    /// After the future in `slot` was dropped. Where there is none, nothing
    /// changes.
    pub open spec fn closed(self, slot: u64) -> Self {
        if self.has_future(slot) {
            MessageFuturesView {
                pending: self.pending,
                slots: self.with_slot(slot, self.slots[slot].dropped()),
                next_slot: self.next_slot,
            }
        } else {
            self
        }
    }
}

/// A task to wake.
pub enum Woken<'a> {
    /// The waker of a future that exists. It stays with the future.
    Held(&'a Waker),
    /// The waker that a dropped future has left behind.
    Left(Waker),
}

/// The waker of the task to wake.
pub open spec fn woken_task(woken: Option<Woken<'_>>) -> Option<Waker> {
    match woken {
        Some(Woken::Held(waker)) => Some(*waker),
        Some(Woken::Left(waker)) => Some(waker),
        None => None,
    }
}

struct Slot<RECV> {
    future: MessageFuture<RECV>,
    awaits: Option<u32>,
    held: bool,
}

impl<RECV> View for Slot<RECV> {
    type V = SlotView<RECV>;

    closed spec fn view(&self) -> SlotView<RECV> {
        SlotView { waiting: self.future@, awaits: self.awaits, held: self.held }
    }
}

/// A map of message ids to the futures that wait for the replies.
pub struct MessageFuturesMap<RECV> {
    pending: DashMap<u32, u64, RandomState>,
    slots: HashMap<u64, Slot<RECV>>,
    next_slot: u64,
}

impl<RECV> View for MessageFuturesMap<RECV> {
    type V = MessageFuturesView<RECV>;

    closed spec fn view(&self) -> MessageFuturesView<RECV> {
        MessageFuturesView {
            pending: registered(self.pending),
            slots: self.slots@.map_values(|slot: Slot<RECV>| slot@),
            next_slot: self.next_slot,
        }
    }
}

impl<RECV> Default for MessageFuturesMap<RECV> {
    fn default() -> (map: Self)
        ensures
            map@ == MessageFuturesView::<RECV>::empty(),
            map@.wf(),
    {
        let map = MessageFuturesMap {
            pending: new_registry(),
            slots: HashMap::new(),
            next_slot: 0,
        };
        assert(map@ =~= MessageFuturesView::<RECV>::empty());
        map
    }
}

impl<RECV> MessageFuturesMap<RECV> {
    /// Whether there is a slot left for one more future.
    pub fn has_room(&self) -> (room: bool)
        ensures
            room == self@.has_room(),
            room <==> self@.next_slot < u64::MAX,
    {
        self.next_slot < u64::MAX
    }

    /// Registers a new future for the reply to `message_id`, and returns its
    /// slot.
    pub fn open(&mut self, message_id: u32) -> (slot: u64)
        requires
            old(self)@.wf(),
            old(self)@.has_room(),
        ensures
            slot == old(self)@.next_slot,
            final(self)@ == old(self)@.opened(message_id),
            final(self)@.wf(),
    {
        let slot: u64 = self.next_slot;
        if let Some(replaced) = registry_insert(&mut self.pending, message_id, slot) {
            if let Some(content) = self.slots.remove(&replaced) {
                if content.held {
                    self.slots.insert(
                        replaced,
                        Slot { future: content.future, awaits: None, held: true },
                    );
                }
            }
        }
        self.slots.insert(
            slot,
            Slot { future: MessageFuture::new(), awaits: Some(message_id), held: true },
        );
        self.next_slot = slot + 1;
        assert(self@ =~= old(self)@.opened(message_id));
        slot
    }

    /// Handle a message coming from the backend: resolve the pending future
    /// with matching message id, if there is one, and hand out the waker of
    /// the task to wake. A message for another subscription is left alone.
    pub fn response_handler(&mut self, subscription_id: u32, message: Message<RECV>) -> (woken:
        Option<Woken<'_>>)
        requires
            old(self)@.wf(),
        ensures
            final(self)@ == old(self)@.received(subscription_id, message),
            woken_task(woken) == old(self)@.woken(subscription_id, message),
            final(self)@.wf(),
    {
        if message.subscription_id != subscription_id {
            return None;
        }
        if !registry_contains(&self.pending, message.message_id) {
            return None;
        }
        let slot: u64 = match registry_remove(&mut self.pending, message.message_id) {
            Some((_, slot)) => slot,
            None => {
                return None;
            },
        };
        let content = match self.slots.remove(&slot) {
            Some(content) => content,
            None => {
                return None;
            },
        };
        if !content.held {
            assert(self@ =~= old(self)@.received(subscription_id, message));
            return match content.future.message.waker {
                Some(waker) => Some(Woken::Left(waker)),
                None => None,
            };
        }
        let mut future = content.future;
        future.resolve(message.inner);
        self.slots.insert(slot, Slot { future, awaits: None, held: true });
        assert(self@ =~= old(self)@.received(subscription_id, message));
        match self.slots.get(&slot) {
            Some(content) => match &content.future.message.waker {
                Some(waker) => Some(Woken::Held(waker)),
                None => None,
            },
            None => None,
        }
    }

    /// Polls the future in `slot` on behalf of the task behind `waker`. Where
    /// there is no future in `slot`, nothing is found and nothing changes.
    pub fn poll(&mut self, slot: u64, waker: Waker) -> (ready: Option<Arc<RECV>>)
        requires
            old(self)@.wf(),
        ensures
            shared_message(ready) == old(self)@.found(slot),
            final(self)@ == old(self)@.polled(slot, waker),
            final(self)@.wf(),
    {
        match self.slots.remove(&slot) {
            Some(mut content) => {
                let ready = if content.held {
                    content.future.poll(waker)
                } else {
                    None
                };
                self.slots.insert(slot, content);
                assert(self@ =~= old(self)@.polled(slot, waker));
                ready
            },
            None => {
                assert(self@ =~= old(self)@.polled(slot, waker));
                None
            },
        }
    }

    /// Gives up the future in `slot`, which was dropped. As long as its reply
    /// is awaited, the task that polled it last is still to be woken.
    pub fn close(&mut self, slot: u64)
        requires
            old(self)@.wf(),
        ensures
            final(self)@ == old(self)@.closed(slot),
            final(self)@.wf(),
    {
        if let Some(content) = self.slots.remove(&slot) {
            if content.awaits.is_some() {
                self.slots.insert(
                    slot,
                    Slot { future: content.future, awaits: content.awaits, held: false },
                );
            }
        }
        assert(self@ =~= old(self)@.closed(slot));
    }
}

} // verus!
