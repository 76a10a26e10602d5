use std::sync::atomic::{AtomicUsize, Ordering};
use std::sync::Arc;
use std::task::{Wake, Waker};
use yew_webview_bridge::{Message, MessageFuture, MessageFuturesMap, WakerMessage, Woken};

struct Bell {
    rings: AtomicUsize,
}

impl Wake for Bell {
    fn wake(self: Arc<Self>) {
        self.rings.fetch_add(1, Ordering::SeqCst);
    }
}

fn bell() -> (Arc<Bell>, Waker) {
    let bell = Arc::new(Bell {
        rings: AtomicUsize::new(0),
    });
    let waker = Waker::from(bell.clone());
    (bell, waker)
}

fn rings(bell: &Arc<Bell>) -> usize {
    bell.rings.load(Ordering::SeqCst)
}

fn waker() -> Waker {
    bell().1
}

fn message(subscription_id: u32, message_id: u32, inner: &str) -> Message<String> {
    Message {
        subscription_id,
        message_id,
        inner: inner.to_string(),
    }
}

fn wake(woken: Option<Woken>) {
    match woken {
        Some(Woken::Held(waker)) => waker.wake_by_ref(),
        Some(Woken::Left(waker)) => waker.wake(),
        None => {}
    }
}

fn polled(futures: &mut MessageFuturesMap<String>, slot: u64) -> Option<String> {
    futures.poll(slot, waker()).map(|shared| (*shared).clone())
}

#[test]
fn a_new_future_is_pending() {
    let mut future: MessageFuture<u8> = MessageFuture::new();
    assert!(future.poll(waker()).is_none());
    assert!(future.poll(waker()).is_none());
}

#[test]
fn a_resolved_future_is_ready_again_and_again() {
    let mut future = MessageFuture::new();
    assert!(future.resolve(5).is_none());
    let first = future.poll(waker()).unwrap();
    let second = future.poll(waker()).unwrap();
    assert_eq!(*first, 5);
    assert!(Arc::ptr_eq(&first, &second));
}

#[test]
fn resolving_hands_out_the_last_waker() {
    let (early_bell, early) = bell();
    let (late_bell, late) = bell();
    let mut future = MessageFuture::new();
    assert!(future.poll(early).is_none());
    assert!(future.poll(late).is_none());
    future.resolve("done").unwrap().wake_by_ref();
    assert_eq!(rings(&early_bell), 0);
    assert_eq!(rings(&late_bell), 1);
}

#[test]
fn a_poll_that_finds_the_message_keeps_no_waker() {
    let mut slot: WakerMessage<u8> = WakerMessage::default();
    assert!(slot.waker.is_none());
    assert!(slot.message.is_none());
    slot.resolve(1);
    assert_eq!(*slot.poll(waker()).unwrap(), 1);
    assert!(slot.waker.is_none());
}

#[test]
fn the_waker_stays_in_the_slot_after_the_message_came() {
    let mut slot: WakerMessage<u8> = WakerMessage::default();
    slot.poll(waker());
    slot.resolve(1);
    assert!(slot.waker.is_some());
    assert_eq!(slot.message.as_deref(), Some(&1));
}

#[test]
fn each_future_gets_its_own_reply() {
    let mut futures = MessageFuturesMap::default();
    let first = futures.open(10);
    let second = futures.open(20);
    assert_ne!(first, second);
    futures.response_handler(1, message(1, 20, "twenty"));
    assert_eq!(polled(&mut futures, first), None);
    assert_eq!(polled(&mut futures, second), Some("twenty".to_string()));
    futures.response_handler(1, message(1, 10, "ten"));
    assert_eq!(polled(&mut futures, first), Some("ten".to_string()));
    assert_eq!(polled(&mut futures, second), Some("twenty".to_string()));
}

#[test]
fn a_message_for_another_subscription_is_ignored() {
    let mut futures = MessageFuturesMap::default();
    let slot = futures.open(10);
    assert!(futures.poll(slot, waker()).is_none());
    assert!(futures.response_handler(1, message(2, 10, "no")).is_none());
    assert_eq!(polled(&mut futures, slot), None);
    assert!(futures.response_handler(1, message(1, 10, "yes")).is_some());
    assert_eq!(polled(&mut futures, slot), Some("yes".to_string()));
}

#[test]
fn a_message_under_an_unknown_id_is_ignored() {
    let mut futures = MessageFuturesMap::default();
    let slot = futures.open(10);
    assert!(futures.response_handler(1, message(1, 11, "no")).is_none());
    assert_eq!(polled(&mut futures, slot), None);
}

#[test]
fn only_the_first_reply_counts() {
    let mut futures = MessageFuturesMap::default();
    let slot = futures.open(10);
    assert_eq!(polled(&mut futures, slot), None);
    assert!(futures.response_handler(1, message(1, 10, "first")).is_some());
    assert!(futures.response_handler(1, message(1, 10, "second")).is_none());
    assert_eq!(polled(&mut futures, slot), Some("first".to_string()));
}

#[test]
fn the_reply_wakes_the_last_to_poll() {
    let (early_bell, early) = bell();
    let (late_bell, late) = bell();
    let mut futures = MessageFuturesMap::default();
    let slot = futures.open(10);
    let other = futures.open(11);
    futures.poll(slot, early);
    futures.poll(slot, late);
    futures.poll(other, waker());
    let woken = futures.response_handler(1, message(1, 10, "reply"));
    assert!(matches!(woken, Some(Woken::Held(_))));
    wake(woken);
    assert_eq!(rings(&early_bell), 0);
    assert_eq!(rings(&late_bell), 1);
}

#[test]
fn a_reply_before_the_first_poll_wakes_nobody() {
    let mut futures = MessageFuturesMap::default();
    let slot = futures.open(10);
    assert!(futures.response_handler(1, message(1, 10, "reply")).is_none());
    assert_eq!(polled(&mut futures, slot), Some("reply".to_string()));
}

#[test]
fn a_later_future_takes_over_the_id() {
    let mut futures = MessageFuturesMap::default();
    let early = futures.open(10);
    let late = futures.open(10);
    futures.response_handler(1, message(1, 10, "reply"));
    assert_eq!(polled(&mut futures, early), None);
    assert_eq!(polled(&mut futures, late), Some("reply".to_string()));
    assert!(futures.response_handler(1, message(1, 10, "again")).is_none());
    assert_eq!(polled(&mut futures, early), None);
}

#[test]
fn a_reply_to_a_dropped_future_wakes_the_task_that_polled_it() {
    let (last_bell, last) = bell();
    let mut futures = MessageFuturesMap::default();
    let dropped = futures.open(10);
    futures.poll(dropped, last);
    futures.close(dropped);
    let other = futures.open(11);
    assert_ne!(dropped, other);
    let woken = futures.response_handler(1, message(1, 10, "late"));
    assert!(matches!(woken, Some(Woken::Left(_))));
    wake(woken);
    assert_eq!(rings(&last_bell), 1);
    assert_eq!(polled(&mut futures, dropped), None);
    assert_eq!(polled(&mut futures, other), None);
    assert!(futures.response_handler(1, message(1, 10, "again")).is_none());
}

#[test]
fn a_reply_to_a_dropped_future_that_nobody_polled_wakes_nobody() {
    let mut futures = MessageFuturesMap::default();
    let dropped = futures.open(10);
    futures.close(dropped);
    assert!(futures.response_handler(1, message(1, 10, "late")).is_none());
}

#[test]
fn the_waker_of_a_dropped_future_goes_with_its_slot() {
    let (last_bell, last) = bell();
    let mut futures: MessageFuturesMap<String> = MessageFuturesMap::default();
    let dropped = futures.open(10);
    futures.poll(dropped, last);
    assert_eq!(Arc::strong_count(&last_bell), 2);
    futures.close(dropped);
    assert_eq!(Arc::strong_count(&last_bell), 2);
    // The id leads to another future now, so that nobody can reach the slot.
    futures.open(10);
    assert_eq!(Arc::strong_count(&last_bell), 1);
}

#[test]
fn an_answered_future_frees_its_slot_when_dropped() {
    let (last_bell, last) = bell();
    let mut futures = MessageFuturesMap::default();
    let slot = futures.open(10);
    futures.poll(slot, last);
    futures.response_handler(1, message(1, 10, "reply"));
    assert_eq!(Arc::strong_count(&last_bell), 2);
    futures.close(slot);
    assert_eq!(Arc::strong_count(&last_bell), 1);
    assert_eq!(polled(&mut futures, slot), None);
}

#[test]
fn there_is_nothing_in_a_slot_without_future() {
    let mut futures = MessageFuturesMap::default();
    assert_eq!(polled(&mut futures, 0), None);
    let slot = futures.open(10);
    assert_eq!(polled(&mut futures, slot + 1), None);
    futures.response_handler(1, message(1, 10, "reply"));
    assert_eq!(polled(&mut futures, slot + 1), None);
    assert_eq!(polled(&mut futures, slot), Some("reply".to_string()));
}

#[test]
fn there_is_room_for_a_future() {
    let mut futures: MessageFuturesMap<String> = MessageFuturesMap::default();
    assert!(futures.has_room());
    futures.open(1);
    assert!(futures.has_room());
}
