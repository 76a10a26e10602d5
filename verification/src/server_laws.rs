//! What holds of the servers, whatever they read.

use crate::message::Message;
use crate::websocket::{
    Connection, ConnectionAction, ConnectionEvent, Exchange, ExchangeAction, ExchangeEvent, Frame,
};
use vstd::multiset::Multiset;
use vstd::prelude::*;

verus! {

/// A connection after all of `events`.
pub open spec fn after_events<RECV, R>(events: Seq<ConnectionEvent<RECV, R>>) -> Connection
    decreases events.len(),
{
    if events.len() == 0 {
        Connection::Accepting
    } else {
        after_events(events.drop_last()).next(events.last())
    }
}

/// Whether each of `events` is the outcome of the step that the connection is
/// at by then.
pub open spec fn all_expected<RECV, R>(events: Seq<ConnectionEvent<RECV, R>>) -> bool
    decreases events.len(),
{
    events.len() == 0 || {
        &&& all_expected(events.drop_last())
        &&& after_events(events.drop_last()).expects(events.last())
    }
}

/// The replies that the server has encoded in the course of `events`.
pub open spec fn replies<RECV, R>(events: Seq<ConnectionEvent<RECV, R>>) -> Seq<Message<R>>
    decreases events.len(),
{
    if events.len() == 0 {
        Seq::empty()
    } else {
        let before = replies(events.drop_last());
        match after_events(events.drop_last()).action(events.last()) {
            ConnectionAction::Exchange(ExchangeAction::Encode(reply)) => before.push(reply),
            _ => before,
        }
    }
}

/// The texts that the server has written in the course of `events`.
pub open spec fn written<RECV, R>(events: Seq<ConnectionEvent<RECV, R>>) -> Seq<String>
    decreases events.len(),
{
    if events.len() == 0 {
        Seq::empty()
    } else {
        let before = written(events.drop_last());
        match after_events(events.drop_last()).action(events.last()) {
            ConnectionAction::Exchange(ExchangeAction::Write(text)) => before.push(text),
            _ => before,
        }
    }
}

/// The responses of the handler among `events`, each at the address of the
/// message that was decoded right before it.
pub open spec fn responses<RECV, R>(events: Seq<ConnectionEvent<RECV, R>>) -> Seq<Message<R>>
    decreases events.len(),
{
    if events.len() == 0 {
        Seq::empty()
    } else {
        let before = responses(events.drop_last());
        match events.last() {
            ConnectionEvent::Exchange(ExchangeEvent::Handled(Some(response))) => match events[
                events.len() - 2
            ] {
                ConnectionEvent::Exchange(
                    ExchangeEvent::Decoded(Some(request)),
                ) => before.push(request.address().message(response)),
                _ => before,
            },
            _ => before,
        }
    }
}

/// How many texts were read in the course of `events`.
pub open spec fn texts_read<RECV, R>(events: Seq<ConnectionEvent<RECV, R>>) -> nat
    decreases events.len(),
{
    if events.len() == 0 {
        0
    } else {
        texts_read(events.drop_last()) + if events.last() matches ConnectionEvent::Exchange(
            ExchangeEvent::Arrived(Some(Frame::Text(_))),
        ) {
            1nat
        } else {
            0nat
        }
    }
}

/// The payloads that the server has handed to the handler in the course of
/// `events`.
pub open spec fn calls<RECV, R>(events: Seq<ConnectionEvent<RECV, R>>) -> Seq<RECV>
    decreases events.len(),
{
    if events.len() == 0 {
        Seq::empty()
    } else {
        let before = calls(events.drop_last());
        match after_events(events.drop_last()).action(events.last()) {
            ConnectionAction::Exchange(ExchangeAction::Handle(inner)) => before.push(inner),
            _ => before,
        }
    }
}

/// The payloads of the messages that were decoded, among `events`.
pub open spec fn decoded<RECV, R>(events: Seq<ConnectionEvent<RECV, R>>) -> Seq<RECV>
    decreases events.len(),
{
    if events.len() == 0 {
        Seq::empty()
    } else {
        let before = decoded(events.drop_last());
        match events.last() {
            ConnectionEvent::Exchange(ExchangeEvent::Decoded(Some(request))) => before.push(
                request.inner,
            ),
            _ => before,
        }
    }
}

/// The handler is called exactly once for each text that was decoded, with its
/// payload, in their order.
pub proof fn law_the_handler_is_called_once_for_each_message<RECV, R>(
    events: Seq<ConnectionEvent<RECV, R>>,
)
    requires
        all_expected(events),
    ensures
        calls(events) == decoded(events),
    decreases events.len(),
{
    if events.len() > 0 {
        law_the_handler_is_called_once_for_each_message(events.drop_last());
    }
}

/// Every response goes back to where its request came from. Whatever happens
/// on a connection, the server's replies are the responses of the handler, in
/// their order, each at the address of the message that the handler was given.
pub proof fn law_every_response_is_sent_to_its_request<RECV, R>(
    events: Seq<ConnectionEvent<RECV, R>>,
)
    requires
        all_expected(events),
    ensures
        replies(events) == responses(events),
    decreases events.len(),
{
    if events.len() > 0 {
        let before = events.drop_last();
        law_every_response_is_sent_to_its_request(before);
        if after_events(before) matches Connection::Exchanging(Exchange::Handling(address)) {
            assert(before.len() > 0);
            assert(before.last() == events[events.len() - 2]);
        }
    }
}

/// The texts that came out of encoding replies, among `events`.
pub open spec fn encodings<RECV, R>(events: Seq<ConnectionEvent<RECV, R>>) -> Seq<String>
    decreases events.len(),
{
    if events.len() == 0 {
        Seq::empty()
    } else {
        let before = encodings(events.drop_last());
        match events.last() {
            ConnectionEvent::Exchange(ExchangeEvent::Encoded(Some(text))) => before.push(text),
            _ => before,
        }
    }
}

/// What the server writes is exactly its encoded replies, in their order.
pub proof fn law_encoded_replies_are_written<RECV, R>(events: Seq<ConnectionEvent<RECV, R>>)
    requires
        all_expected(events),
    ensures
        written(events) == encodings(events),
    decreases events.len(),
{
    if events.len() > 0 {
        law_encoded_replies_are_written(events.drop_last());
    }
}

/// The server makes at most one reply for every text that it reads, and writes
/// at most one text for every reply.
pub proof fn law_at_most_one_reply_for_each_text<RECV, R>(events: Seq<ConnectionEvent<RECV, R>>)
    requires
        all_expected(events),
    ensures
        written(events).len() <= replies(events).len() <= texts_read(events),
{
    lemma_replies_are_owed(events);
}

proof fn lemma_replies_are_owed<RECV, R>(events: Seq<ConnectionEvent<RECV, R>>)
    requires
        all_expected(events),
    ensures
        written(events).len() + (if after_events(events) == Connection::Exchanging(
            Exchange::Encoding,
        ) {
            1nat
        } else {
            0nat
        }) <= replies(events).len(),
        replies(events).len() + (match after_events(events) {
            Connection::Exchanging(Exchange::Decoding) => 1nat,
            Connection::Exchanging(Exchange::Handling(_)) => 1nat,
            _ => 0nat,
        }) <= texts_read(events),
    decreases events.len(),
{
    if events.len() > 0 {
        lemma_replies_are_owed(events.drop_last());
    }
}

/// Only the other side ends a connection that stands: no failure to read, to
/// decode, to encode or to write does, nor a handler with nothing to say.
pub proof fn law_only_a_close_ends_a_connection<RECV, R>(
    exchange: Exchange,
    event: ExchangeEvent<RECV, R>,
)
    requires
        exchange.expects(event),
    ensures
        ({
            let connection = Connection::Exchanging(exchange);
            let event = ConnectionEvent::Exchange(event);
            connection.next(event) == Connection::Closed <==> event
                == ConnectionEvent::<RECV, R>::Exchange(
                ExchangeEvent::Arrived(Some(Frame::Close)),
            )
        }),
{
}

/// Nothing comes after a close: nothing more is read from the connection, the
/// handler is not called again, and nothing more is encoded or written.
pub proof fn law_nothing_follows_a_close<RECV, R>(events: Seq<ConnectionEvent<RECV, R>>, i: int)
    requires
        all_expected(events),
        0 <= i < events.len(),
        events[i] == ConnectionEvent::<RECV, R>::Exchange(
            ExchangeEvent::Arrived(Some(Frame::Close)),
        ),
    ensures
        i == events.len() - 1,
        after_events(events) == Connection::Closed,
        calls(events) == calls(events.take(i)),
        replies(events) == replies(events.take(i)),
        written(events) == written(events.take(i)),
    decreases events.len(),
{
    if i == events.len() - 1 {
        assert(events.take(i) =~= events.drop_last());
    } else {
        law_nothing_follows_a_close(events.drop_last(), i);
    }
}

/// Messages of one connection are handled one after another: whenever a frame
/// has been read, the exchange about the frame before it is over.
pub proof fn law_one_exchange_at_a_time<RECV, R>(events: Seq<ConnectionEvent<RECV, R>>, i: int)
    requires
        all_expected(events),
        0 <= i < events.len(),
        events[i] matches ConnectionEvent::Exchange(event) && event is Arrived,
    ensures
        after_events(events.take(i)) == Connection::Exchanging(Exchange::Arriving),
    decreases events.len(),
{
    if i == events.len() - 1 {
        assert(events.take(i) =~= events.drop_last());
    } else {
        law_one_exchange_at_a_time(events.drop_last(), i);
        assert(events.drop_last().take(i) =~= events.take(i));
    }
}

/// Once a connection is closed, nothing happens on it any more.
pub proof fn law_closed_is_final<RECV, R>(events: Seq<ConnectionEvent<RECV, R>>, i: int)
    requires
        all_expected(events),
        0 <= i < events.len(),
    ensures
        after_events(events.take(i)) != Connection::Closed,
    decreases events.len(),
{
    if i == events.len() - 1 {
        assert(events.take(i) =~= events.drop_last());
    } else {
        law_closed_is_final(events.drop_last(), i);
        assert(events.drop_last().take(i) =~= events.take(i));
    }
}

/// Whether `event` says that a connection could not be established.
pub open spec fn is_failure<RECV, R>(event: ConnectionEvent<RECV, R>) -> bool {
    event == ConnectionEvent::<RECV, R>::Accepted(false) || event == ConnectionEvent::<
        RECV,
        R,
    >::HandshakeDone(false)
}

proof fn lemma_nothing_happens_before_the_handshake<RECV, R>(
    events: Seq<ConnectionEvent<RECV, R>>,
)
    requires
        all_expected(events),
        after_events(events) == Connection::Accepting || after_events(events)
            == Connection::Handshaking,
    ensures
        calls(events).len() == 0,
        replies(events).len() == 0,
        written(events).len() == 0,
    decreases events.len(),
{
    if events.len() > 0 {
        lemma_nothing_happens_before_the_handshake(events.drop_last());
    }
}

/// A connection that could not be established is left at once: nothing comes
/// after the failure, and the handler is not called, nor is anything encoded
/// or written.
pub proof fn law_a_failed_connection_is_left<RECV, R>(
    events: Seq<ConnectionEvent<RECV, R>>,
    i: int,
)
    requires
        all_expected(events),
        0 <= i < events.len(),
        is_failure(events[i]),
    ensures
        i == events.len() - 1,
        after_events(events) == Connection::Closed,
        calls(events).len() == 0,
        replies(events).len() == 0,
        written(events).len() == 0,
    decreases events.len(),
{
    if i == events.len() - 1 {
        lemma_nothing_happens_before_the_handshake(events.drop_last());
    } else {
        law_a_failed_connection_is_left(events.drop_last(), i);
    }
}

/// A synchronous server answers a message exactly when its handler has a
/// response to it, and so does an asynchronous one.
pub proof fn law_only_responses_are_answered<RECV, SND>(
    request: Message<RECV>,
    output: Option<SND>,
)
    ensures
        ({
            let handling = Exchange::Decoding.next(
                ExchangeEvent::<RECV, SND>::Decoded(Some(request)),
            );
            let handled = ExchangeEvent::<RECV, SND>::Handled(output);
            &&& handling.expects(handled)
            &&& handling.action(handled) == (match output {
                Some(response) => ExchangeAction::<RECV, SND>::Encode(
                    request.address().message(response),
                ),
                None => ExchangeAction::<RECV, SND>::Finish,
            })
        }),
{
}

/// What a server works with: how it decodes texts and encodes replies, and
/// what its handler gives for a payload.
#[verifier::reject_recursive_types(RECV)]
#[verifier::reject_recursive_types(SND)]
pub struct World<RECV, SND> {
    pub decode: spec_fn(String) -> Option<Message<RECV>>,
    pub handle: spec_fn(RECV) -> Option<SND>,
    pub encode: spec_fn(Message<SND>) -> Option<String>,
}

impl<RECV, SND> World<RECV, SND> {
    /// What comes of `action`. There is nothing to do for one that finishes.
    pub open spec fn outcome(self, action: ExchangeAction<RECV, SND>) -> ExchangeEvent<RECV, SND> {
        match action {
            ExchangeAction::Decode(text) => ExchangeEvent::Decoded((self.decode)(text)),
            ExchangeAction::Handle(inner) => ExchangeEvent::Handled((self.handle)(inner)),
            ExchangeAction::Encode(reply) => ExchangeEvent::Encoded((self.encode)(reply)),
            ExchangeAction::Write(_) | ExchangeAction::Finish => ExchangeEvent::Written,
        }
    }

    /// The payload that the handler is called with for what was read: that of
    /// a text that can be decoded.
    pub open spec fn payload(self, frame: Option<Frame>) -> Seq<RECV> {
        match frame {
            Some(Frame::Text(text)) => match (self.decode)(text) {
                Some(request) => seq![request.inner],
                None => Seq::empty(),
            },
            _ => Seq::empty(),
        }
    }

    /// The text that is written for what was read: the reply to a text that
    /// can be decoded, whose payload has a response that can be encoded.
    pub open spec fn answer(self, frame: Option<Frame>) -> Seq<String> {
        match frame {
            Some(Frame::Text(text)) => match (self.decode)(text) {
                Some(request) => match (self.handle)(request.inner) {
                    Some(response) => match (self.encode)(request.address().message(response)) {
                        Some(reply) => seq![reply],
                        None => Seq::empty(),
                    },
                    None => Seq::empty(),
                },
                None => Seq::empty(),
            },
            _ => Seq::empty(),
        }
    }
}

/// How many steps an exchange has before it at most.
pub open spec fn steps_left(exchange: Exchange) -> nat {
    match exchange {
        Exchange::Arriving => 5,
        Exchange::Decoding => 4,
        Exchange::Handling(_) => 3,
        Exchange::Encoding => 2,
        Exchange::Writing => 1,
        Exchange::Done => 0,
    }
}

/// The text of `action`, if it is to write one.
pub open spec fn text_to_write<RECV, R>(action: ExchangeAction<RECV, R>) -> Seq<String> {
    match action {
        ExchangeAction::Write(text) => seq![text],
        _ => Seq::empty(),
    }
}

/// What is written from `event` on in an exchange that runs to its end.
pub open spec fn written_in_exchange<RECV, SND>(
    world: World<RECV, SND>,
    exchange: Exchange,
    event: ExchangeEvent<RECV, SND>,
) -> Seq<String>
    decreases steps_left(exchange),
{
    if !exchange.expects(event) {
        Seq::empty()
    } else {
        let action = exchange.action(event);
        text_to_write(action) + written_in_exchange(
            world,
            exchange.next(event),
            world.outcome(action),
        )
    }
}

/// The payload that `action` calls the handler with, if it does.
pub open spec fn payload_to_handle<RECV, R>(action: ExchangeAction<RECV, R>) -> Seq<RECV> {
    match action {
        ExchangeAction::Handle(inner) => seq![inner],
        _ => Seq::empty(),
    }
}

/// What the handler is called with from `event` on in an exchange that runs to
/// its end.
pub open spec fn called_in_exchange<RECV, SND>(
    world: World<RECV, SND>,
    exchange: Exchange,
    event: ExchangeEvent<RECV, SND>,
) -> Seq<RECV>
    decreases steps_left(exchange),
{
    if !exchange.expects(event) {
        Seq::empty()
    } else {
        let action = exchange.action(event);
        payload_to_handle(action) + called_in_exchange(
            world,
            exchange.next(event),
            world.outcome(action),
        )
    }
}

/// What is written when the exchanges for `frames` run one after another, each
/// to its end, as in an asynchronous server with a concurrency limit of one.
pub open spec fn written_in_turn<RECV, SND>(
    world: World<RECV, SND>,
    frames: Seq<Option<Frame>>,
) -> Seq<String>
    decreases frames.len(),
{
    if frames.len() == 0 {
        Seq::empty()
    } else {
        written_in_exchange(
            world,
            Exchange::Arriving,
            ExchangeEvent::Arrived(frames.first()),
        ) + written_in_turn(world, frames.drop_first())
    }
}

/// What the handler is called with when the exchanges for `frames` run one
/// after another, each to its end.
pub open spec fn called_in_turn<RECV, SND>(
    world: World<RECV, SND>,
    frames: Seq<Option<Frame>>,
) -> Seq<RECV>
    decreases frames.len(),
{
    if frames.len() == 0 {
        Seq::empty()
    } else {
        called_in_exchange(
            world,
            Exchange::Arriving,
            ExchangeEvent::Arrived(frames.first()),
        ) + called_in_turn(world, frames.drop_first())
    }
}

/// What an asynchronous server writes on a connection that yields `frames`: it
/// runs one exchange for each, and the exchanges do not wait for each other,
/// so there is no order between their texts.
pub open spec fn written_async<RECV, SND>(
    world: World<RECV, SND>,
    frames: Seq<Option<Frame>>,
) -> Multiset<String>
    decreases frames.len(),
{
    if frames.len() == 0 {
        Multiset::empty()
    } else {
        written_in_exchange(
            world,
            Exchange::Arriving,
            ExchangeEvent::Arrived(frames.first()),
        ).to_multiset().add(written_async(world, frames.drop_first()))
    }
}

/// How many steps a connection has before it at most, until it reads again.
pub open spec fn steps_to_read(connection: Connection) -> nat {
    match connection {
        Connection::Exchanging(exchange) => steps_left(exchange),
        _ => 0,
    }
}

/// What a synchronous server writes from `event` on, on a connection that then
/// yields `frames`.
pub open spec fn written_on_connection<RECV, SND>(
    world: World<RECV, SND>,
    connection: Connection,
    event: ConnectionEvent<RECV, SND>,
    frames: Seq<Option<Frame>>,
) -> Seq<String>
    decreases frames.len(), steps_to_read(connection),
{
    if !connection.expects(event) {
        Seq::empty()
    } else {
        match connection.action(event) {
            ConnectionAction::Handshake | ConnectionAction::Stop => Seq::empty(),
            ConnectionAction::Read => if frames.len() == 0 {
                Seq::empty()
            } else {
                written_on_connection(
                    world,
                    connection.next(event),
                    ConnectionEvent::Exchange(ExchangeEvent::Arrived(frames.first())),
                    frames.drop_first(),
                )
            },
            ConnectionAction::Exchange(action) => text_to_write(action) + written_on_connection(
                world,
                connection.next(event),
                ConnectionEvent::Exchange(world.outcome(action)),
                frames,
            ),
        }
    }
}

/// What a synchronous server writes on a connection that yields `frames`.
pub open spec fn written_sync<RECV, SND>(
    world: World<RECV, SND>,
    frames: Seq<Option<Frame>>,
) -> Seq<String> {
    written_on_connection(
        world,
        Connection::Handshaking,
        ConnectionEvent::HandshakeDone(true),
        frames,
    )
}

/// The answers to `frames`, in their order.
pub open spec fn answers<RECV, SND>(
    world: World<RECV, SND>,
    frames: Seq<Option<Frame>>,
) -> Seq<String>
    decreases frames.len(),
{
    if frames.len() == 0 {
        Seq::empty()
    } else {
        world.answer(frames.first()) + answers(world, frames.drop_first())
    }
}

/// The payloads of `frames`, in their order.
pub open spec fn payloads<RECV, SND>(
    world: World<RECV, SND>,
    frames: Seq<Option<Frame>>,
) -> Seq<RECV>
    decreases frames.len(),
{
    if frames.len() == 0 {
        Seq::empty()
    } else {
        world.payload(frames.first()) + payloads(world, frames.drop_first())
    }
}

/// What `frames` hold before the other side closes the connection: all of
/// them, if it does not.
pub open spec fn before_close(frames: Seq<Option<Frame>>) -> Seq<Option<Frame>>
    decreases frames.len(),
{
    if frames.len() == 0 || frames.first() == Some(Frame::Close) {
        Seq::empty()
    } else {
        seq![frames.first()] + before_close(frames.drop_first())
    }
}

/// Whether `frames` are those of a connection that stays open.
pub open spec fn none_closes(frames: Seq<Option<Frame>>) -> bool {
    forall|i: int| 0 <= i < frames.len() ==> #[trigger] frames[i] != Some(Frame::Close)
}

proof fn lemma_nothing_comes_after_the_last_frame(frames: Seq<Option<Frame>>)
    requires
        none_closes(frames),
    ensures
        before_close(frames) == frames,
    decreases frames.len(),
{
    if frames.len() > 0 {
        let rest = frames.drop_first();
        assert(frames[0] != Some(Frame::Close));
        assert forall|i: int| 0 <= i < rest.len() implies #[trigger] rest[i] != Some(
            Frame::Close,
        ) by {
            assert(rest[i] == frames[i + 1]);
        }
        lemma_nothing_comes_after_the_last_frame(rest);
    }
    assert(before_close(frames) =~= frames);
}

/// An exchange writes the answer to what was read, and nothing else.
pub proof fn law_an_exchange_writes_the_answer<RECV, SND>(
    world: World<RECV, SND>,
    frame: Option<Frame>,
)
    ensures
        written_in_exchange(world, Exchange::Arriving, ExchangeEvent::Arrived(frame))
            == world.answer(frame),
{
    reveal_with_fuel(written_in_exchange, 6);
    assert(written_in_exchange(world, Exchange::Arriving, ExchangeEvent::Arrived(frame))
        =~= world.answer(frame));
}

/// An exchange calls the handler with the payload of what was read, once, and
/// with nothing else.
pub proof fn law_an_exchange_handles_the_payload<RECV, SND>(
    world: World<RECV, SND>,
    frame: Option<Frame>,
)
    ensures
        called_in_exchange(world, Exchange::Arriving, ExchangeEvent::Arrived(frame))
            == world.payload(frame),
{
    reveal_with_fuel(called_in_exchange, 6);
    assert(called_in_exchange(world, Exchange::Arriving, ExchangeEvent::Arrived(frame))
        =~= world.payload(frame));
}

/// Exchanges that run one after another call the handler and write the answers
/// in the order of the frames.
pub proof fn law_exchanges_in_turn_keep_the_order<RECV, SND>(
    world: World<RECV, SND>,
    frames: Seq<Option<Frame>>,
)
    ensures
        called_in_turn(world, frames) == payloads(world, frames),
        written_in_turn(world, frames) == answers(world, frames),
    decreases frames.len(),
{
    if frames.len() > 0 {
        law_an_exchange_handles_the_payload(world, frames.first());
        law_an_exchange_writes_the_answer(world, frames.first());
        law_exchanges_in_turn_keep_the_order(world, frames.drop_first());
    }
}

/// Whether each of `frames` is a text that can be decoded, whose payload has a
/// response that can be encoded.
pub open spec fn all_answerable<RECV, SND>(
    world: World<RECV, SND>,
    frames: Seq<Option<Frame>>,
) -> bool {
    forall|i: int|
        0 <= i < frames.len() ==> {
            &&& #[trigger] frames[i] matches Some(Frame::Text(text))
            &&& (world.decode)(text) matches Some(request)
            &&& (world.handle)(request.inner) matches Some(response)
            &&& (world.encode)(request.address().message(response)) is Some
        }
}

/// Where every frame can be answered, there is one payload and one answer for
/// each: the payload is that of its message, and the answer is the response to
/// it, at the address of its message.
pub proof fn law_answers_follow_their_requests<RECV, SND>(
    world: World<RECV, SND>,
    frames: Seq<Option<Frame>>,
    i: int,
)
    requires
        all_answerable(world, frames),
        0 <= i < frames.len(),
    ensures
        payloads(world, frames).len() == frames.len(),
        answers(world, frames).len() == frames.len(),
        ({
            let request = (world.decode)(frames[i]->0->Text_0)->0;
            let reply = request.address().message((world.handle)(request.inner)->0);
            &&& payloads(world, frames)[i] == request.inner
            &&& Some(answers(world, frames)[i]) == (world.encode)(reply)
        }),
    decreases frames.len(),
{
    let rest = frames.drop_first();
    assert(frames[0] == frames.first());
    assert forall|j: int| 0 <= j < rest.len() implies {
        &&& #[trigger] rest[j] matches Some(Frame::Text(text))
        &&& (world.decode)(text) matches Some(request)
        &&& (world.handle)(request.inner) matches Some(response)
        &&& (world.encode)(request.address().message(response)) is Some
    } by {
        assert(rest[j] == frames[j + 1]);
    }
    assert(world.payload(frames.first()).len() == 1);
    assert(world.answer(frames.first()).len() == 1);
    if rest.len() > 0 {
        let k = if i == 0 {
            0
        } else {
            i - 1
        };
        law_answers_follow_their_requests(world, rest, k);
        assert(i > 0 ==> rest[k] == frames[i]);
    }
}

proof fn lemma_connection_runs_exchanges<RECV, SND>(
    world: World<RECV, SND>,
    exchange: Exchange,
    event: ExchangeEvent<RECV, SND>,
    frames: Seq<Option<Frame>>,
)
    requires
        exchange.expects(event),
        event != ExchangeEvent::<RECV, SND>::Arrived(Some(Frame::Close)),
    ensures
        written_on_connection(
            world,
            Connection::Exchanging(exchange),
            ConnectionEvent::Exchange(event),
            frames,
        ) == written_in_exchange(world, exchange, event) + written_sync(world, frames),
    decreases steps_left(exchange),
{
    let action = exchange.action(event);
    let next = exchange.next(event);
    let rest = written_in_exchange(world, next, world.outcome(action));
    assert(written_in_exchange(world, exchange, event) == text_to_write(action) + rest);
    if action is Finish {
        assert(written_in_exchange(world, exchange, event) =~= Seq::empty());
        assert(Seq::<String>::empty() + written_sync(world, frames) =~= written_sync(
            world,
            frames,
        ));
    } else {
        lemma_connection_runs_exchanges(world, next, world.outcome(action), frames);
        assert(text_to_write(action) + (rest + written_sync(world, frames)) =~= (text_to_write(
            action,
        ) + rest) + written_sync(world, frames));
    }
}

/// A synchronous server writes the answers to what it reads until the other
/// side closes the connection, in their order, and nothing else.
pub proof fn law_a_synchronous_server_writes_the_answers<RECV, SND>(
    world: World<RECV, SND>,
    frames: Seq<Option<Frame>>,
)
    ensures
        written_sync(world, frames) == answers(world, before_close(frames)),
    decreases frames.len(),
{
    if frames.len() > 0 && frames.first() != Some(Frame::Close) {
        let rest = frames.drop_first();
        law_a_synchronous_server_writes_the_answers(world, rest);
        law_an_exchange_writes_the_answer(world, frames.first());
        lemma_connection_runs_exchanges(
            world,
            Exchange::Arriving,
            ExchangeEvent::Arrived(frames.first()),
            rest,
        );
        assert(before_close(frames).first() == frames.first());
        assert(before_close(frames).drop_first() =~= before_close(rest));
    } else {
        reveal_with_fuel(written_on_connection, 2);
    }
}

/// An asynchronous server writes the answers to what it reads, in some order,
/// and nothing else.
pub proof fn law_an_asynchronous_server_writes_the_answers<RECV, SND>(
    world: World<RECV, SND>,
    frames: Seq<Option<Frame>>,
)
    ensures
        written_async(world, frames) == answers(world, frames).to_multiset(),
    decreases frames.len(),
{
    if frames.len() > 0 {
        law_an_asynchronous_server_writes_the_answers(world, frames.drop_first());
        law_an_exchange_writes_the_answer(world, frames.first());
        vstd::seq_lib::lemma_multiset_commutative(
            world.answer(frames.first()),
            answers(world, frames.drop_first()),
        );
    } else {
        Seq::<String>::empty().to_multiset_ensures();
        assert(answers(world, frames).to_multiset() =~= Multiset::empty());
    }
}

/// An asynchronous server and a synchronous one write the same texts for the
/// same frames; only the order may differ.
pub proof fn law_both_servers_write_the_same<RECV, SND>(
    world: World<RECV, SND>,
    frames: Seq<Option<Frame>>,
)
    requires
        none_closes(frames),
    ensures
        written_async(world, frames) == written_sync(world, frames).to_multiset(),
{
    law_a_synchronous_server_writes_the_answers(world, frames);
    law_an_asynchronous_server_writes_the_answers(world, frames);
    lemma_nothing_comes_after_the_last_frame(frames);
}

/// Somebody's attempt to connect to a server.
pub struct Attempt {
    /// Whether the connection is accepted.
    pub accepted: bool,
    /// Whether the handshake succeeds then.
    pub handshaken: bool,
    /// What the connection yields then.
    pub frames: Seq<Option<Frame>>,
}

impl Attempt {
    /// Whether the connection comes to stand.
    pub open spec fn succeeds(self) -> bool {
        self.accepted && self.handshaken
    }
}

/// Whether the server gets to read on account of `attempt`.
pub open spec fn comes_to_stand<RECV, SND>(attempt: Attempt) -> bool {
    let accepted = ConnectionEvent::<RECV, SND>::Accepted(attempt.accepted);
    let handshaken = ConnectionEvent::<RECV, SND>::HandshakeDone(attempt.handshaken);
    &&& Connection::Accepting.action(accepted) is Handshake
    &&& Connection::Accepting.next(accepted).action(handshaken) is Read
}

/// What a server writes on each of the connections that come to stand, in the
/// order of `attempts`.
pub open spec fn written_on_each<RECV, SND>(
    serve: spec_fn(World<RECV, SND>, Seq<Option<Frame>>) -> Multiset<String>,
    world: World<RECV, SND>,
    attempts: Seq<Attempt>,
) -> Seq<Multiset<String>>
    decreases attempts.len(),
{
    if attempts.len() == 0 {
        Seq::empty()
    } else {
        let before = written_on_each(serve, world, attempts.drop_last());
        if comes_to_stand::<RECV, SND>(attempts.last()) {
            before.push(serve(world, attempts.last().frames))
        } else {
            before
        }
    }
}

/// Connections are served each for itself: what is written on one depends on
/// its own frames alone, and on nothing that happens on another.
pub proof fn law_connections_are_served_independently<RECV, SND>(
    serve: spec_fn(World<RECV, SND>, Seq<Option<Frame>>) -> Multiset<String>,
    world: World<RECV, SND>,
    attempts: Seq<Attempt>,
)
    ensures
        written_on_each(serve, world, attempts) == attempts.filter(
            |attempt: Attempt| attempt.succeeds(),
        ).map_values(|attempt: Attempt| serve(world, attempt.frames)),
    decreases attempts.len(),
{
    reveal(Seq::filter);
    let succeeds = |attempt: Attempt| attempt.succeeds();
    let served = |attempt: Attempt| serve(world, attempt.frames);
    if attempts.len() > 0 {
        let before = attempts.drop_last();
        law_connections_are_served_independently(serve, world, before);
        let kept = before.filter(succeeds);
        if attempts.last().succeeds() {
            assert(attempts.filter(succeeds) == kept.push(attempts.last()));
            assert(kept.push(attempts.last()).map_values(served) =~= kept.map_values(served).push(
                served(attempts.last()),
            ));
        }
    }
    assert(written_on_each(serve, world, attempts) =~= attempts.filter(succeeds).map_values(
        served,
    ));
}

/// Failed attempts to connect are as good as none: a server, synchronous or
/// not, writes on every connection that stands what it would write on it
/// without them.
pub proof fn law_failed_attempts_change_nothing<RECV, SND>(
    serve: spec_fn(World<RECV, SND>, Seq<Option<Frame>>) -> Multiset<String>,
    world: World<RECV, SND>,
    attempts: Seq<Attempt>,
)
    ensures
        written_on_each(serve, world, attempts) == written_on_each(
            serve,
            world,
            attempts.filter(|attempt: Attempt| attempt.succeeds()),
        ),
    decreases attempts.len(),
{
    reveal(Seq::filter);
    let succeeds = |attempt: Attempt| attempt.succeeds();
    if attempts.len() > 0 {
        let before = attempts.drop_last();
        law_failed_attempts_change_nothing(serve, world, before);
        let kept = before.filter(succeeds);
        if attempts.last().succeeds() {
            assert(attempts.filter(succeeds) == kept.push(attempts.last()));
            assert(kept.push(attempts.last()).drop_last() =~= kept);
        }
    }
}

/// An exchange takes up what the last step gave, unchanged, and ends where it
/// gave nothing: a text is decoded whole, the payload of a message goes to the
/// handler, the handler's response is encoded under the ids of the message,
/// and the encoded reply is written whole.
pub proof fn law_an_exchange_goes_on_with_what_it_has<RECV, R>(
    exchange: Exchange,
    event: ExchangeEvent<RECV, R>,
)
    requires
        exchange.expects(event),
    ensures
        match event {
            ExchangeEvent::Arrived(Some(Frame::Text(text))) => exchange.action(event)
                == ExchangeAction::<RECV, R>::Decode(text),
            ExchangeEvent::Decoded(Some(message)) => {
                &&& exchange.action(event) == ExchangeAction::<RECV, R>::Handle(message.inner)
                &&& exchange.next(event) matches Exchange::Handling(address)
                    && address.subscription_id == message.subscription_id && address.message_id
                    == message.message_id
            },
            ExchangeEvent::Handled(Some(response)) => {
                &&& exchange matches Exchange::Handling(address)
                &&& exchange.action(event) matches ExchangeAction::Encode(reply)
                &&& reply.subscription_id == address.subscription_id
                &&& reply.message_id == address.message_id
                &&& reply.inner == response
            },
            ExchangeEvent::Encoded(Some(text)) => exchange.action(event) == ExchangeAction::<
                RECV,
                R,
            >::Write(text),
            _ => exchange.action(event) == ExchangeAction::<RECV, R>::Finish && exchange.next(event)
                == Exchange::Done,
        },
{
}

/// An exchange never gets stuck: whatever it asks for, it takes every outcome
/// of that, and the outcome of nothing else. It begins with any frame that is
/// read and with a failure to read one, and a finished exchange takes nothing
/// more.
pub proof fn law_an_exchange_takes_every_outcome<RECV, R>(
    exchange: Exchange,
    event: ExchangeEvent<RECV, R>,
    outcome: ExchangeEvent<RECV, R>,
)
    requires
        exchange.expects(event),
    ensures
        Exchange::Arriving.expects(outcome) <==> outcome is Arrived,
        exchange.next(event).expects(outcome) <==> match exchange.action(event) {
            ExchangeAction::Decode(_) => outcome is Decoded,
            ExchangeAction::Handle(_) => outcome is Handled,
            ExchangeAction::Encode(_) => outcome is Encoded,
            ExchangeAction::Write(_) => outcome is Written,
            ExchangeAction::Finish => false,
        },
{
}

/// A connection never gets stuck either: it begins with being accepted or not,
/// takes every outcome of what it asks for and of nothing else, and after the
/// server has left it takes nothing more.
pub proof fn law_a_connection_takes_every_outcome<RECV, R>(
    connection: Connection,
    event: ConnectionEvent<RECV, R>,
    outcome: ConnectionEvent<RECV, R>,
)
    requires
        connection.expects(event),
    ensures
        Connection::Accepting.expects(outcome) <==> outcome is Accepted,
        connection.next(event).expects(outcome) <==> match connection.action(event) {
            ConnectionAction::Handshake => outcome is HandshakeDone,
            ConnectionAction::Read => outcome matches ConnectionEvent::Exchange(step) && step is
                Arrived,
            ConnectionAction::Exchange(ExchangeAction::Decode(_)) => outcome matches
                ConnectionEvent::Exchange(step) && step is Decoded,
            ConnectionAction::Exchange(ExchangeAction::Handle(_)) => outcome matches
                ConnectionEvent::Exchange(step) && step is Handled,
            ConnectionAction::Exchange(ExchangeAction::Encode(_)) => outcome matches
                ConnectionEvent::Exchange(step) && step is Encoded,
            ConnectionAction::Exchange(ExchangeAction::Write(_)) => outcome matches
                ConnectionEvent::Exchange(step) && step is Written,
            ConnectionAction::Exchange(ExchangeAction::Finish) | ConnectionAction::Stop => false,
        },
{
}

/// What a connection does is what its exchange does, and it reads on when the
/// exchange is over. Only a connection that could not be made or that the other
/// side closes is left.
pub proof fn law_a_connection_does_what_its_exchange_does<RECV, R>(
    connection: Connection,
    event: ConnectionEvent<RECV, R>,
)
    requires
        connection.expects(event),
    ensures
        event matches ConnectionEvent::Accepted(accepted) ==> {
            &&& accepted <==> connection.action(event) is Handshake
            &&& !accepted <==> connection.action(event) is Stop
        },
        event matches ConnectionEvent::HandshakeDone(succeeded) ==> {
            &&& succeeded <==> connection.action(event) is Read
            &&& !succeeded <==> connection.action(event) is Stop
        },
        event matches ConnectionEvent::Exchange(step) ==> {
            let closes = step matches ExchangeEvent::Arrived(Some(Frame::Close));
            &&& connection matches Connection::Exchanging(exchange)
            &&& closes <==> connection.action(event) is Stop
            &&& closes <==> connection.next(event) == Connection::Closed
            &&& !closes && exchange.action(step) is Finish ==> {
                &&& connection.action(event) is Read
                &&& connection.next(event) == Connection::Exchanging(Exchange::Arriving)
            }
            &&& !(exchange.action(step) is Finish) ==> {
                &&& connection.action(event) == ConnectionAction::Exchange(exchange.action(step))
                &&& connection.next(event) == Connection::Exchanging(exchange.next(step))
            }
        },
{
}

} // verus!
