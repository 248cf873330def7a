//! The relay between the upstream generator and the client.
//!
//! One task reads the upstream reply chunk by chunk. It keeps every chunk in
//! a buffer and hands it to a bounded channel that the client's response
//! drains. When the upstream reply has ended, the buffer is read as the
//! generator's JSON reply and the text fragments in it become the assistant's
//! message. When the client has gone away, reading stops and nothing is kept.
//!
//! [`Relay`] holds the decisions of that task. The caller reads, sends and
//! stores; after each of these it reports what happened with
//! [`Relay::step`], which answers with what to do next.

use vstd::prelude::*;
use vstd::utf8::{decode_utf8, valid_utf8};
use crate::json::{parse_json, parsed_json, Json};

verus! {

/// How many chunks the channel between the reading task and the client's
/// response holds before the reading task has to wait.
pub const RELAY_CAPACITY: usize = 10;

/// Where the generator listens.
pub const UPSTREAM_URL: &'static str = "http://localhost:8000/stream";

/// The key of the array of fragments in the generator's reply.
pub const RESPONSE_KEY: &'static str = "response";

/// The key of the text in one fragment.
pub const CHUNK_KEY: &'static str = "chunk";

// ---------------------------------------------------------------------------
// The text of a complete reply
// ---------------------------------------------------------------------------

/// What `String::from_utf8_lossy` makes of a run of bytes.
pub uninterp spec fn lossy_text(bytes: Seq<u8>) -> Seq<char>;

/// Calls `String::from_utf8_lossy`. Trusted: the result is a function of the
/// bytes alone, and bytes that are valid UTF-8 give the text that they
/// encode.
#[verifier::external_body]
fn utf8_lossy(bytes: &[u8]) -> (text: String)
    ensures
        text@ == lossy_text(bytes@),
        valid_utf8(bytes@) ==> text@ == decode_utf8(bytes@),
{
    String::from_utf8_lossy(bytes).into_owned()
}

/// The text that one element of the `response` array contributes: its
/// `chunk`, where that is a string, and nothing otherwise.
pub open spec fn fragment_text(item: Json) -> Seq<char> {
    match item.field(CHUNK_KEY@) {
        Some(chunk) => match chunk.text() {
            Some(text) => text,
            None => Seq::empty(),
        },
        None => Seq::empty(),
    }
}

/// The fragments of `items`, one after the other.
pub open spec fn joined_fragments(items: Seq<Json>) -> Seq<char> {
    items.map_values(|item: Json| fragment_text(item)).flatten()
}

/// The assistant's text in a reply document: the fragments of its
/// `response` array in order, or `None` where it has no such array.
pub open spec fn reply_of(document: Json) -> Option<Seq<char>> {
    match document.field(RESPONSE_KEY@) {
        Some(response) => match response.items() {
            Some(items) => Some(joined_fragments(items)),
            None => None,
        },
        None => None,
    }
}

/// The assistant's text in the bytes of a complete upstream reply, or `None`
/// where the bytes are not a reply.
pub open spec fn reply_text(payload: Seq<u8>) -> Option<Seq<char>> {
    match parsed_json(lossy_text(payload)) {
        Some(document) => reply_of(document),
        None => None,
    }
}

/// The text that one element of the `response` array contributes.
fn fragment_of(item: &Json) -> (text: &str)
    ensures
        text@ == fragment_text(*item),
{
    proof {
        reveal_strlit("");
    }
    match item.get(CHUNK_KEY) {
        Some(chunk) => match chunk.as_str() {
            Some(text) => text,
            None => "",
        },
        None => "",
    }
}

/// Reads the assistant's text out of a reply document.
pub fn extract_reply(document: &Json) -> (text: Option<String>)
    ensures
        match text {
            Some(t) => reply_of(*document) == Some(t@),
            None => reply_of(*document) is None,
        },
{
    let items = match document.get(RESPONSE_KEY) {
        Some(response) => match response.as_array() {
            Some(items) => items,
            None => { return None; },
        },
        None => { return None; },
    };
    let mut text = String::new();
    let mut i: usize = 0;
    assert(items@.take(0).map_values(|item: Json| fragment_text(item)) =~= Seq::<
        Seq<char>,
    >::empty());
    while i < items.len()
        invariant
            i <= items.len(),
            text@ == joined_fragments(items@.take(i as int)),
        decreases items.len() - i,
    {
        let fragment = fragment_of(&items[i]);
        proof {
            let done = items@.take(i as int).map_values(|item: Json| fragment_text(item));
            assert(items@.take(i as int + 1).map_values(|item: Json| fragment_text(item))
                =~= done.push(fragment_text(items@[i as int])));
            done.lemma_flatten_push(fragment_text(items@[i as int]));
        }
        text.append(fragment);
        i = i + 1;
    }
    assert(items@.take(items.len() as int) =~= items@);
    Some(text)
}

/// Reads the assistant's text out of the bytes of a complete upstream
/// reply.
pub fn assistant_reply(payload: &[u8]) -> (text: Option<String>)
    ensures
        match text {
            Some(t) => reply_text(payload@) == Some(t@),
            None => reply_text(payload@) is None,
        },
{
    let decoded = utf8_lossy(payload);
    match parse_json(decoded.as_str()) {
        Some(document) => extract_reply(&document),
        None => None,
    }
}

// ---------------------------------------------------------------------------
// The reading task
// ---------------------------------------------------------------------------

/// Where the reading task stands.
#[derive(Debug, Clone, Copy, PartialEq, Eq, Structural)]
pub enum Phase {
    /// The next upstream chunk, or the end of the reply, is awaited.
    AwaitingChunk,
    /// A chunk was handed to the channel; whether it got there is awaited.
    AwaitingDelivery,
    /// The client has gone away. Nothing more is read or kept.
    Abandoned,
    /// The upstream reply has ended.
    Finished,
}

/// What happened since the last step.
#[derive(Debug, Clone, PartialEq, Eq)]
pub enum UpstreamEvent {
    /// Upstream sent these bytes.
    Chunk(Vec<u8>),
    /// The channel took the chunk that was handed to it.
    Delivered,
    /// The channel has no receiver any more: the client is gone.
    ReceiverGone,
    /// The upstream reply is over.
    End,
}

/// What the caller is to do next.
#[derive(Debug, Clone, PartialEq, Eq)]
pub enum RelayAction {
    /// Hand these bytes to the channel; report `Delivered` or
    /// `ReceiverGone`.
    Forward(Vec<u8>),
    /// Read upstream; report `Chunk` or `End`.
    ReadNext,
    /// Store an assistant message with this text. The exchange is over.
    Persist(String),
    /// The exchange is over, and there is nothing to store.
    Stop,
}

/// The mathematical value of an [`UpstreamEvent`].
#[verifier::ext_equal]
pub enum EventView {
    Chunk(Seq<u8>),
    Delivered,
    ReceiverGone,
    End,
}

/// The mathematical value of a [`RelayAction`].
#[verifier::ext_equal]
pub enum ActionView {
    Forward(Seq<u8>),
    ReadNext,
    Persist(Seq<char>),
    Stop,
}

/// The mathematical value of a [`Relay`].
#[verifier::ext_equal]
pub struct RelayView {
    pub phase: Phase,
    /// Every byte that upstream has sent so far, in order.
    pub received: Seq<u8>,
}

impl View for UpstreamEvent {
    type V = EventView;

    open spec fn view(&self) -> EventView {
        match self {
            UpstreamEvent::Chunk(bytes) => EventView::Chunk(bytes@),
            UpstreamEvent::Delivered => EventView::Delivered,
            UpstreamEvent::ReceiverGone => EventView::ReceiverGone,
            UpstreamEvent::End => EventView::End,
        }
    }
}

impl View for RelayAction {
    type V = ActionView;

    open spec fn view(&self) -> ActionView {
        match self {
            RelayAction::Forward(bytes) => ActionView::Forward(bytes@),
            RelayAction::ReadNext => ActionView::ReadNext,
            RelayAction::Persist(text) => ActionView::Persist(text@),
            RelayAction::Stop => ActionView::Stop,
        }
    }
}

/// The state of one reading task.
#[derive(Debug)]
pub struct Relay {
    phase: Phase,
    buffer: Vec<u8>,
}

impl View for Relay {
    type V = RelayView;

    closed spec fn view(&self) -> RelayView {
        RelayView { phase: self.phase, received: self.buffer@ }
    }
}

/// The state before anything was read.
pub open spec fn initial() -> RelayView {
    RelayView { phase: Phase::AwaitingChunk, received: Seq::empty() }
}

/// What ends an exchange whose upstream reply was `payload`: the message to
/// store, or a plain stop where the bytes are not a reply.
pub open spec fn completion(payload: Seq<u8>) -> ActionView {
    match reply_text(payload) {
        Some(text) => ActionView::Persist(text),
        None => ActionView::Stop,
    }
}

/// One step of the reading task: the state after `event`, and what to do
/// next.
///
/// A chunk is put into the buffer before it is handed on. The end of the
/// reply is read only while a chunk is awaited, so every chunk before it was
/// delivered. An event that does not fit the phase changes nothing and
/// stops the caller.
pub open spec fn step_spec(state: RelayView, event: EventView) -> (RelayView, ActionView) {
    match (state.phase, event) {
        (Phase::AwaitingChunk, EventView::Chunk(bytes)) => (
            RelayView { phase: Phase::AwaitingDelivery, received: state.received + bytes },
            ActionView::Forward(bytes),
        ),
        (Phase::AwaitingChunk, EventView::End) => (
            RelayView { phase: Phase::Finished, received: state.received },
            completion(state.received),
        ),
        (Phase::AwaitingDelivery, EventView::Delivered) => (
            RelayView { phase: Phase::AwaitingChunk, received: state.received },
            ActionView::ReadNext,
        ),
        (Phase::AwaitingDelivery, EventView::ReceiverGone) => (
            RelayView { phase: Phase::Abandoned, received: state.received },
            ActionView::Stop,
        ),
        _ => (state, ActionView::Stop),
    }
}

impl Relay {
    /// A task that has read nothing yet.
    pub fn new() -> (relay: Self)
        ensures
            relay@ == initial(),
    {
        Relay { phase: Phase::AwaitingChunk, buffer: Vec::new() }
    }

    /// Where the task stands.
    pub fn phase(&self) -> (phase: Phase)
        ensures
            phase == self@.phase,
    {
        self.phase
    }

    /// The bytes that upstream has sent so far.
    pub fn received(&self) -> (bytes: &Vec<u8>)
        ensures
            bytes@ == self@.received,
    {
        &self.buffer
    }

    /// Takes note of `event` and says what to do next.
    pub fn step(&mut self, event: UpstreamEvent) -> (action: RelayAction)
        ensures
            final(self)@ =~= step_spec(old(self)@, event@).0,
            action@ =~= step_spec(old(self)@, event@).1,
    {
        match (self.phase, event) {
            (Phase::AwaitingChunk, UpstreamEvent::Chunk(bytes)) => {
                self.buffer.extend_from_slice(bytes.as_slice());
                self.phase = Phase::AwaitingDelivery;
                RelayAction::Forward(bytes)
            },
            (Phase::AwaitingChunk, UpstreamEvent::End) => {
                self.phase = Phase::Finished;
                match assistant_reply(self.buffer.as_slice()) {
                    Some(text) => RelayAction::Persist(text),
                    None => RelayAction::Stop,
                }
            },
            (Phase::AwaitingDelivery, UpstreamEvent::Delivered) => {
                self.phase = Phase::AwaitingChunk;
                RelayAction::ReadNext
            },
            (Phase::AwaitingDelivery, UpstreamEvent::ReceiverGone) => {
                self.phase = Phase::Abandoned;
                RelayAction::Stop
            },
            _ => RelayAction::Stop,
        }
    }
}

// ---------------------------------------------------------------------------
// What holds of every exchange
// ---------------------------------------------------------------------------

/// The state after a run of events, each taken by one step.
pub open spec fn run(state: RelayView, events: Seq<EventView>) -> RelayView
    decreases events.len(),
{
    if events.len() == 0 {
        state
    } else {
        step_spec(run(state, events.drop_last()), events.last()).0
    }
}

/// What the steps of a run of events answer, in order.
pub open spec fn answers(state: RelayView, events: Seq<EventView>) -> Seq<ActionView>
    decreases events.len(),
{
    if events.len() == 0 {
        Seq::empty()
    } else {
        answers(state, events.drop_last()).push(
            step_spec(run(state, events.drop_last()), events.last()).1,
        )
    }
}

/// The events of an exchange in which upstream sent `chunks` and the client
/// took every one of them.
pub open spec fn relayed(chunks: Seq<Seq<u8>>) -> Seq<EventView>
    decreases chunks.len(),
{
    if chunks.len() == 0 {
        Seq::empty()
    } else {
        relayed(chunks.drop_last()).push(EventView::Chunk(chunks.last())).push(
            EventView::Delivered,
        )
    }
}

/// The bytes that a run of actions hands to the client, in order.
pub open spec fn forwarded(actions: Seq<ActionView>) -> Seq<u8>
    decreases actions.len(),
{
    if actions.len() == 0 {
        Seq::empty()
    } else {
        match actions.last() {
            ActionView::Forward(bytes) => forwarded(actions.drop_last()) + bytes,
            _ => forwarded(actions.drop_last()),
        }
    }
}

/// How an exchange ends in which upstream sent `chunks`, the client took
/// every one of them, and the reply then ended.
pub open spec fn outcome(chunks: Seq<Seq<u8>>) -> ActionView {
    step_spec(run(initial(), relayed(chunks)), EventView::End).1
}

/// What a single step may answer. A message is stored only in answer to the
/// end of the reply, and only while a chunk is awaited, that is after every
/// chunk was delivered. Bytes are handed to the client only as they come
/// from upstream, after they went into the buffer, and one chunk at a
/// time: the next read waits for the delivery.
pub proof fn lemma_step_answers(state: RelayView, event: EventView)
    ensures
        ({
            let (next, action) = step_spec(state, event);
            &&& action is Persist ==> event is End && state.phase == Phase::AwaitingChunk
                && next.phase == Phase::Finished && reply_text(state.received) == Some(
                action->Persist_0,
            )
            &&& action is Forward ==> event == EventView::Chunk(action->Forward_0) && state.phase
                == Phase::AwaitingChunk && next.phase == Phase::AwaitingDelivery && next.received
                == state.received + action->Forward_0
            &&& action is ReadNext ==> event is Delivered && state.phase
                == Phase::AwaitingDelivery && next.phase == Phase::AwaitingChunk
            &&& !(action is Forward) ==> next.received == state.received
        }),
{
}

/// One more event is one more step.
pub proof fn lemma_run_push(state: RelayView, events: Seq<EventView>, event: EventView)
    ensures
        run(state, events.push(event)) == step_spec(run(state, events), event).0,
        answers(state, events.push(event)) == answers(state, events).push(
            step_spec(run(state, events), event).1,
        ),
{
    assert(events.push(event).drop_last() =~= events);
}

/// A run of events can be taken in two parts.
pub proof fn lemma_run_concat(state: RelayView, first: Seq<EventView>, second: Seq<EventView>)
    ensures
        run(state, first + second) == run(run(state, first), second),
        answers(state, first + second) == answers(state, first) + answers(
            run(state, first),
            second,
        ),
    decreases second.len(),
{
    if second.len() == 0 {
        assert(first + second =~= first);
        assert(answers(state, first) + Seq::<ActionView>::empty() =~= answers(state, first));
    } else {
        lemma_run_concat(state, first, second.drop_last());
        assert((first + second).drop_last() =~= first + second.drop_last());
        assert((first + second).last() == second.last());
        assert(answers(state, first + second) =~= answers(state, first) + answers(
            run(state, first),
            second,
        ));
    }
}

/// While every chunk is delivered, the buffer holds the chunks one after
/// the other, the client was handed the same bytes in the same order, and
/// nothing was stored.
pub proof fn lemma_relayed(chunks: Seq<Seq<u8>>)
    ensures
        run(initial(), relayed(chunks)) == (RelayView {
            phase: Phase::AwaitingChunk,
            received: chunks.flatten(),
        }),
        forwarded(answers(initial(), relayed(chunks))) == chunks.flatten(),
        forall|i: int|
            0 <= i < answers(initial(), relayed(chunks)).len() ==> !(#[trigger] answers(
                initial(),
                relayed(chunks),
            )[i] is Persist),
    decreases chunks.len(),
{
    if chunks.len() == 0 {
        assert(chunks.flatten() =~= Seq::<u8>::empty());
    } else {
        let before = chunks.drop_last();
        let chunk = EventView::Chunk(chunks.last());
        lemma_relayed(before);
        lemma_run_push(initial(), relayed(before), chunk);
        lemma_run_push(initial(), relayed(before).push(chunk), EventView::Delivered);
        assert(chunks =~= before.push(chunks.last()));
        before.lemma_flatten_push(chunks.last());
        let earlier = answers(initial(), relayed(before));
        let all = answers(initial(), relayed(chunks));
        assert(all == earlier.push(ActionView::Forward(chunks.last())).push(ActionView::ReadNext));
        let handed = earlier.push(ActionView::Forward(chunks.last()));
        assert(all.drop_last() =~= handed);
        assert(handed.drop_last() =~= earlier);
        assert(forwarded(handed) == forwarded(earlier) + chunks.last());
        assert(forwarded(all) == forwarded(handed));
        assert(run(initial(), relayed(chunks)) =~= (RelayView {
            phase: Phase::AwaitingChunk,
            received: chunks.flatten(),
        }));
    }
}

/// The stored text does not depend on where upstream cut its reply into
/// chunks: two exchanges whose chunks make up the same bytes end alike, as
/// [`completion`] says of those bytes.
pub proof fn lemma_chunk_boundaries_do_not_matter(one: Seq<Seq<u8>>, other: Seq<Seq<u8>>)
    requires
        one.flatten() == other.flatten(),
    ensures
        outcome(one) == outcome(other),
        outcome(one) == completion(one.flatten()),
{
    lemma_relayed(one);
    lemma_relayed(other);
}

/// An exchange that is over stays over. Once the client is gone, or the
/// reply has ended, the state stays as it is and every answer is `Stop`,
/// whatever is reported afterwards.
pub proof fn lemma_ended_exchange_is_final(state: RelayView, events: Seq<EventView>)
    requires
        state.phase == Phase::Abandoned || state.phase == Phase::Finished,
    ensures
        run(state, events) == state,
        forall|i: int|
            0 <= i < answers(state, events).len() ==> #[trigger] answers(state, events)[i]
                == ActionView::Stop,
    decreases events.len(),
{
    if events.len() > 0 {
        lemma_ended_exchange_is_final(state, events.drop_last());
    }
}

/// An exchange stores at most one assistant message: whatever is reported,
/// and in whatever order, no two steps of one task answer `Persist`.
pub proof fn lemma_stores_at_most_once(events: Seq<EventView>, i: int, j: int)
    requires
        0 <= i < j < events.len(),
    ensures
        answers(initial(), events).len() == events.len(),
        !(answers(initial(), events)[i] is Persist && answers(initial(), events)[j] is Persist),
{
    let first = events.take(i + 1);
    let second = events.skip(i + 1);
    assert(events =~= first + second);
    lemma_run_concat(initial(), first, second);
    lemma_answers_len(initial(), first);
    lemma_answers_len(run(initial(), first), second);
    let early = answers(initial(), first);
    let late = answers(run(initial(), first), second);
    assert(answers(initial(), events)[i] == early[i]);
    assert(answers(initial(), events)[j] == late[j - (i + 1)]);
    if early[i] is Persist {
        assert(first.drop_last() =~= events.take(i));
        lemma_step_answers(run(initial(), first.drop_last()), first.last());
        assert(run(initial(), first).phase == Phase::Finished);
        lemma_ended_exchange_is_final(run(initial(), first), second);
    }
}

/// Every event is answered by one action.
pub proof fn lemma_answers_len(state: RelayView, events: Seq<EventView>)
    ensures
        answers(state, events).len() == events.len(),
    decreases events.len(),
{
    if events.len() > 0 {
        lemma_answers_len(state, events.drop_last());
    }
}

/// Nothing is stored for an exchange that the client left: where the
/// client took the chunks `delivered` and was gone when `lost` was handed
/// to it, no step stores a message, whatever is reported afterwards.
pub proof fn lemma_abandoned_exchange_stores_nothing(
    delivered: Seq<Seq<u8>>,
    lost: Seq<u8>,
    afterwards: Seq<EventView>,
)
    ensures
        ({
            let events = relayed(delivered).push(EventView::Chunk(lost)).push(
                EventView::ReceiverGone,
            ) + afterwards;
            &&& run(initial(), events).phase == Phase::Abandoned
            &&& forall|i: int|
                0 <= i < answers(initial(), events).len() ==> !(#[trigger] answers(
                    initial(),
                    events,
                )[i] is Persist)
        }),
{
    let chunk = EventView::Chunk(lost);
    let until_gone = relayed(delivered).push(chunk).push(EventView::ReceiverGone);
    let events = until_gone + afterwards;
    lemma_relayed(delivered);
    lemma_run_push(initial(), relayed(delivered), chunk);
    lemma_run_push(initial(), relayed(delivered).push(chunk), EventView::ReceiverGone);
    let gone = run(initial(), until_gone);
    assert(gone.phase == Phase::Abandoned);
    lemma_ended_exchange_is_final(gone, afterwards);
    lemma_run_concat(initial(), until_gone, afterwards);
    let early = answers(initial(), until_gone);
    let late = answers(gone, afterwards);
    assert forall|i: int| 0 <= i < answers(initial(), events).len() implies !(
    #[trigger] answers(initial(), events)[i] is Persist) by {
        if i < early.len() {
            assert(answers(initial(), events)[i] == early[i]);
            let relaying = answers(initial(), relayed(delivered));
            if i < relaying.len() {
                assert(early[i] == relaying[i]);
            }
        } else {
            assert(answers(initial(), events)[i] == late[i - early.len()]);
        }
    }
}

} // verus!
