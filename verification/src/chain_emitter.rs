//! The chain: a bounded audit log of events, with live subscribers.
//!
//! The emitter keeps the last events in a ring buffer and hands every event
//! to a `tokio` broadcast channel, from which subscribers read. The channel
//! is the crate's: the emitter only sends into it and makes receivers of it.
use vstd::prelude::*;
use std::collections::VecDeque;
use crate::actor::{Event, EventModel};

verus! {

/// How many events the broadcast channel holds for a subscriber that lags.
pub const SUBSCRIBER_BUFFER: usize = 1000;

/// How many events an emitter keeps unless told otherwise.
pub const DEFAULT_HISTORY: usize = 1000;

/// An audit record: an event and the time it was recorded at.
#[derive(Debug)]
pub struct ChainEvent {
    pub event: Event,
    pub timestamp: String,
}

/// What a [`ChainEvent`] holds.
pub struct ChainEventModel {
    pub event: EventModel,
    pub timestamp: Seq<char>,
}

impl View for ChainEvent {
    type V = ChainEventModel;

    open spec fn view(&self) -> ChainEventModel {
        ChainEventModel { event: self.event@, timestamp: self.timestamp@ }
    }
}

impl Clone for ChainEvent {
    fn clone(&self) -> (copy: ChainEvent)
        ensures
            copy@ == self@,
    {
        ChainEvent { event: self.event.clone(), timestamp: self.timestamp.clone() }
    }
}

impl ChainEvent {
    /// The record of `event` at the time `timestamp`.
    pub fn new(event: Event, timestamp: String) -> (record: ChainEvent)
        ensures
            record@ == (ChainEventModel { event: event@, timestamp: timestamp@ }),
    {
        ChainEvent { event, timestamp }
    }
}

/// What a list of records holds, record by record.
pub open spec fn chain_views(events: Seq<ChainEvent>) -> Seq<ChainEventModel> {
    events.map_values(|e: ChainEvent| e@)
}

/// A ring buffer of `capacity` items after one more item: the item is added
/// at the end, and where the buffer was full its oldest item leaves. A buffer
/// of capacity 0 keeps nothing.
pub open spec fn ring_push<T>(history: Seq<T>, item: T, capacity: nat) -> Seq<T> {
    if capacity == 0 {
        history
    } else if history.len() >= capacity {
        history.drop_first().push(item)
    } else {
        history.push(item)
    }
}

/// A ring buffer of `capacity` items that holds `history`, after the items of
/// `events` in order.
pub open spec fn extend_history<T>(history: Seq<T>, events: Seq<T>, capacity: nat) -> Seq<T>
    decreases events.len(),
{
    if events.len() == 0 {
        history
    } else {
        ring_push(extend_history(history, events.drop_last(), capacity), events.last(), capacity)
    }
}

/// A ring buffer of `capacity` items, empty at first, after the items of
/// `events` in order.
pub open spec fn history_after<T>(events: Seq<T>, capacity: nat) -> Seq<T> {
    extend_history(Seq::empty(), events, capacity)
}

/// The last `capacity` items of `events`: all of them where there are no
/// more than that.
pub open spec fn last_items<T>(events: Seq<T>, capacity: nat) -> Seq<T> {
    if events.len() <= capacity {
        events
    } else {
        events.skip(events.len() - capacity)
    }
}

/// A ring buffer holds the last items put into it, in the order in which
/// they came: after more items than it has room for, exactly as many as it
/// has room for.
pub proof fn lemma_history_keeps_last<T>(events: Seq<T>, capacity: nat)
    ensures
        history_after(events, capacity) == last_items(events, capacity),
        history_after(events, capacity).len() <= capacity,
    decreases events.len(),
{
    if events.len() > 0 {
        lemma_history_keeps_last(events.drop_last(), capacity);
    }
}

/// After `capacity + k` events, with `k > 0`, the history is the last
/// `capacity` of them, oldest first.
pub proof fn lemma_overflow_keeps_capacity<T>(events: Seq<T>, capacity: nat, k: nat)
    requires
        k > 0,
        events.len() == capacity + k,
    ensures
        history_after(events, capacity).len() == capacity,
        history_after(events, capacity) == events.skip(k as int),
{
    lemma_history_keeps_last(events, capacity);
}

/// Putting events into a ring buffer one after the other is putting in
/// their concatenation.
pub proof fn lemma_extend_history_concat<T>(
    history: Seq<T>,
    first: Seq<T>,
    second: Seq<T>,
    capacity: nat,
)
    ensures
        extend_history(extend_history(history, first, capacity), second, capacity)
            == extend_history(history, first + second, capacity),
    decreases second.len(),
{
    if second.len() == 0 {
        assert(first + second =~= first);
    } else {
        lemma_extend_history_concat(history, first, second.drop_last(), capacity);
        assert((first + second).drop_last() =~= first + second.drop_last());
    }
}

#[verifier::external_type_specification]
#[verifier::external_body]
#[verifier::reject_recursive_types(T)]
pub struct ExBroadcastSender<T>(tokio::sync::broadcast::Sender<T>);

#[verifier::external_type_specification]
#[verifier::external_body]
#[verifier::reject_recursive_types(T)]
pub struct ExBroadcastReceiver<T>(tokio::sync::broadcast::Receiver<T>);

/// The events that have been queued in the channel through a sender, oldest
/// first. Only sending queues an event, and the emitter never shares its
/// sender. The event queued as the `n`-th takes the position `n`, counted in
/// 64 bits.
pub uninterp spec fn channel_queued(tx: tokio::sync::broadcast::Sender<ChainEvent>) -> Seq<
    ChainEventModel,
>;

/// The position of the next event that a receiver will read. A receiver is
/// never handed an event of an earlier position.
pub uninterp spec fn receiver_position(rx: tokio::sync::broadcast::Receiver<ChainEvent>) -> u64;

/// The position that the event queued after `queued` events takes.
pub open spec fn position_after(queued: nat) -> u64 {
    (queued % 0x1_0000_0000_0000_0000) as u64
}

/// `tokio::sync::broadcast::channel`, of which the sending half is kept. The
/// call panics on a capacity of 0 or of more than half of `usize::MAX`.
/// Assumed, as the source shows: nothing is queued in the new channel.
#[verifier::external_body]
fn broadcast_channel(capacity: usize) -> (tx: tokio::sync::broadcast::Sender<ChainEvent>)
    requires
        0 < capacity <= usize::MAX / 2,
    ensures
        channel_queued(tx) == Seq::<ChainEventModel>::empty(),
{
    tokio::sync::broadcast::channel(capacity).0
}

/// `tokio::sync::broadcast::Sender::send`: the number of receivers that the
/// event was queued for, or `None` where there is no receiver. Assumed, as
/// documented and as the source shows: with a receiver, and only then, the
/// event is queued, after those queued before.
#[verifier::external_body]
fn broadcast_send(tx: &mut tokio::sync::broadcast::Sender<ChainEvent>, event: ChainEvent) -> (r:
    Option<usize>)
    ensures
        r matches Some(n) ==> n > 0 && channel_queued(*final(tx)) == channel_queued(
            *old(tx),
        ).push(event@),
        r is None ==> channel_queued(*final(tx)) == channel_queued(*old(tx)),
{
    tx.send(event).ok()
}

/// `tokio::sync::broadcast::Sender::subscribe`: a receiver of the events sent
/// after this call. Assumed, as documented and as the source shows: the
/// receiver starts at the position that the next event queued will take. The
/// call panics once a quarter of `usize::MAX` receivers are alive at the same
/// time; how many are alive changes whenever one is dropped, so no contract
/// can speak of it.
#[verifier::external_body]
fn broadcast_subscribe(tx: &tokio::sync::broadcast::Sender<ChainEvent>) -> (rx:
    tokio::sync::broadcast::Receiver<ChainEvent>)
    ensures
        receiver_position(rx) == position_after(channel_queued(*tx).len()),
{
    tx.subscribe()
}

/// The audit log.
pub struct ChainEmitter {
    history: VecDeque<ChainEvent>,
    max_history: usize,
    tx: tokio::sync::broadcast::Sender<ChainEvent>,
}

impl Default for ChainEmitter {
    /// An emitter that keeps the last 1000 events.
    fn default() -> (emitter: ChainEmitter)
        ensures
            emitter.capacity() == DEFAULT_HISTORY,
            emitter.history() == Seq::<ChainEventModel>::empty(),
            emitter.queued() == Seq::<ChainEventModel>::empty(),
    {
        ChainEmitter::new(DEFAULT_HISTORY)
    }
}

impl ChainEmitter {
    /// The events kept, oldest first.
    pub closed spec fn history(&self) -> Seq<ChainEventModel> {
        chain_views(self.history@)
    }

    /// How many events are kept at most.
    pub closed spec fn capacity(&self) -> nat {
        self.max_history as nat
    }

    /// The events that have been handed to subscribers, oldest first: those
    /// emitted while there was a subscriber.
    pub closed spec fn queued(&self) -> Seq<ChainEventModel> {
        channel_queued(self.tx)
    }

    /// An emitter that keeps the last `max_history` events, has kept none
    /// yet and has handed none to subscribers.
    pub fn new(max_history: usize) -> (emitter: ChainEmitter)
        ensures
            emitter.capacity() == max_history,
            emitter.history() == Seq::<ChainEventModel>::empty(),
            emitter.queued() == Seq::<ChainEventModel>::empty(),
    {
        let tx = broadcast_channel(SUBSCRIBER_BUFFER);
        ChainEmitter { history: VecDeque::new(), max_history, tx }
    }

    /// Records an event: it is added to the history, from which the oldest
    /// event leaves where the history was full, and it is handed to the
    /// subscribers. Returns to how many subscribers it was handed. Where
    /// there is one, it is this event that they are handed, after every
    /// event handed to them before.
    pub fn emit(&mut self, event: ChainEvent) -> (receivers: usize)
        ensures
            final(self).capacity() == old(self).capacity(),
            final(self).history() == ring_push(old(self).history(), event@, old(self).capacity()),
            final(self).queued() == if receivers > 0 {
                old(self).queued().push(event@)
            } else {
                old(self).queued()
            },
    {
        let copy = event.clone();
        if self.max_history > 0 {
            if self.history.len() >= self.max_history {
                let _ = self.history.pop_front();
            }
            self.history.push_back(event);
        }
        match broadcast_send(&mut self.tx, copy) {
            Some(n) => n,
            None => 0,
        }
    }

    /// A receiver of the events emitted from now on. It starts at the
    /// position that the next event handed to subscribers will take, so it is
    /// never handed an event that was emitted before, whether the history
    /// still keeps it or not.
    pub fn subscribe(&self) -> (receiver: tokio::sync::broadcast::Receiver<ChainEvent>)
        ensures
            receiver_position(receiver) == position_after(self.queued().len()),
    {
        broadcast_subscribe(&self.tx)
    }

    /// A copy of the history as it is now, oldest event first.
    pub fn get_history(&self) -> (events: Vec<ChainEvent>)
        ensures
            chain_views(events@) == self.history(),
    {
        let mut events: Vec<ChainEvent> = Vec::new();
        let mut i: usize = 0;
        while i < self.history.len()
            invariant
                i <= self.history@.len(),
                events@.len() == i,
                forall|k: int| 0 <= k < i ==> (#[trigger] events@[k])@ == self.history@[k]@,
            decreases self.history@.len() - i,
        {
            events.push(self.history[i].clone());
            i = i + 1;
        }
        events
    }
}

} // verus!
