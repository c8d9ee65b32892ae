//! The connection registry: for each base id at most one sink, the sending
//! end of the queue that feeds the connection of the reader with that id.

use std::collections::HashMap;
use tokio::sync::mpsc::{UnboundedReceiver, UnboundedSender};
use vstd::prelude::*;

use crate::access::UserId;

verus! {

broadcast use vstd::std_specs::hash::group_hash_axioms;

/// The sending end of an unbounded queue. Nothing inside it is visible here.
#[verifier::external_type_specification]
#[verifier::external_body]
#[verifier::reject_recursive_types(T)]
pub struct ExUnboundedSender<T>(UnboundedSender<T>);

/// The receiving end of an unbounded queue. Nothing inside it is visible
/// here.
#[verifier::external_type_specification]
#[verifier::external_body]
#[verifier::reject_recursive_types(T)]
pub struct ExUnboundedReceiver<T>(UnboundedReceiver<T>);

/// The sending end of a connection's outbound queue.
pub type Sink = UnboundedSender<String>;

/// The receiving end of a connection's outbound queue.
pub type Outbox = UnboundedReceiver<String>;

/// `tokio::sync::mpsc::unbounded_channel`: the two ends of a new queue.
/// Nothing is claimed of them.
#[verifier::external_body]
pub(crate) fn open_channel() -> (Sink, Outbox) {
    tokio::sync::mpsc::unbounded_channel()
}

/// `UnboundedSender::send`: puts the message on the queue and says whether
/// the queue took it, which it does not once its receiving end is closed or
/// gone. Whether that is so depends on the other end, so nothing is claimed
/// of the answer.
#[verifier::external_body]
fn sink_send(sink: &Sink, message: String) -> bool {
    sink.send(message).is_ok()
}

/// What became of an attempt to route a message.
#[derive(Clone, Copy, Debug, PartialEq, Eq, Structural)]
pub enum Routed {
    /// The sink of the base id took the message.
    Delivered,
    /// No sink is registered for the base id.
    NotFound,
    /// A sink is registered for the base id, but its queue is closed.
    Closed,
}

/// What a routing attempt comes to, from whether a sink was found and, if
/// one was, whether it took the message.
pub open spec fn routed_of(found: bool, taken: bool) -> Routed {
    if !found {
        Routed::NotFound
    } else if taken {
        Routed::Delivered
    } else {
        Routed::Closed
    }
}

/// The registry after a routing attempt: an entry whose queue is closed
/// leaves, and nothing else changes.
pub open spec fn settled<V>(before: Map<u64, V>, base_id: u64, routed: Routed) -> Map<u64, V> {
    if routed == Routed::Closed {
        before.remove(base_id)
    } else {
        before
    }
}

/// The live readers, by base id.
pub struct Registry {
    sinks: HashMap<u64, Sink>,
}

impl View for Registry {
    type V = Map<u64, Sink>;

    closed spec fn view(&self) -> Map<u64, Sink> {
        self.sinks@
    }
}

impl Registry {
    /// A registry without entries.
    pub fn new() -> (r: Registry)
        ensures
            r@ == Map::<u64, Sink>::empty(),
    {
        Registry { sinks: HashMap::new() }
    }

    /// Whether a sink is registered for `base_id`.
    pub fn is_registered(&self, base_id: UserId) -> (r: bool)
        ensures
            r == self@.contains_key(base_id),
    {
        self.sinks.contains_key(&base_id)
    }

    /// The number of entries.
    pub fn len(&self) -> (r: usize)
        ensures
            r == self@.len(),
    {
        self.sinks.len()
    }

    /// Sets the entry of `base_id` to `sink`. An earlier entry of that id is
    /// dropped from the registry; every other entry stays.
    pub fn register(&mut self, base_id: UserId, sink: Sink)
        ensures
            final(self)@ == old(self)@.insert(base_id, sink),
    {
        self.sinks.insert(base_id, sink);
    }

    /// Removes the entry of `base_id` if there is one.
    pub fn unregister(&mut self, base_id: UserId)
        ensures
            final(self)@ == old(self)@.remove(base_id),
    {
        self.sinks.remove(&base_id);
    }

    /// The sink registered for `base_id`, if there is one.
    pub fn sink_of(&self, base_id: UserId) -> (r: Option<&Sink>)
        ensures
            r is Some <==> self@.contains_key(base_id),
            r matches Some(sink) ==> *sink == self@[base_id],
    {
        self.sinks.get(&base_id)
    }

    /// Hands `message`, as it is, to the sink registered for `base_id`, and
    /// to no other; the registry stays as it is. With no sink for that id
    /// nothing is sent at all.
    pub fn try_route(&self, base_id: UserId, message: String) -> (r: Routed)
        ensures
            r == Routed::NotFound <==> !self@.contains_key(base_id),
    {
        hand_over(self.sink_of(base_id), message)
    }

    /// Applies the outcome of a routing attempt: the entry of a closed queue
    /// is removed. Says whether the message was delivered.
    pub fn settle(&mut self, base_id: UserId, routed: Routed) -> (delivered: bool)
        ensures
            delivered == (routed == Routed::Delivered),
            final(self)@ == settled(old(self)@, base_id, routed),
    {
        match routed {
            Routed::Delivered => true,
            Routed::NotFound => false,
            Routed::Closed => {
                self.unregister(base_id);
                false
            },
        }
    }

    /// Routes `message` to the reader of `base_id`. Without an entry for
    /// that id the answer is `false` and nothing changes. With one, the
    /// message is put on its queue; if the queue took it the answer is
    /// `true` and nothing changes, and if the queue is closed the answer is
    /// `false` and the entry is removed.
    pub fn route_message(&mut self, base_id: UserId, message: String) -> (delivered: bool)
        ensures
            !old(self)@.contains_key(base_id) ==> !delivered && final(self)@ == old(self)@,
            delivered ==> old(self)@.contains_key(base_id) && final(self)@ == old(self)@,
            !delivered ==> final(self)@ == old(self)@.remove(base_id),
    {
        let routed = self.try_route(base_id, message);
        let delivered = self.settle(base_id, routed);
        assert(!old(self)@.contains_key(base_id) ==> old(self)@.remove(base_id) =~= old(self)@);
        delivered
    }
}

/// Puts `message` on the queue of the sink that a lookup gave. Without a
/// sink nothing is sent and the outcome is not found; with one, the outcome
/// is delivered if its queue took the message and closed if it did not.
pub fn hand_over(sink: Option<&Sink>, message: String) -> (r: Routed)
    ensures
        r == Routed::NotFound <==> sink is None,
{
    match sink {
        Some(sink) => routing_result(true, sink_send(sink, message)),
        None => routing_result(false, false),
    }
}

/// Names the outcome of a routing attempt.
pub fn routing_result(found: bool, taken: bool) -> (r: Routed)
    ensures
        r == routed_of(found, taken),
{
    if !found {
        Routed::NotFound
    } else if taken {
        Routed::Delivered
    } else {
        Routed::Closed
    }
}

/// The last registration wins: after two registrations of one base id the
/// registry is as if only the second had been made, and holds the second
/// sink.
pub proof fn lemma_last_registration_wins<V>(entries: Map<u64, V>, base_id: u64, first: V, second: V)
    ensures
        entries.insert(base_id, first).insert(base_id, second) == entries.insert(base_id, second),
        entries.insert(base_id, first).insert(base_id, second)[base_id] == second,
{
    assert(entries.insert(base_id, first).insert(base_id, second) =~= entries.insert(
        base_id,
        second,
    ));
}

/// Removing is idempotent, harmless where there is no entry, and undoes a
/// registration of an id that had none.
pub proof fn lemma_unregister_idempotent<V>(entries: Map<u64, V>, base_id: u64, sink: V)
    ensures
        entries.remove(base_id).remove(base_id) == entries.remove(base_id),
        !entries.contains_key(base_id) ==> entries.remove(base_id) == entries,
        !entries.contains_key(base_id) ==> entries.insert(base_id, sink).remove(base_id)
            == entries,
        !entries.remove(base_id).contains_key(base_id),
{
    assert(entries.remove(base_id).remove(base_id) =~= entries.remove(base_id));
    if !entries.contains_key(base_id) {
        assert(entries.remove(base_id) =~= entries);
        assert(entries.insert(base_id, sink).remove(base_id) =~= entries);
    }
}

/// Entries of other base ids are untouched by registering, removing or
/// settling a routing attempt.
pub proof fn lemma_other_entries_kept<V>(
    entries: Map<u64, V>,
    base_id: u64,
    other: u64,
    sink: V,
    routed: Routed,
)
    requires
        other != base_id,
    ensures
        entries.insert(base_id, sink).contains_key(other) == entries.contains_key(other),
        entries.remove(base_id).contains_key(other) == entries.contains_key(other),
        settled(entries, base_id, routed).contains_key(other) == entries.contains_key(other),
        entries.contains_key(other) ==> entries.insert(base_id, sink)[other] == entries[other]
            && entries.remove(base_id)[other] == entries[other] && settled(
            entries,
            base_id,
            routed,
        )[other] == entries[other],
{
}

} // verus!
