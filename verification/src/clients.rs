//! The registry of downstream subscribers.
//!
//! Every subscriber gets an identifier that no other subscriber of the same
//! registry ever had, and an unbounded channel on which the relay hands it
//! what it is to send.

use std::collections::HashMap;
use tokio::sync::mpsc::{UnboundedReceiver, UnboundedSender};
use vstd::prelude::*;

verus! {

broadcast use vstd::std_specs::hash::group_hash_axioms;

/// The sending half of an unbounded `tokio` channel.
#[verifier::external_type_specification]
#[verifier::external_body]
#[verifier::reject_recursive_types(T)]
pub struct ExUnboundedSender<T>(UnboundedSender<T>);

/// The receiving half of an unbounded `tokio` channel.
#[verifier::external_type_specification]
#[verifier::external_body]
#[verifier::reject_recursive_types(T)]
pub struct ExUnboundedReceiver<T>(UnboundedReceiver<T>);

/// What the relay hands to a subscriber's connection.
#[derive(Clone, Debug, PartialEq, Eq)]
pub enum Outbound {
    /// A text frame with this payload.
    Text(String),
    /// A close frame with this code and reason.
    Close { code: u16, reason: String },
}

impl Outbound {
    /// A copy of this message.
    pub fn copy(&self) -> (copy: Outbound)
        ensures
            copy == *self,
    {
        match self {
            Outbound::Text(payload) => Outbound::Text(payload.clone()),
            Outbound::Close { code, reason } => Outbound::Close {
                code: *code,
                reason: reason.clone(),
            },
        }
    }
}

/// Whether the two are the halves of one channel, as
/// `tokio::sync::mpsc::unbounded_channel` hands them out together.
pub uninterp spec fn is_pair(
    sender: UnboundedSender<Outbound>,
    receiver: UnboundedReceiver<Outbound>,
) -> bool;

/// Calls `tokio::sync::mpsc::unbounded_channel`, which hands out the two
/// halves of a new channel.
#[verifier::external_body]
fn open_channel() -> (halves: (UnboundedSender<Outbound>, UnboundedReceiver<Outbound>))
    ensures
        is_pair(halves.0, halves.1),
{
    tokio::sync::mpsc::unbounded_channel()
}

/// Calls `UnboundedSender::send`, which never waits, and says whether the
/// message was taken. It is refused when the receiving half is closed or
/// gone, which the sender's value does not show: nothing is stated of the
/// result.
#[verifier::external_body]
fn deliver(sender: &UnboundedSender<Outbound>, message: Outbound) -> (taken: bool) {
    sender.send(message).is_ok()
}

/// What became of one attempt to hand a message to a subscriber.
#[derive(Clone, Copy, Debug, PartialEq, Eq, Structural)]
pub struct Delivery {
    pub id: u64,
    pub delivered: bool,
}

/// The registry as a mathematical value: the identifier that the next
/// subscriber gets, and the sender kept under the identifier of every
/// registered subscriber.
pub struct ClientsView {
    pub next_id: nat,
    pub senders: Map<u64, UnboundedSender<Outbound>>,
}

impl ClientsView {
    /// The identifiers of the registered subscribers.
    pub open spec fn ids(self) -> Set<u64> {
        self.senders.dom()
    }

    /// The registered identifiers are at least one and below the next one.
    pub open spec fn wf(self) -> bool {
        &&& 1 <= self.next_id <= u64::MAX
        &&& forall|id: u64| #[trigger] self.senders.contains_key(id) ==> 1 <= id < self.next_id
    }

    /// Whether another subscriber can be registered.
    pub open spec fn has_room(self) -> bool {
        self.next_id < u64::MAX
    }

    /// The registry after one more subscriber was registered, with `sender`
    /// kept under its identifier.
    pub open spec fn register(self, sender: UnboundedSender<Outbound>) -> ClientsView {
        ClientsView {
            next_id: self.next_id + 1,
            senders: self.senders.insert(self.next_id as u64, sender),
        }
    }

    /// The registry after the subscriber `id` left: every other subscriber
    /// keeps its sender.
    pub open spec fn deregister(self, id: u64) -> ClientsView {
        ClientsView { next_id: self.next_id, senders: self.senders.remove(id) }
    }

    /// Whether `report` holds one attempt for every registered subscriber
    /// and no other.
    pub open spec fn is_round(self, report: Seq<Delivery>) -> bool {
        &&& report.len() == self.senders.dom().len()
        &&& forall|i: int| 0 <= i < report.len() ==> self.senders.contains_key(
            (#[trigger] report[i]).id,
        )
        &&& forall|i: int, j: int|
            0 <= i < j < report.len() ==> (#[trigger] report[i]).id != (#[trigger] report[j]).id
    }
}

/// Shared registry of the connected subscribers.
pub struct Clients {
    next_id: u64,
    senders: HashMap<u64, UnboundedSender<Outbound>>,
}

impl View for Clients {
    type V = ClientsView;

    closed spec fn view(&self) -> ClientsView {
        ClientsView { next_id: self.next_id as nat, senders: self.senders@ }
    }
}

impl Clients {
    /// Every registry is well formed.
    #[verifier::type_invariant]
    pub open spec fn is_well_formed(self) -> bool {
        self@.wf()
    }

    /// An empty registry whose first subscriber gets the identifier 1.
    pub fn new() -> (clients: Clients)
        ensures
            clients@.wf(),
            clients@.next_id == 1,
            clients@.senders == Map::<u64, UnboundedSender<Outbound>>::empty(),
    {
        Clients { next_id: 1, senders: HashMap::new() }
    }

    /// Number of registered subscribers.
    pub fn len(&self) -> (count: usize)
        ensures
            count == self@.ids().len(),
    {
        self.senders.len()
    }

    /// The identifiers of the registered subscribers, each once, in no
    /// particular order.
    pub fn ids(&self) -> (ids: Vec<u64>)
        ensures
            ids@.len() == self@.ids().len(),
            ids@.no_duplicates(),
            forall|i: int| 0 <= i < ids@.len() ==> self@.ids().contains(#[trigger] ids@[i]),
    {
        let mut ids: Vec<u64> = Vec::new();
        for pair in it: self.senders.iter()
            invariant
                ids@.len() == it.index(),
                forall|i: int| 0 <= i < ids@.len() ==> ids@[i] == *it.seq()[i].0,
                it.seq().no_duplicates(),
                forall|i: int|
                    0 <= i < it.seq().len() ==> self.senders@.contains_key(
                        *(#[trigger] it.seq()[i]).0,
                    ) && self.senders@[*it.seq()[i].0] == *it.seq()[i].1,
                forall|i: int, j: int| 0 <= i < j < ids@.len() ==> ids@[i] != ids@[j],
        {
            proof {
                let n = ids@.len() as int;
                assert forall|i: int| 0 <= i < n implies ids@[i] != *pair.0 by {
                    if ids@[i] == *pair.0 {
                        assert(it.seq()[i] == it.seq()[n]);
                    }
                }
            }
            ids.push(*pair.0);
        }
        ids
    }

    /// Registers a subscriber: assigns the next identifier, opens the
    /// subscriber's channel and keeps its sending half under the identifier.
    /// Hands back the identifier and the receiving half; `None`, and no
    /// change, when the identifiers are used up.
    pub fn register(&mut self) -> (registered: Option<(u64, UnboundedReceiver<Outbound>)>)
        ensures
            final(self)@.wf(),
            registered is Some <==> old(self)@.has_room(),
            registered matches Some(entry) ==> {
                &&& entry.0 == old(self)@.next_id
                &&& final(self)@.senders.contains_key(entry.0)
                &&& is_pair(final(self)@.senders[entry.0], entry.1)
                &&& final(self)@ == old(self)@.register(final(self)@.senders[entry.0])
            },
            registered is None ==> final(self)@ == old(self)@,
    {
        proof {
            use_type_invariant(&*self);
        }
        if self.next_id == u64::MAX {
            return None;
        }
        let id = self.next_id;
        let (sender, receiver) = open_channel();
        let ghost kept = sender;
        proof {
            assert(self@.wf());
            assert forall|other: u64| #[trigger]
                self.senders@.contains_key(other) implies 1 <= other < id + 1 by {
                assert(self@.senders.contains_key(other));
            }
        }
        self.next_id = id + 1;
        let mut senders: HashMap<u64, UnboundedSender<Outbound>> = HashMap::new();
        std::mem::swap(&mut self.senders, &mut senders);
        senders.insert(id, sender);
        proof {
            assert forall|other: u64| #[trigger]
                senders@.contains_key(other) implies 1 <= other < self@.next_id by {
                if other != id {
                    assert(old(self)@.senders.contains_key(other));
                }
            }
        }
        std::mem::swap(&mut self.senders, &mut senders);
        proof {
            assert(self@.senders[id] == kept);
            assert forall|other: u64| #[trigger]
                self@.senders.contains_key(other) implies 1 <= other < self@.next_id by {
                if other != id {
                    assert(old(self)@.senders.contains_key(other));
                }
            }
        }
        Some((id, receiver))
    }

    /// Takes the subscriber `id` out of the registry and says whether it was
    /// there. Taking out one that is not there changes nothing.
    pub fn deregister(&mut self, id: u64) -> (present: bool)
        ensures
            final(self)@.wf(),
            final(self)@ == old(self)@.deregister(id),
            present == old(self)@.ids().contains(id),
    {
        proof {
            use_type_invariant(&*self);
        }
        let mut senders: HashMap<u64, UnboundedSender<Outbound>> = HashMap::new();
        std::mem::swap(&mut self.senders, &mut senders);
        let present = senders.remove(&id).is_some();
        proof {
            assert forall|other: u64| #[trigger]
                senders@.contains_key(other) implies 1 <= other < self@.next_id by {
                assert(old(self)@.senders.contains_key(other));
            }
        }
        std::mem::swap(&mut self.senders, &mut senders);
        proof {
            assert forall|other: u64| #[trigger]
                self@.senders.contains_key(other) implies 1 <= other < self@.next_id by {
                assert(old(self)@.senders.contains_key(other));
            }
        }
        present
    }

    /// Attempts once, without waiting, to hand a copy of `message` to every
    /// registered subscriber. A subscriber whose connection is gone does not
    /// take it; the attempt is not repeated and the subscriber stays
    /// registered.
    pub fn broadcast(&self, message: &Outbound) -> (report: Vec<Delivery>)
        ensures
            self@.is_round(report@),
    {
        let mut report: Vec<Delivery> = Vec::new();
        for pair in it: self.senders.iter()
            invariant
                report@.len() == it.index(),
                forall|i: int| 0 <= i < report@.len() ==> report@[i].id == *it.seq()[i].0,
                it.seq().len() == self.senders@.dom().len(),
                it.seq().no_duplicates(),
                forall|i: int|
                    0 <= i < it.seq().len() ==> self.senders@.contains_key(
                        *(#[trigger] it.seq()[i]).0,
                    ) && self.senders@[*it.seq()[i].0] == *it.seq()[i].1,
                forall|i: int, j: int|
                    0 <= i < j < report@.len() ==> (#[trigger] report@[i]).id != (
                    #[trigger] report@[j]).id,
        {
            proof {
                let n = report@.len() as int;
                assert forall|i: int| 0 <= i < n implies report@[i].id != *pair.0 by {
                    if report@[i].id == *pair.0 {
                        assert(it.seq()[i] == it.seq()[n]);
                    }
                }
            }
            let delivered = deliver(pair.1, message.copy());
            report.push(Delivery { id: *pair.0, delivered });
        }
        report
    }
}

/// A subscriber connected: registers it. See [`Clients::register`].
pub fn handle_websocket_ledger_proxy_connected(clients: &mut Clients) -> (registered: Option<
    (u64, UnboundedReceiver<Outbound>),
>)
    ensures
        final(clients)@.wf(),
        registered is Some <==> old(clients)@.has_room(),
        registered matches Some(entry) ==> {
            &&& entry.0 == old(clients)@.next_id
            &&& final(clients)@.senders.contains_key(entry.0)
            &&& is_pair(final(clients)@.senders[entry.0], entry.1)
            &&& final(clients)@ == old(clients)@.register(final(clients)@.senders[entry.0])
        },
        registered is None ==> final(clients)@ == old(clients)@,
{
    clients.register()
}

/// A subscriber's connection ended: takes it out of the registry.
pub fn handle_websocket_ledger_proxy_disconnected(my_id: u64, clients: &mut Clients)
    ensures
        final(clients)@.wf(),
        final(clients)@ == old(clients)@.deregister(my_id),
{
    clients.deregister(my_id);
}

} // verus!
