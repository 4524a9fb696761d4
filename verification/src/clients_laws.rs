//! What holds of every registry, proved over [`ClientsView`].

use crate::clients::{ClientsView, Outbound};
use tokio::sync::mpsc::UnboundedSender;
use vstd::prelude::*;

verus! {

/// One change to a registry.
pub enum Change {
    /// A subscriber is registered, with this sender kept for it.
    Register(UnboundedSender<Outbound>),
    /// The subscriber with this identifier is taken out.
    Deregister(u64),
}

/// The registry after one change. A registration without room changes nothing.
pub open spec fn changed(clients: ClientsView, change: Change) -> ClientsView {
    match change {
        Change::Register(sender) => if clients.has_room() {
            clients.register(sender)
        } else {
            clients
        },
        Change::Deregister(id) => clients.deregister(id),
    }
}

/// The registry after a sequence of changes.
pub open spec fn changed_by(clients: ClientsView, changes: Seq<Change>) -> ClientsView
    decreases changes.len(),
{
    if changes.len() == 0 {
        clients
    } else {
        changed(changed_by(clients, changes.drop_last()), changes.last())
    }
}

/// The identifiers that the registrations among `changes` were given, in order.
pub open spec fn issued(clients: ClientsView, changes: Seq<Change>) -> Seq<u64>
    decreases changes.len(),
{
    if changes.len() == 0 {
        Seq::empty()
    } else {
        let before = changed_by(clients, changes.drop_last());
        let earlier = issued(clients, changes.drop_last());
        if changes.last() is Register && before.has_room() {
            earlier.push(before.next_id as u64)
        } else {
            earlier
        }
    }
}

/// One change keeps a registry well formed and never lowers the next identifier.
pub proof fn lemma_change_keeps_wf(clients: ClientsView, change: Change)
    requires
        clients.wf(),
    ensures
        changed(clients, change).wf(),
        changed(clients, change).next_id >= clients.next_id,
{
}

/// Whatever changes a registry goes through, it stays well formed and every
/// identifier it has given out is below the identifier it gives out next.
pub proof fn lemma_issued_below_next(clients: ClientsView, changes: Seq<Change>)
    requires
        clients.wf(),
    ensures
        changed_by(clients, changes).wf(),
        changed_by(clients, changes).next_id >= clients.next_id,
        forall|i: int|
            0 <= i < issued(clients, changes).len() ==> clients.next_id <= #[trigger] issued(
                clients,
                changes,
            )[i] < changed_by(clients, changes).next_id,
        forall|i: int, j: int|
            0 <= i < j < issued(clients, changes).len() ==> #[trigger] issued(clients, changes)[i]
                < #[trigger] issued(clients, changes)[j],
    decreases changes.len(),
{
    if changes.len() > 0 {
        lemma_issued_below_next(clients, changes.drop_last());
        lemma_change_keeps_wf(changed_by(clients, changes.drop_last()), changes.last());
        let earlier = issued(clients, changes.drop_last());
        let now = issued(clients, changes);
        assert forall|i: int| 0 <= i < now.len() implies clients.next_id <= #[trigger] now[i]
            < changed_by(clients, changes).next_id by {
            if i < earlier.len() {
                assert(now[i] == earlier[i]);
            }
        }
        assert forall|i: int, j: int| 0 <= i < j < now.len() implies #[trigger] now[i]
            < #[trigger] now[j] by {
            assert(now[i] == earlier[i]);
            if j < earlier.len() {
                assert(now[j] == earlier[j]);
            }
        }
    }
}

/// Registrations yield strictly increasing, hence distinct, identifiers, in
/// whatever way departures are mixed in: of any two registrations the later
/// one gets the larger identifier.
pub proof fn lemma_identifiers_strictly_increase(
    clients: ClientsView,
    changes: Seq<Change>,
    i: int,
    j: int,
)
    requires
        clients.wf(),
        0 <= i < j < issued(clients, changes).len(),
    ensures
        issued(clients, changes)[i] < issued(clients, changes)[j],
{
    lemma_issued_below_next(clients, changes);
}

/// Taking a subscriber out a second time changes nothing.
pub proof fn lemma_deregister_twice(clients: ClientsView, id: u64)
    ensures
        clients.deregister(id).deregister(id) == clients.deregister(id),
{
    assert(clients.senders.remove(id).remove(id) =~= clients.senders.remove(id));
}

/// After a departure every other subscriber still has its own sender under
/// its identifier, and the one that left has none.
pub proof fn lemma_departure_keeps_senders(clients: ClientsView, id: u64, other: u64)
    ensures
        !clients.deregister(id).senders.contains_key(id),
        other != id ==> clients.deregister(id).senders.contains_key(other)
            == clients.senders.contains_key(other),
        other != id && clients.senders.contains_key(other) ==> clients.deregister(id).senders[other]
            == clients.senders[other],
{
}

/// A new subscriber's sender stands under its identifier, which was free
/// before, and every other subscriber keeps its own.
pub proof fn lemma_arrival_keeps_senders(
    clients: ClientsView,
    sender: UnboundedSender<Outbound>,
    other: u64,
)
    requires
        clients.wf(),
    ensures
        !clients.senders.contains_key(clients.next_id as u64),
        clients.register(sender).senders[clients.next_id as u64] == sender,
        other != clients.next_id ==> clients.register(sender).senders.contains_key(other)
            == clients.senders.contains_key(other),
        other != clients.next_id && clients.senders.contains_key(other) ==> clients.register(
            sender,
        ).senders[other] == clients.senders[other],
{
    if clients.senders.contains_key(clients.next_id as u64) {
        assert((clients.next_id as u64) < clients.next_id);
    }
}

} // verus!
