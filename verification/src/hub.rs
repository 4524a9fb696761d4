//! The broadcast hub: one producer, any number of readers, a bounded history.
//!
//! The hub is a `tokio` broadcast channel. It keeps the most recent events:
//! as many as the capacity it was opened with, rounded up to a power of two.
//! A reader that falls further behind is told how many events it lost and
//! continues with the oldest event still retained. [`HubView`] says what
//! that means, event by event, for a hub that retains `capacity` events, and
//! the laws over it say what follows for readers.

use crate::event::SalvageEvent;
use tokio::sync::broadcast::{Receiver, Sender};
use vstd::prelude::*;

verus! {

/// Number of events the relay's hub retains for readers that fall behind.
pub const HUB_CAPACITY: usize = 512;

/// Outcome of one attempt to read from the hub.
#[derive(Clone, Copy, Debug, PartialEq, Eq)]
pub enum Received<T> {
    /// The next event in arrival order.
    Event(T),
    /// The producer overwrote this many events before the reader got to them.
    Lagged(u64),
    /// The hub was closed and the reader has seen everything that was published.
    Closed,
    /// The reader has caught up; the next event has not been published yet.
    Empty,
}

/// Why the hub did not take an event.
#[derive(Clone, Copy, Debug, PartialEq, Eq, Structural)]
pub enum PublishError {
    /// The producer side was closed earlier.
    Closed,
    /// Nobody is subscribed, so the event went to nobody.
    NoReaders,
}

/// The hub as a mathematical value: everything ever published, how much of its
/// tail is retained, and whether the producer side is closed.
pub struct HubView<T> {
    pub log: Seq<T>,
    pub capacity: nat,
    pub closed: bool,
}

impl<T> HubView<T> {
    /// Sequence number of the oldest event that is still retained.
    pub open spec fn oldest(self) -> nat {
        if self.log.len() > self.capacity {
            (self.log.len() - self.capacity) as nat
        } else {
            0
        }
    }

    /// The hub after one more event was handed to it.
    pub open spec fn publish(self, event: T) -> HubView<T> {
        HubView { log: self.log.push(event), capacity: self.capacity, closed: self.closed }
    }

    /// The hub after the producer side was closed.
    pub open spec fn close(self) -> HubView<T> {
        HubView { log: self.log, capacity: self.capacity, closed: true }
    }

    /// What a reader standing at `position` receives.
    pub open spec fn outcome(self, position: nat) -> Received<T> {
        if position >= self.log.len() {
            if self.closed {
                Received::Closed
            } else {
                Received::Empty
            }
        } else if position < self.oldest() {
            Received::Lagged((self.oldest() - position) as u64)
        } else {
            Received::Event(self.log[position as int])
        }
    }

    /// Where a reader that stood at `position` stands after receiving.
    pub open spec fn advance(self, position: nat) -> nat {
        if position >= self.log.len() {
            position
        } else if position < self.oldest() {
            self.oldest()
        } else {
            position + 1
        }
    }
}

/// The sending half of a `tokio` broadcast channel.
#[verifier::external_type_specification]
#[verifier::external_body]
#[verifier::reject_recursive_types(T)]
pub struct ExSender<T>(Sender<T>);

/// The receiving half of a `tokio` broadcast channel.
#[verifier::external_type_specification]
#[verifier::external_body]
#[verifier::reject_recursive_types(T)]
pub struct ExReceiver<T>(Receiver<T>);

/// The least power of two that is at least `n`, from `power` on.
pub open spec fn power_of_two_from(power: nat, n: nat) -> nat
    decreases
            (if n > power {
                n - power
            } else {
                0
            }),
{
    if power >= n || power == 0 {
        power
    } else {
        power_of_two_from(2 * power, n)
    }
}

/// The least power of two that is at least `n`.
pub open spec fn next_power_of_two(n: nat) -> nat {
    power_of_two_from(1, n)
}

/// How many events the channel of a sender retains: the capacity that the
/// channel was opened with, rounded up to a power of two by `tokio`.
pub uninterp spec fn retained(sender: Sender<SalvageEvent>) -> nat;

/// Calls `tokio::sync::broadcast::channel` and keeps the sending half. The
/// call panics on a capacity of zero or above half of `usize::MAX`, which
/// the precondition leaves out. The channel retains the capacity rounded up
/// to a power of two.
#[verifier::external_body]
fn open_channel(capacity: usize) -> (sender: Sender<SalvageEvent>)
    requires
        0 < capacity <= usize::MAX / 2,
    ensures
        retained(sender) == next_power_of_two(capacity as nat),
{
    tokio::sync::broadcast::channel(capacity).0
}

/// Calls `Sender::send`, which never waits, and says whether the event was
/// taken. It is not taken when no receiver is alive, which the sender's
/// value does not show: nothing is stated of the result.
#[verifier::external_body]
fn send(sender: &Sender<SalvageEvent>, event: SalvageEvent) -> (taken: bool) {
    sender.send(event).is_ok()
}

/// Calls `Sender::subscribe`. Nothing is stated of the receiver.
#[verifier::external_body]
fn new_receiver(sender: &Sender<SalvageEvent>) -> (receiver: Receiver<SalvageEvent>) {
    sender.subscribe()
}

/// The producer side of the hub.
pub struct Hub {
    sender: Option<Sender<SalvageEvent>>,
}

impl Hub {
    /// The channel that the hub publishes to; none once the hub is closed.
    pub closed spec fn channel(&self) -> Option<Sender<SalvageEvent>> {
        self.sender
    }

    /// Whether the producer side was closed.
    pub open spec fn closed(&self) -> bool {
        self.channel() is None
    }

    /// How many events an open hub retains.
    pub open spec fn capacity(&self) -> nat {
        match self.channel() {
            Some(sender) => retained(sender),
            None => 0,
        }
    }

    /// A hub that retains `capacity` events, rounded up to a power of two.
    pub fn with_capacity(capacity: usize) -> (hub: Hub)
        requires
            0 < capacity <= usize::MAX / 2,
        ensures
            !hub.closed(),
            hub.capacity() == next_power_of_two(capacity as nat),
    {
        Hub { sender: Some(open_channel(capacity)) }
    }

    /// A hub with the relay's capacity of 512 events.
    pub fn new() -> (hub: Hub)
        ensures
            !hub.closed(),
            hub.capacity() == HUB_CAPACITY,
    {
        proof {
            lemma_512_is_a_power_of_two();
        }
        Hub::with_capacity(HUB_CAPACITY)
    }

    /// Whether the producer side was closed.
    pub fn is_closed(&self) -> (closed: bool)
        ensures
            closed == self.closed(),
    {
        self.sender.is_none()
    }

    /// Hands one event to the hub. Never waits for a reader: when the hub is
    /// full the oldest retained event gives way. A closed hub takes nothing;
    /// an open hub takes the event unless nobody is subscribed.
    pub fn publish(&self, event: SalvageEvent) -> (result: Result<(), PublishError>)
        ensures
            self.closed() ==> result == Err::<(), PublishError>(PublishError::Closed),
            !self.closed() ==> result == Ok::<(), PublishError>(()) || result == Err::<
                (),
                PublishError,
            >(PublishError::NoReaders),
    {
        match &self.sender {
            Some(sender) => publish_outcome(send(sender, event)),
            None => Err(PublishError::Closed),
        }
    }

    /// A new reader. It starts at "now": it is not shown what was published
    /// before it subscribed. A closed hub has no new readers.
    pub fn subscribe(&self) -> (receiver: Option<Receiver<SalvageEvent>>)
        ensures
            receiver is Some <==> !self.closed(),
    {
        match &self.sender {
            Some(sender) => Some(new_receiver(sender)),
            None => None,
        }
    }

    /// Closes the producer side. Readers still receive what is retained, then
    /// `Closed`.
    pub fn close(&mut self)
        ensures
            final(self).closed(),
    {
        self.sender = None;
    }
}

/// Five hundred and twelve is its own next power of two.
pub proof fn lemma_512_is_a_power_of_two()
    ensures
        next_power_of_two(512) == 512,
{
    reveal_with_fuel(power_of_two_from, 11);
}

/// What `publish` reports for an open hub, given whether the event was taken.
pub fn publish_outcome(taken: bool) -> (result: Result<(), PublishError>)
    ensures
        result == (if taken {
            Ok::<(), PublishError>(())
        } else {
            Err::<(), PublishError>(PublishError::NoReaders)
        }),
{
    if taken {
        Ok(())
    } else {
        Err(PublishError::NoReaders)
    }
}

} // verus!
