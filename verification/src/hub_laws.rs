//! What holds of every hub, proved over [`HubView`].

use crate::hub::{HubView, Received};
use vstd::prelude::*;

verus! {

/// The hub after a sequence of events was published to it, first to last.
pub open spec fn publish_all<T>(hub: HubView<T>, events: Seq<T>) -> HubView<T>
    decreases events.len(),
{
    if events.len() == 0 {
        hub
    } else {
        publish_all(hub, events.drop_last()).publish(events.last())
    }
}

/// Publishing appends to the log and changes nothing else.
pub proof fn lemma_publish_all<T>(hub: HubView<T>, events: Seq<T>)
    ensures
        publish_all(hub, events).log == hub.log + events,
        publish_all(hub, events).capacity == hub.capacity,
        publish_all(hub, events).closed == hub.closed,
    decreases events.len(),
{
    if events.len() > 0 {
        lemma_publish_all(hub, events.drop_last());
        assert(events == events.drop_last().push(events.last()));
        assert(hub.log + events == (hub.log + events.drop_last()).push(events.last()));
    }
}

/// A reader that has caught up and reads after every publish loses nothing:
/// its read after the publish of `events[i]` yields `events[i]` and leaves it
/// caught up again.
pub proof fn lemma_prompt_reader_sees_every_event<T>(hub: HubView<T>, events: Seq<T>, i: int)
    requires
        hub.capacity > 0,
        0 <= i < events.len(),
    ensures
        ({
            let now = publish_all(hub, events.take(i + 1));
            let position = (hub.log.len() + i) as nat;
            &&& now.outcome(position) == Received::Event(events[i])
            &&& now.advance(position) == now.log.len()
        }),
{
    lemma_publish_all(hub, events.take(i + 1));
}

/// A reader that stalled for more than the capacity is told exactly how many
/// events it lost and is moved to the oldest event still retained.
pub proof fn lemma_stalled_reader_is_told_its_loss<T>(hub: HubView<T>, position: nat)
    requires
        hub.log.len() <= u64::MAX,
        hub.log.len() - position > hub.capacity,
    ensures
        hub.outcome(position) == Received::<T>::Lagged(
            (hub.log.len() - hub.capacity - position) as u64,
        ),
        hub.advance(position) == hub.log.len() - hub.capacity,
{
}

/// From the oldest retained event on, every read yields the event at the
/// reader's position and moves the reader one further: after a lag the reader
/// receives the retained events in order, none left out.
pub proof fn lemma_reader_resumes_after_lag<T>(hub: HubView<T>, position: nat)
    requires
        hub.oldest() <= position < hub.log.len(),
    ensures
        hub.outcome(position) == Received::Event(hub.log[position as int]),
        hub.advance(position) == position + 1,
{
}

/// One thing that happens to a hub and its readers.
pub enum Step<T> {
    /// The producer hands over an event.
    Publish(T),
    /// The producer side is closed.
    Close,
    /// A new reader subscribes.
    Subscribe,
    /// The reader with this index attempts to receive.
    Read(nat),
}

/// A hub together with its readers: where each stands and the sequence
/// numbers of the events each has been handed so far, in the order it got them.
pub struct Run<T> {
    pub hub: HubView<T>,
    pub positions: Seq<nat>,
    pub seen: Seq<Seq<nat>>,
}

impl<T> Run<T> {
    /// An empty hub without readers.
    pub open spec fn start(capacity: nat) -> Run<T> {
        Run {
            hub: HubView { log: Seq::empty(), capacity, closed: false },
            positions: Seq::empty(),
            seen: Seq::empty(),
        }
    }

    pub open spec fn step(self, step: Step<T>) -> Run<T> {
        match step {
            Step::Publish(event) => if self.hub.closed {
                self
            } else {
                Run { hub: self.hub.publish(event), positions: self.positions, seen: self.seen }
            },
            Step::Close => Run {
                hub: self.hub.close(),
                positions: self.positions,
                seen: self.seen,
            },
            Step::Subscribe => Run {
                hub: self.hub,
                positions: self.positions.push(self.hub.log.len()),
                seen: self.seen.push(Seq::empty()),
            },
            Step::Read(reader) => if reader < self.positions.len() && reader < self.seen.len() {
                let position = self.positions[reader as int];
                Run {
                    hub: self.hub,
                    positions: self.positions.update(reader as int, self.hub.advance(position)),
                    seen: if self.hub.outcome(position) is Event {
                        self.seen.update(reader as int, self.seen[reader as int].push(position))
                    } else {
                        self.seen
                    },
                }
            } else {
                self
            },
        }
    }

    pub open spec fn after(self, steps: Seq<Step<T>>) -> Run<T>
        decreases steps.len(),
    {
        if steps.len() == 0 {
            self
        } else {
            self.after(steps.drop_last()).step(steps.last())
        }
    }

    /// Every reader was handed events with strictly increasing sequence
    /// numbers, all of them below its position, which is within the log.
    pub open spec fn orderly(self) -> bool {
        &&& self.positions.len() == self.seen.len()
        &&& forall|r: int|
            0 <= r < self.positions.len() ==> #[trigger] self.positions[r] <= self.hub.log.len()
        &&& forall|r: int, i: int|
            0 <= r < self.seen.len() && 0 <= i < self.seen[r].len() ==> #[trigger] self.seen[r][i]
                < self.positions[r]
        &&& forall|r: int, i: int, j: int|
            0 <= r < self.seen.len() && 0 <= i < j < self.seen[r].len() ==> #[trigger] self.seen[r][i]
                < #[trigger] self.seen[r][j]
    }
}

/// One step keeps the readers orderly and only ever appends to the log.
pub proof fn lemma_step_keeps_order<T>(run: Run<T>, step: Step<T>)
    requires
        run.orderly(),
    ensures
        run.step(step).orderly(),
        run.hub.log.is_prefix_of(run.step(step).hub.log),
{
    let next = run.step(step);
    match step {
        Step::Read(reader) => {
            if reader < run.positions.len() && reader < run.seen.len() {
                let position = run.positions[reader as int];
                assert(run.positions[reader as int] <= run.hub.log.len());
                assert forall|r: int, i: int|
                    0 <= r < next.seen.len() && 0 <= i < next.seen[r].len() implies #[trigger] next.seen[r][i]
                    < next.positions[r] by {
                    if r == reader {
                        if i < run.seen[r].len() {
                            assert(run.seen[r][i] < run.positions[r]);
                        }
                    } else {
                        assert(run.seen[r][i] < run.positions[r]);
                    }
                }
                assert forall|r: int, i: int, j: int|
                    0 <= r < next.seen.len() && 0 <= i < j < next.seen[r].len() implies #[trigger] next.seen[r][i]
                    < #[trigger] next.seen[r][j] by {
                    if r == reader && j >= run.seen[r].len() {
                        assert(run.seen[r][i] < run.positions[r]);
                    } else {
                        assert(run.seen[r][i] < run.seen[r][j]);
                    }
                }
                assert forall|r: int| 0 <= r < next.positions.len() implies #[trigger] next.positions[r]
                    <= next.hub.log.len() by {
                    assert(run.positions[r] <= run.hub.log.len());
                }
            }
        },
        Step::Subscribe => {
            assert forall|r: int, i: int|
                0 <= r < next.seen.len() && 0 <= i < next.seen[r].len() implies #[trigger] next.seen[r][i]
                < next.positions[r] by {
                if r < run.seen.len() {
                    assert(run.seen[r][i] < run.positions[r]);
                }
            }
            assert forall|r: int, i: int, j: int|
                0 <= r < next.seen.len() && 0 <= i < j < next.seen[r].len() implies #[trigger] next.seen[r][i]
                < #[trigger] next.seen[r][j] by {
                if r < run.seen.len() {
                    assert(run.seen[r][i] < run.seen[r][j]);
                }
            }
            assert forall|r: int| 0 <= r < next.positions.len() implies #[trigger] next.positions[r]
                <= next.hub.log.len() by {
                if r < run.positions.len() {
                    assert(run.positions[r] <= run.hub.log.len());
                }
            }
        },
        Step::Publish(event) => {
            assert forall|r: int| 0 <= r < next.positions.len() implies #[trigger] next.positions[r]
                <= next.hub.log.len() by {
                assert(run.positions[r] <= run.hub.log.len());
            }
        },
        Step::Close => {},
    }
}

/// Whatever happens to a hub that started empty, its readers stay orderly.
pub proof fn lemma_runs_are_orderly<T>(capacity: nat, steps: Seq<Step<T>>)
    ensures
        Run::<T>::start(capacity).after(steps).orderly(),
    decreases steps.len(),
{
    if steps.len() > 0 {
        lemma_runs_are_orderly::<T>(capacity, steps.drop_last());
        lemma_step_keeps_order(Run::<T>::start(capacity).after(steps.drop_last()), steps.last());
    }
}

/// An event that a reader was handed under a sequence number is the event
/// that the log holds under that number, now and after whatever happens next.
pub proof fn lemma_log_only_grows<T>(run: Run<T>, steps: Seq<Step<T>>)
    requires
        run.orderly(),
    ensures
        run.after(steps).orderly(),
        run.hub.log.is_prefix_of(run.after(steps).hub.log),
    decreases steps.len(),
{
    if steps.len() > 0 {
        lemma_log_only_grows(run, steps.drop_last());
        lemma_step_keeps_order(run.after(steps.drop_last()), steps.last());
    }
}

/// Two readers never see the same two events in different orders: if reader
/// `a` was handed the event numbered `x` before the one numbered `y`, and
/// reader `b` was handed both, then `b` was handed `x` before `y` too.
pub proof fn lemma_readers_agree_on_order<T>(
    capacity: nat,
    steps: Seq<Step<T>>,
    a: int,
    b: int,
    i: int,
    j: int,
    k: int,
    l: int,
)
    requires
        ({
            let run = Run::<T>::start(capacity).after(steps);
            &&& 0 <= a < run.seen.len()
            &&& 0 <= b < run.seen.len()
            &&& 0 <= i < j < run.seen[a].len()
            &&& 0 <= k < run.seen[b].len()
            &&& 0 <= l < run.seen[b].len()
            &&& run.seen[a][i] == run.seen[b][k]
            &&& run.seen[a][j] == run.seen[b][l]
        }),
    ensures
        k < l,
{
    let run = Run::<T>::start(capacity).after(steps);
    lemma_runs_are_orderly::<T>(capacity, steps);
    assert(run.seen[a][i] < run.seen[a][j]);
    if l < k {
        assert(run.seen[b][l] < run.seen[b][k]);
    }
}

} // verus!
