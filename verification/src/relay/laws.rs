//! What holds of every run of a session, whatever the order in which the
//! transport, the persistence collaborator and the two loops make progress.
//!
//! A run is a sequence of events. Each event is one call of a method of
//! `Session`; the functions below read off a run what the driver saw of it.

use crate::relay::ack::Acknowledgment;
use crate::relay::inbound::{DecodeError, Inbound};
use crate::relay::queue::QueueState;
use crate::relay::session::SessionState;
use crate::relay::worker::{PersistError, TransportError, WorkerPhase, WorkerStep};
use vstd::prelude::*;

verus! {

/// One thing that happens to a session.
pub ghost enum Event<T> {
    /// The transport yielded a reading (`Session::receive`).
    Arrived(Inbound<T>),
    /// The worker looked at the queue (`Session::dispatch`).
    Dispatched,
    /// The persistence collaborator returned (`Session::persisted`).
    Persisted(Result<(), PersistError>),
    /// The transport returned from writing an acknowledgment
    /// (`Session::acknowledged`).
    Acknowledged(Result<(), TransportError>),
}

impl<T> Event<T> {
    /// The same event with every failure of the persistence collaborator or
    /// of the outbound transport replaced by a success.
    pub open spec fn forgiven(self) -> Self {
        match self {
            Event::Persisted(_) => Event::Persisted(Ok(())),
            Event::Acknowledged(_) => Event::Acknowledged(Ok(())),
            _ => self,
        }
    }
}

impl<T> SessionState<T> {
    /// The state after one event.
    pub open spec fn step(self, event: Event<T>) -> Self {
        match event {
            Event::Arrived(frame) => self.receive(frame),
            Event::Dispatched => self.dispatch(),
            Event::Persisted(_) => self.persisted(),
            Event::Acknowledged(_) => self.acknowledged(),
        }
    }

    /// The update that `event` puts on the queue, if any.
    pub open spec fn enqueued_by(self, event: Event<T>) -> Option<T> {
        match event {
            Event::Arrived(Inbound::Update(update)) => if self.queue.open {
                Some(update)
            } else {
                None
            },
            _ => None,
        }
    }

    /// The update that `event` hands to the persistence collaborator, if any.
    pub open spec fn started_by(self, event: Event<T>) -> Option<T> {
        match event {
            Event::Dispatched => match self.job() {
                WorkerStep::Persist(update) => Some(update),
                _ => None,
            },
            _ => None,
        }
    }

    /// The persistence result that `event` delivers for the update in hand,
    /// if any.
    pub open spec fn settled_by(self, event: Event<T>) -> Option<Result<(), PersistError>> {
        match event {
            Event::Persisted(outcome) => if self.worker is Persisting {
                Some(outcome)
            } else {
                None
            },
            _ => None,
        }
    }

    /// The acknowledgment that `event` makes the session emit, if any.
    pub open spec fn emitted_by(self, event: Event<T>) -> Option<Acknowledgment> {
        match event {
            Event::Persisted(outcome) => self.verdict(outcome),
            _ => None,
        }
    }

    /// The state after a run.
    pub open spec fn run(self, events: Seq<Event<T>>) -> Self
        decreases events.len(),
    {
        if events.len() == 0 {
            self
        } else {
            self.run(events.drop_last()).step(events.last())
        }
    }

    /// The updates that a run put on the queue, in order of arrival.
    pub open spec fn accepted(self, events: Seq<Event<T>>) -> Seq<T>
        decreases events.len(),
    {
        if events.len() == 0 {
            Seq::empty()
        } else {
            let earlier = self.accepted(events.drop_last());
            match self.run(events.drop_last()).enqueued_by(events.last()) {
                Some(update) => earlier.push(update),
                None => earlier,
            }
        }
    }

    /// The updates that a run handed to the persistence collaborator, in the
    /// order in which it did so.
    pub open spec fn handed_out(self, events: Seq<Event<T>>) -> Seq<T>
        decreases events.len(),
    {
        if events.len() == 0 {
            Seq::empty()
        } else {
            let earlier = self.handed_out(events.drop_last());
            match self.run(events.drop_last()).started_by(events.last()) {
                Some(update) => earlier.push(update),
                None => earlier,
            }
        }
    }

    /// The persistence results that a run delivered, one per update, in the
    /// order in which the updates were handed out.
    pub open spec fn outcomes(self, events: Seq<Event<T>>) -> Seq<Result<(), PersistError>>
        decreases events.len(),
    {
        if events.len() == 0 {
            Seq::empty()
        } else {
            let earlier = self.outcomes(events.drop_last());
            match self.run(events.drop_last()).settled_by(events.last()) {
                Some(outcome) => earlier.push(outcome),
                None => earlier,
            }
        }
    }

    /// The acknowledgments that a run emitted, in order.
    pub open spec fn acknowledgments(self, events: Seq<Event<T>>) -> Seq<Acknowledgment>
        decreases events.len(),
    {
        if events.len() == 0 {
            Seq::empty()
        } else {
            let earlier = self.acknowledgments(events.drop_last());
            match self.run(events.drop_last()).emitted_by(events.last()) {
                Some(ack) => earlier.push(ack),
                None => earlier,
            }
        }
    }

    /// Number of updates handed out whose persistence result is still
    /// awaited: one or none.
    pub open spec fn in_flight(self) -> int {
        if self.worker is Persisting {
            1
        } else {
            0
        }
    }
}

/// The readings that the transport yielded during a run, in order.
pub open spec fn arrivals<T>(events: Seq<Event<T>>) -> Seq<Inbound<T>>
    decreases events.len(),
{
    if events.len() == 0 {
        Seq::empty()
    } else {
        let earlier = arrivals(events.drop_last());
        match events.last() {
            Event::Arrived(frame) => earlier.push(frame),
            _ => earlier,
        }
    }
}

/// Whether the end of input is among `frames`.
pub open spec fn ended<T>(frames: Seq<Inbound<T>>) -> bool {
    exists|i: int| 0 <= i < frames.len() && #[trigger] frames[i] is EndOfInput
}

/// The well-formed updates among `frames` that precede the end of input, in
/// order.
pub open spec fn updates_before_end<T>(frames: Seq<Inbound<T>>) -> Seq<T>
    decreases frames.len(),
{
    if frames.len() == 0 {
        Seq::empty()
    } else {
        let earlier = updates_before_end(frames.drop_last());
        match frames.last() {
            Inbound::Update(update) => if ended(frames.drop_last()) {
                earlier
            } else {
                earlier.push(update)
            },
            _ => earlier,
        }
    }
}

/// Every method of a session keeps it well formed.
pub proof fn lemma_step_keeps_well_formed<T>(state: SessionState<T>, event: Event<T>)
    requires
        state.well_formed(),
    ensures
        state.step(event).well_formed(),
{
}

/// Every run keeps a session well formed.
pub proof fn lemma_run_keeps_well_formed<T>(start: SessionState<T>, events: Seq<Event<T>>)
    requires
        start.well_formed(),
    ensures
        start.run(events).well_formed(),
    decreases events.len(),
{
    if events.len() > 0 {
        lemma_run_keeps_well_formed(start, events.drop_last());
        lemma_step_keeps_well_formed(start.run(events.drop_last()), events.last());
    }
}

/// A run in two parts is the first part followed by the second, for the state
/// as for everything observed.
pub proof fn lemma_run_in_two_parts<T>(
    start: SessionState<T>,
    first: Seq<Event<T>>,
    second: Seq<Event<T>>,
)
    ensures
        start.run(first + second) == start.run(first).run(second),
        start.accepted(first + second) == start.accepted(first) + start.run(first).accepted(
            second,
        ),
        start.handed_out(first + second) == start.handed_out(first) + start.run(
            first,
        ).handed_out(second),
        start.outcomes(first + second) == start.outcomes(first) + start.run(first).outcomes(
            second,
        ),
        start.acknowledgments(first + second) == start.acknowledgments(first) + start.run(
            first,
        ).acknowledgments(second),
    decreases second.len(),
{
    let middle = start.run(first);
    if second.len() == 0 {
        assert(first + second =~= first);
        assert(start.accepted(first) + middle.accepted(second) =~= start.accepted(first));
        assert(start.handed_out(first) + middle.handed_out(second) =~= start.handed_out(first));
        assert(start.outcomes(first) + middle.outcomes(second) =~= start.outcomes(first));
        assert(start.acknowledgments(first) + middle.acknowledgments(second)
            =~= start.acknowledgments(first));
    } else {
        let whole = first + second;
        assert(whole.drop_last() =~= first + second.drop_last());
        assert(whole.last() == second.last());
        lemma_run_in_two_parts(start, first, second.drop_last());
        let before = middle.run(second.drop_last());
        let event = second.last();
        assert(start.run(whole.drop_last()) == before);
        match before.enqueued_by(event) {
            Some(update) => {
                assert(start.accepted(first) + middle.accepted(second.drop_last()).push(update)
                    =~= (start.accepted(first) + middle.accepted(second.drop_last())).push(
                    update,
                ));
            },
            None => {},
        }
        match before.started_by(event) {
            Some(update) => {
                assert(start.handed_out(first) + middle.handed_out(second.drop_last()).push(
                    update,
                ) =~= (start.handed_out(first) + middle.handed_out(second.drop_last())).push(
                    update,
                ));
            },
            None => {},
        }
        match before.settled_by(event) {
            Some(outcome) => {
                assert(start.outcomes(first) + middle.outcomes(second.drop_last()).push(outcome)
                    =~= (start.outcomes(first) + middle.outcomes(second.drop_last())).push(
                    outcome,
                ));
            },
            None => {},
        }
        match before.emitted_by(event) {
            Some(ack) => {
                assert(start.acknowledgments(first) + middle.acknowledgments(
                    second.drop_last(),
                ).push(ack) =~= (start.acknowledgments(first) + middle.acknowledgments(
                    second.drop_last(),
                )).push(ack));
            },
            None => {},
        }
    }
}

/// Updates leave the queue in the order in which they arrived, none dropped
/// and none repeated, however the two loops interleave: what was queued at
/// the start followed by what was accepted since is, update for update, what
/// has been handed to the persistence collaborator followed by what is still
/// queued.
pub proof fn lemma_updates_leave_in_arrival_order<T>(
    start: SessionState<T>,
    events: Seq<Event<T>>,
)
    ensures
        start.queue.items + start.accepted(events) == start.handed_out(events) + start.run(
            events,
        ).queue.items,
    decreases events.len(),
{
    if events.len() == 0 {
        assert(start.queue.items + start.accepted(events) =~= start.handed_out(events)
            + start.run(events).queue.items);
    } else {
        let before = start.run(events.drop_last());
        let accepted = start.accepted(events.drop_last());
        let handed = start.handed_out(events.drop_last());
        lemma_updates_leave_in_arrival_order(start, events.drop_last());
        match before.enqueued_by(events.last()) {
            Some(update) => {
                assert(start.queue.items + accepted.push(update) =~= (start.queue.items
                    + accepted).push(update));
                assert(handed + before.queue.items.push(update) =~= (handed
                    + before.queue.items).push(update));
            },
            None => {},
        }
        match before.started_by(events.last()) {
            Some(update) => {
                assert(handed.push(before.queue.items.first()) + before.queue.items.drop_first()
                    =~= handed + before.queue.items);
            },
            None => {},
        }
    }
}

/// Each update handed out is answered by exactly one acknowledgment, in the
/// same order: the k-th acknowledgment says how the k-th persistence call
/// went, and the only update without one is the one still being persisted.
pub proof fn lemma_one_acknowledgment_per_update<T>(
    start: SessionState<T>,
    events: Seq<Event<T>>,
)
    ensures
        start.acknowledgments(events).len() == start.outcomes(events).len(),
        forall|k: int|
            0 <= k < start.outcomes(events).len() ==> #[trigger] start.acknowledgments(events)[k]
                == Acknowledgment::spec_for_outcome(start.outcomes(events)[k]),
        start.in_flight() + start.handed_out(events).len() == start.outcomes(events).len()
            + start.run(events).in_flight(),
    decreases events.len(),
{
    if events.len() > 0 {
        lemma_one_acknowledgment_per_update(start, events.drop_last());
    }
}

/// When both loops have ended, every update that was ever queued has been
/// handed to the persistence collaborator, in order, and each has been
/// acknowledged: nothing is lost on an orderly close.
pub proof fn lemma_finished_session_lost_nothing<T>(
    start: SessionState<T>,
    events: Seq<Event<T>>,
)
    requires
        start.well_formed(),
        start.run(events).finished(),
    ensures
        start.handed_out(events) == start.queue.items + start.accepted(events),
        start.acknowledgments(events).len() == start.in_flight() + start.queue.items.len()
            + start.accepted(events).len(),
{
    lemma_run_keeps_well_formed(start, events);
    lemma_updates_leave_in_arrival_order(start, events);
    lemma_one_acknowledgment_per_update(start, events);
    assert(start.handed_out(events) + start.run(events).queue.items =~= start.handed_out(
        events,
    ));
}

/// Acknowledgments never run ahead of the updates. At every point of a
/// session's life the updates handed to the persistence collaborator are the
/// first of those accepted, in order of arrival; the rest of them are still
/// queued, in order; and there are at most as many acknowledgments as
/// updates handed out.
pub proof fn lemma_acknowledgments_never_run_ahead<T>(events: Seq<Event<T>>)
    ensures
        SessionState::<T>::initial().acknowledgments(events).len() <= SessionState::<
            T,
        >::initial().handed_out(events).len(),
        SessionState::<T>::initial().handed_out(events).len() <= SessionState::<T>::initial().accepted(
            events,
        ).len(),
        SessionState::<T>::initial().handed_out(events) == SessionState::<T>::initial().accepted(
            events,
        ).take(SessionState::<T>::initial().handed_out(events).len() as int),
        SessionState::<T>::initial().run(events).queue.items == SessionState::<T>::initial().accepted(
            events,
        ).skip(SessionState::<T>::initial().handed_out(events).len() as int),
{
    let start = SessionState::<T>::initial();
    lemma_updates_leave_in_arrival_order(start, events);
    lemma_one_acknowledgment_per_update(start, events);
    let accepted = start.accepted(events);
    let handed = start.handed_out(events);
    let queued = start.run(events).queue.items;
    assert(start.queue.items + accepted =~= accepted);
    assert(accepted == handed + queued);
    assert(accepted.len() == handed.len() + queued.len());
    assert(handed =~= accepted.take(handed.len() as int));
    assert(queued =~= accepted.skip(handed.len() as int));
}

/// What a session accepts is exactly the well-formed updates that the
/// transport yields before its end of input, in order.
pub proof fn lemma_accepted_are_the_updates_before_end<T>(events: Seq<Event<T>>)
    ensures
        SessionState::<T>::initial().accepted(events) == updates_before_end(arrivals(events)),
        SessionState::<T>::initial().run(events).queue.open == !ended(arrivals(events)),
    decreases events.len(),
{
    let start = SessionState::<T>::initial();
    if events.len() == 0 {
        assert(arrivals(events) =~= Seq::<Inbound<T>>::empty());
    } else {
        lemma_accepted_are_the_updates_before_end(events.drop_last());
        let earlier = arrivals(events.drop_last());
        match events.last() {
            Event::Arrived(frame) => {
                let frames = earlier.push(frame);
                assert(frames.drop_last() =~= earlier);
                assert(frames.last() == frame);
                if ended(earlier) {
                    let i = choose|i: int| 0 <= i < earlier.len() && #[trigger] earlier[i] is EndOfInput;
                    assert(frames[i] is EndOfInput);
                } else if frame is EndOfInput {
                    assert(frames[frames.len() - 1] is EndOfInput);
                } else {
                    assert forall|i: int| 0 <= i < frames.len() implies !(#[trigger] frames[i] is EndOfInput) by {
                        if i < earlier.len() {
                            assert(frames[i] == earlier[i]);
                        }
                    }
                }
            },
            _ => {},
        }
    }
}

/// A complete session acknowledges every update exactly once, in order of
/// arrival: when both loops have ended, there are as many acknowledgments as
/// well-formed updates arrived before the end of input, the k-th
/// acknowledgment says how persisting went for the k-th of them, and these
/// updates are what the persistence collaborator was given, in this order.
pub proof fn lemma_complete_session_acknowledges_every_update<T>(events: Seq<Event<T>>)
    requires
        SessionState::<T>::initial().run(events).finished(),
    ensures
        SessionState::<T>::initial().handed_out(events) == updates_before_end(arrivals(events)),
        SessionState::<T>::initial().acknowledgments(events).len() == updates_before_end(
            arrivals(events),
        ).len(),
        SessionState::<T>::initial().outcomes(events).len() == updates_before_end(
            arrivals(events),
        ).len(),
        forall|k: int|
            0 <= k < updates_before_end(arrivals(events)).len()
                ==> #[trigger] SessionState::<T>::initial().acknowledgments(events)[k]
                == Acknowledgment::spec_for_outcome(
                SessionState::<T>::initial().outcomes(events)[k],
            ),
{
    let start = SessionState::<T>::initial();
    lemma_finished_session_lost_nothing(start, events);
    lemma_one_acknowledgment_per_update(start, events);
    lemma_accepted_are_the_updates_before_end(events);
    assert(start.queue.items + start.accepted(events) =~= start.accepted(events));
}

/// If persisting fails for one update and succeeds for all others, that
/// update's acknowledgment is `PersistenceFailed` and all others are
/// `Persisted`.
pub proof fn lemma_failure_marks_its_own_acknowledgment<T>(
    start: SessionState<T>,
    events: Seq<Event<T>>,
    failed: int,
)
    requires
        0 <= failed < start.outcomes(events).len(),
        start.outcomes(events)[failed] is Err,
        forall|k: int|
            0 <= k < start.outcomes(events).len() && k != failed ==> #[trigger] start.outcomes(
                events,
            )[k] is Ok,
    ensures
        start.acknowledgments(events).len() == start.outcomes(events).len(),
        start.acknowledgments(events)[failed] == Acknowledgment::PersistenceFailed,
        forall|k: int|
            0 <= k < start.acknowledgments(events).len() && k != failed
                ==> #[trigger] start.acknowledgments(events)[k] == Acknowledgment::Persisted,
{
    lemma_one_acknowledgment_per_update(start, events);
    assert forall|k: int|
        0 <= k < start.acknowledgments(events).len() && k != failed implies #[trigger] start.acknowledgments(
        events,
    )[k] == Acknowledgment::Persisted by {
        assert(start.outcomes(events)[k] is Ok);
    }
}

/// No failure of the persistence collaborator or of the outbound transport
/// ends a session or changes its course: the same run with every such
/// failure replaced by a success passes through the same states, accepts the
/// same updates and hands out the same updates. Only the acknowledgments
/// differ.
pub proof fn lemma_failures_do_not_change_the_course<T>(
    start: SessionState<T>,
    events: Seq<Event<T>>,
)
    ensures
        start.run(events.map_values(|event: Event<T>| event.forgiven())) == start.run(events),
        start.accepted(events.map_values(|event: Event<T>| event.forgiven())) == start.accepted(
            events,
        ),
        start.handed_out(events.map_values(|event: Event<T>| event.forgiven()))
            == start.handed_out(events),
        start.acknowledgments(events.map_values(|event: Event<T>| event.forgiven())).len()
            == start.acknowledgments(events).len(),
    decreases events.len(),
{
    let forgiven = events.map_values(|event: Event<T>| event.forgiven());
    if events.len() > 0 {
        lemma_failures_do_not_change_the_course(start, events.drop_last());
        assert(forgiven.drop_last() =~= events.drop_last().map_values(
            |event: Event<T>| event.forgiven(),
        ));
        assert(forgiven.last() == events.last().forgiven());
    }
}

/// A malformed frame produces no acknowledgment and leaves the session as it
/// found it: a run with such a frame anywhere in it ends in the same state,
/// with the same updates accepted and handed out and the same
/// acknowledgments, as the run without it.
pub proof fn lemma_malformed_frame_changes_nothing<T>(
    start: SessionState<T>,
    before: Seq<Event<T>>,
    error: DecodeError,
    after: Seq<Event<T>>,
)
    ensures
        start.run(before + seq![Event::Arrived(Inbound::Malformed(error))] + after) == start.run(
            before + after,
        ),
        start.accepted(before + seq![Event::Arrived(Inbound::Malformed(error))] + after)
            == start.accepted(before + after),
        start.handed_out(before + seq![Event::Arrived(Inbound::Malformed(error))] + after)
            == start.handed_out(before + after),
        start.acknowledgments(before + seq![Event::Arrived(Inbound::Malformed(error))] + after)
            == start.acknowledgments(before + after),
{
    let frame = seq![Event::<T>::Arrived(Inbound::Malformed(error))];
    let middle = start.run(before);
    let nothing = frame.drop_last();
    assert(nothing.len() == 0);
    assert(middle.run(nothing) == middle);
    assert(middle.accepted(nothing) =~= Seq::<T>::empty());
    assert(middle.handed_out(nothing) =~= Seq::<T>::empty());
    assert(middle.acknowledgments(nothing) =~= Seq::<Acknowledgment>::empty());
    assert(frame.last() == Event::<T>::Arrived(Inbound::Malformed(error)));
    assert(middle.run(frame) == middle);
    assert(middle.accepted(frame) =~= Seq::<T>::empty());
    assert(middle.handed_out(frame) =~= Seq::<T>::empty());
    assert(middle.acknowledgments(frame) =~= Seq::<Acknowledgment>::empty());
    lemma_run_in_two_parts(start, before, frame);
    lemma_run_in_two_parts(start, before + frame, after);
    lemma_run_in_two_parts(start, before, after);
    assert(start.accepted(before) + middle.accepted(frame) =~= start.accepted(before));
    assert(start.handed_out(before) + middle.handed_out(frame) =~= start.handed_out(before));
    assert(start.acknowledgments(before) + middle.acknowledgments(frame)
        =~= start.acknowledgments(before));
}

/// The events of the worker serving one update: it takes the update from the
/// queue, learns how persisting went, and learns how the delivery of the
/// acknowledgment went.
pub open spec fn turn<T>(
    persisted: Result<(), PersistError>,
    delivered: Result<(), TransportError>,
) -> Seq<Event<T>> {
    seq![Event::Dispatched, Event::Persisted(persisted), Event::Acknowledged(delivered)]
}

/// The events of the worker serving one update after the other, with the
/// given results.
pub open spec fn turns<T>(
    results: Seq<(Result<(), PersistError>, Result<(), TransportError>)>,
) -> Seq<Event<T>>
    decreases results.len(),
{
    if results.len() == 0 {
        Seq::empty()
    } else {
        turns(results.drop_last()) + turn(results.last().0, results.last().1)
    }
}

/// The acknowledgments owed for the given results, in order.
pub open spec fn acknowledgments_for(
    results: Seq<(Result<(), PersistError>, Result<(), TransportError>)>,
) -> Seq<Acknowledgment> {
    Seq::new(results.len(), |k: int| Acknowledgment::spec_for_outcome(results[k].0))
}

/// One turn of a polling worker on a queue that is not empty: the oldest
/// update is handed out, one acknowledgment is emitted for it, and the worker
/// is polling again, whether persisting and delivery succeeded or not.
pub proof fn lemma_one_turn<T>(
    state: SessionState<T>,
    persisted: Result<(), PersistError>,
    delivered: Result<(), TransportError>,
)
    requires
        state.worker is Polling,
        state.queue.items.len() > 0,
    ensures
        state.run(turn(persisted, delivered)) == (SessionState {
            queue: state.queue.pop(),
            worker: WorkerPhase::Polling,
        }),
        state.accepted(turn(persisted, delivered)) == Seq::<T>::empty(),
        state.handed_out(turn(persisted, delivered)) == seq![state.queue.items.first()],
        state.acknowledgments(turn(persisted, delivered)) == seq![
            Acknowledgment::spec_for_outcome(persisted),
        ],
{
    let three = turn::<T>(persisted, delivered);
    let two = three.drop_last();
    let one = two.drop_last();
    let none = one.drop_last();
    assert(none.len() == 0);
    assert(one.last() == Event::<T>::Dispatched);
    assert(two.last() == Event::<T>::Persisted(persisted));
    assert(three.last() == Event::<T>::Acknowledged(delivered));
    assert(state.run(none) == state);
    assert(state.run(one).worker is Persisting);
    assert(state.run(two).worker is Acknowledging);
    assert(state.accepted(none) =~= Seq::<T>::empty());
    assert(state.accepted(one) =~= Seq::<T>::empty());
    assert(state.accepted(two) =~= Seq::<T>::empty());
    assert(state.handed_out(none) =~= Seq::<T>::empty());
    assert(state.handed_out(one) =~= seq![state.queue.items.first()]);
    assert(state.handed_out(two) =~= seq![state.queue.items.first()]);
    assert(state.handed_out(three) =~= seq![state.queue.items.first()]);
    assert(state.acknowledgments(none) =~= Seq::<Acknowledgment>::empty());
    assert(state.acknowledgments(one) =~= Seq::<Acknowledgment>::empty());
    assert(state.acknowledgments(two) =~= seq![Acknowledgment::spec_for_outcome(persisted)]);
    assert(state.acknowledgments(three) =~= seq![Acknowledgment::spec_for_outcome(persisted)]);
}

/// A polling worker that is given its turns takes the queued updates oldest
/// first, one per turn, and emits one acknowledgment for each, whatever the
/// results are.
pub proof fn lemma_worker_takes_oldest_first<T>(
    start: SessionState<T>,
    results: Seq<(Result<(), PersistError>, Result<(), TransportError>)>,
)
    requires
        start.worker is Polling,
        results.len() <= start.queue.items.len(),
    ensures
        start.run(turns(results)) == (SessionState {
            queue: QueueState {
                items: start.queue.items.skip(results.len() as int),
                open: start.queue.open,
            },
            worker: WorkerPhase::Polling,
        }),
        start.handed_out(turns(results)) == start.queue.items.take(results.len() as int),
        start.acknowledgments(turns(results)) == acknowledgments_for(results),
    decreases results.len(),
{
    if results.len() == 0 {
        assert(start.queue.items.skip(0) =~= start.queue.items);
        assert(start.queue.items.take(0) =~= Seq::<T>::empty());
        assert(acknowledgments_for(results) =~= Seq::<Acknowledgment>::empty());
    } else {
        let earlier = results.drop_last();
        let last = results.last();
        lemma_worker_takes_oldest_first(start, earlier);
        let middle = start.run(turns::<T>(earlier));
        lemma_one_turn(middle, last.0, last.1);
        lemma_run_in_two_parts(start, turns(earlier), turn(last.0, last.1));
        assert(middle.queue.items.drop_first() =~= start.queue.items.skip(results.len() as int));
        assert(start.queue.items.take(earlier.len() as int) + seq![middle.queue.items.first()]
            =~= start.queue.items.take(results.len() as int));
        assert(acknowledgments_for(earlier) + seq![Acknowledgment::spec_for_outcome(last.0)]
            =~= acknowledgments_for(results));
    }
}

/// Once the inbound loop has ended, the worker drains the queue before the
/// session finishes: given one turn per queued update it hands them all out
/// in order and acknowledges each, is still running after the last of them,
/// and ends at its next look at the queue.
pub proof fn lemma_close_drains_the_queue<T>(
    start: SessionState<T>,
    results: Seq<(Result<(), PersistError>, Result<(), TransportError>)>,
)
    requires
        start.worker is Polling,
        !start.queue.open,
        results.len() == start.queue.items.len(),
    ensures
        start.handed_out(turns(results)) == start.queue.items,
        start.acknowledgments(turns(results)) == acknowledgments_for(results),
        !start.run(turns(results)).finished(),
        start.run(turns(results)).job() == WorkerStep::<T>::Exit,
        start.run(turns(results)).dispatch().finished(),
{
    lemma_worker_takes_oldest_first(start, results);
    assert(start.queue.items.take(results.len() as int) =~= start.queue.items);
}


} // verus!
