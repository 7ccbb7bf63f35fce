//! One relay session: the dispatch queue of one connection together with the
//! progress of its two loops.
//!
//! A session makes every decision of the relay but performs none of its
//! input or output. Its driver reads the transport, calls the persistence
//! collaborator and writes acknowledgments; after each of these it reports
//! what happened and is told what to do next.

use crate::relay::ack::Acknowledgment;
use crate::relay::inbound::{Inbound, InboundAction};
use crate::relay::queue::{DispatchQueue, Polled, QueueState};
use crate::relay::worker::{PersistError, TransportError, WorkerPhase, WorkerStep};
use vstd::prelude::*;

verus! {

/// Mathematical state of a session.
pub ghost struct SessionState<T> {
    /// The dispatch queue. It is open exactly as long as the inbound relay
    /// loop runs.
    pub queue: QueueState<T>,
    /// Where the persistence worker stands.
    pub worker: WorkerPhase,
}

impl<T> SessionState<T> {
    /// A fresh session: nothing queued, the inbound loop reading, the worker
    /// ready to poll.
    pub open spec fn initial() -> Self {
        SessionState { queue: QueueState::empty(), worker: WorkerPhase::Polling }
    }

    /// The worker ends only on a queue that is closed and drained.
    pub open spec fn well_formed(self) -> bool {
        self.worker is Exited ==> !self.queue.open && self.queue.items.len() == 0
    }

    /// Whether the inbound relay loop is still running.
    pub open spec fn receiving(self) -> bool {
        self.queue.open
    }

    /// Whether both loops have ended.
    pub open spec fn finished(self) -> bool {
        !self.queue.open && self.worker is Exited
    }

    /// The state after the inbound loop has handled `frame`.
    ///
    /// Only a well-formed update and the end of input change anything: the
    /// first is queued, the second closes the queue. Once the loop has ended
    /// nothing is taken in any more.
    pub open spec fn receive(self, frame: Inbound<T>) -> Self {
        if !self.queue.open {
            self
        } else {
            match frame {
                Inbound::Update(update) => SessionState {
                    queue: self.queue.push(update),
                    worker: self.worker,
                },
                Inbound::EndOfInput => SessionState {
                    queue: self.queue.close(),
                    worker: self.worker,
                },
                Inbound::Control => self,
                Inbound::Malformed(_) => self,
            }
        }
    }

    /// What the inbound loop tells its driver about `frame`.
    pub open spec fn reaction(self, frame: Inbound<T>) -> InboundAction {
        if !self.queue.open {
            InboundAction::Stopped
        } else {
            match frame {
                Inbound::Update(_) => InboundAction::Enqueued,
                Inbound::Control => InboundAction::Skipped,
                Inbound::Malformed(error) => InboundAction::Reported(error),
                Inbound::EndOfInput => InboundAction::Stopped,
            }
        }
    }

    /// The state after the worker has looked at the queue.
    ///
    /// A polling worker takes the oldest update, or ends if the queue is
    /// closed and drained. A worker that is busy with an update, or has
    /// ended, leaves everything as it is.
    pub open spec fn dispatch(self) -> Self {
        if self.worker is Polling {
            match self.queue.front() {
                Polled::Item(_) => SessionState {
                    queue: self.queue.pop(),
                    worker: WorkerPhase::Persisting,
                },
                Polled::Empty => self,
                Polled::Closed => SessionState { queue: self.queue, worker: WorkerPhase::Exited },
            }
        } else {
            self
        }
    }

    /// What the worker asks of its driver after looking at the queue.
    pub open spec fn job(self) -> WorkerStep<T> {
        match self.worker {
            WorkerPhase::Polling => match self.queue.front() {
                Polled::Item(update) => WorkerStep::Persist(update),
                Polled::Empty => WorkerStep::Idle,
                Polled::Closed => WorkerStep::Exit,
            },
            WorkerPhase::Persisting => WorkerStep::Busy,
            WorkerPhase::Acknowledging => WorkerStep::Busy,
            WorkerPhase::Exited => WorkerStep::Exit,
        }
    }

    /// The state after a persistence result has been reported. It does not
    /// depend on the result: a failure is acknowledged, not acted upon.
    pub open spec fn persisted(self) -> Self {
        if self.worker is Persisting {
            SessionState { queue: self.queue, worker: WorkerPhase::Acknowledging }
        } else {
            self
        }
    }

    /// The acknowledgment owed for a reported persistence result: one for
    /// the update that was being persisted, none if there was no such update.
    pub open spec fn verdict(self, outcome: Result<(), PersistError>) -> Option<Acknowledgment> {
        if self.worker is Persisting {
            Some(Acknowledgment::spec_for_outcome(outcome))
        } else {
            None
        }
    }

    /// The state after the delivery of an acknowledgment has been reported.
    /// It does not depend on whether the delivery succeeded.
    pub open spec fn acknowledged(self) -> Self {
        if self.worker is Acknowledging {
            SessionState { queue: self.queue, worker: WorkerPhase::Polling }
        } else {
            self
        }
    }
}

/// The relay state of one connection.
///
/// A session owns its dispatch queue; no two sessions share anything.
#[derive(Debug)]
pub struct Session<T> {
    queue: DispatchQueue<T>,
    worker: WorkerPhase,
}

impl<T> View for Session<T> {
    type V = SessionState<T>;

    closed spec fn view(&self) -> SessionState<T> {
        SessionState { queue: self.queue@, worker: self.worker }
    }
}

impl<T> Session<T> {
    /// Opens the session for a freshly upgraded connection.
    pub fn start() -> (session: Self)
        ensures
            session@ == SessionState::<T>::initial(),
            session@.well_formed(),
    {
        Session { queue: DispatchQueue::new(), worker: WorkerPhase::Polling }
    }

    /// One turn of the inbound relay loop: takes what the transport yielded
    /// and says what to do next.
    ///
    /// A well-formed update is queued without waiting. A control frame is
    /// skipped. A malformed frame is handed back for logging and the loop
    /// goes on. The end of input closes the queue and ends the loop; what is
    /// already queued stays for the worker.
    pub fn receive(&mut self, frame: Inbound<T>) -> (action: InboundAction)
        ensures
            final(self)@ == old(self)@.receive(frame),
            action == old(self)@.reaction(frame),
            old(self)@.well_formed() ==> final(self)@.well_formed(),
    {
        if !self.queue.is_open() {
            return InboundAction::Stopped;
        }
        match frame {
            Inbound::Update(update) => {
                match self.queue.push(update) {
                    Ok(_) => InboundAction::Enqueued,
                    Err(_) => InboundAction::Stopped,
                }
            },
            Inbound::Control => InboundAction::Skipped,
            Inbound::Malformed(error) => InboundAction::Reported(error),
            Inbound::EndOfInput => {
                self.queue.close();
                InboundAction::Stopped
            },
        }
    }

    /// One look of the persistence worker at the queue.
    ///
    /// Hands out the oldest queued update for persisting, asks the driver to
    /// wait while the queue is empty but open, and ends the worker once the
    /// queue is closed and drained. While an earlier update is still being
    /// persisted or acknowledged nothing is taken from the queue.
    pub fn dispatch(&mut self) -> (step: WorkerStep<T>)
        ensures
            final(self)@ == old(self)@.dispatch(),
            step == old(self)@.job(),
            old(self)@.well_formed() ==> final(self)@.well_formed(),
    {
        match self.worker {
            WorkerPhase::Polling => {
                match self.queue.pop() {
                    Polled::Item(update) => {
                        self.worker = WorkerPhase::Persisting;
                        WorkerStep::Persist(update)
                    },
                    Polled::Empty => WorkerStep::Idle,
                    Polled::Closed => {
                        self.worker = WorkerPhase::Exited;
                        WorkerStep::Exit
                    },
                }
            },
            WorkerPhase::Persisting => WorkerStep::Busy,
            WorkerPhase::Acknowledging => WorkerStep::Busy,
            WorkerPhase::Exited => WorkerStep::Exit,
        }
    }

    /// Takes the persistence collaborator's result for the update handed out
    /// last and returns the acknowledgment to send.
    ///
    /// A failure yields `PersistenceFailed` and nothing else: the worker goes
    /// on with the next update as after a success. `None` is returned, and
    /// nothing changes, if no update was being persisted.
    pub fn persisted(&mut self, outcome: Result<(), PersistError>) -> (ack: Option<Acknowledgment>)
        ensures
            final(self)@ == old(self)@.persisted(),
            ack == old(self)@.verdict(outcome),
            old(self)@.well_formed() ==> final(self)@.well_formed(),
    {
        match self.worker {
            WorkerPhase::Persisting => {
                self.worker = WorkerPhase::Acknowledging;
                Some(Acknowledgment::for_outcome(outcome))
            },
            _ => None,
        }
    }

    /// Takes the transport's result for the acknowledgment handed out last.
    ///
    /// A delivery failure is deliberately ignored: the worker returns to
    /// polling either way. Nothing changes if no acknowledgment was being
    /// sent.
    pub fn acknowledged(&mut self, sent: Result<(), TransportError>)
        ensures
            final(self)@ == old(self)@.acknowledged(),
            old(self)@.well_formed() ==> final(self)@.well_formed(),
    {
        match self.worker {
            WorkerPhase::Acknowledging => {
                self.worker = WorkerPhase::Polling;
            },
            _ => {},
        }
    }

    /// Whether the inbound relay loop is still running.
    pub fn is_receiving(&self) -> (receiving: bool)
        ensures
            receiving == self@.receiving(),
    {
        self.queue.is_open()
    }

    /// Whether both loops have ended and the session can be dropped.
    pub fn is_finished(&self) -> (finished: bool)
        ensures
            finished == self@.finished(),
    {
        !self.queue.is_open() && self.worker == WorkerPhase::Exited
    }

    /// Number of updates queued and not yet handed to the worker.
    pub fn backlog(&self) -> (waiting: usize)
        ensures
            waiting == self@.queue.items.len(),
    {
        self.queue.len()
    }

    /// Where the persistence worker stands.
    pub fn worker_phase(&self) -> (phase: WorkerPhase)
        ensures
            phase == self@.worker,
    {
        self.worker
    }
}

} // verus!
