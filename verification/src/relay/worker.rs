//! The persistence worker's progress through one update, and the steps it
//! asks its driver to perform.

use vstd::prelude::*;

verus! {

/// Why the persistence collaborator could not store an update.
#[derive(Clone, Debug, PartialEq, Eq)]
pub struct PersistError {
    pub message: String,
}

/// Why an acknowledgment could not be written to the outbound half.
#[derive(Clone, Debug, PartialEq, Eq)]
pub struct TransportError {
    pub message: String,
}

/// Where the persistence worker stands. It handles one update at a time:
/// the next one is taken from the queue only after the previous one has been
/// persisted (or failed) and its acknowledgment has been handed to the
/// transport.
#[derive(Clone, Copy, Debug, PartialEq, Eq, Structural)]
pub enum WorkerPhase {
    /// Ready to take the next update from the queue.
    Polling,
    /// An update has been handed out and its persistence result is awaited.
    Persisting,
    /// An acknowledgment has been handed out and its delivery is awaited.
    Acknowledging,
    /// The queue was closed and drained; the worker has ended.
    Exited,
}

/// What the worker asks its driver to do after looking at the queue.
#[derive(Clone, Debug, PartialEq, Eq)]
pub enum WorkerStep<T> {
    /// Persist this update, then report the result.
    Persist(T),
    /// Nothing is queued yet. Wait until the inbound loop has made progress,
    /// then ask again.
    Idle,
    /// An earlier update is still being persisted or acknowledged; nothing
    /// was taken from the queue.
    Busy,
    /// The queue is closed and drained. The worker has ended.
    Exit,
}

} // verus!
