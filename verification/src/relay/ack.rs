//! Acknowledgments sent back to the client, one per consumed update.

use crate::relay::worker::PersistError;
use vstd::prelude::*;

verus! {

/// Status code sent when an update was persisted.
pub const ACK_OK: i16 = 200;

/// Status code sent when persisting an update failed.
pub const ACK_PERSISTENCE_FAILED: i16 = 500;

/// Outcome reported to the client for one location update.
#[derive(Clone, Copy, Debug, PartialEq, Eq, Structural)]
pub enum Acknowledgment {
    /// The update was stored.
    Persisted,
    /// The update could not be stored.
    PersistenceFailed,
}

impl Acknowledgment {
    /// The status code that stands for this acknowledgment on the wire.
    pub open spec fn spec_code(self) -> i16 {
        match self {
            Acknowledgment::Persisted => ACK_OK,
            Acknowledgment::PersistenceFailed => ACK_PERSISTENCE_FAILED,
        }
    }

    /// The acknowledgment owed for one persistence result.
    pub open spec fn spec_for_outcome(outcome: Result<(), PersistError>) -> Acknowledgment {
        match outcome {
            Ok(_) => Acknowledgment::Persisted,
            Err(_) => Acknowledgment::PersistenceFailed,
        }
    }

    /// Turns the persistence collaborator's result into the
    /// acknowledgment for the client. The error's detail is not sent.
    #[verifier::when_used_as_spec(spec_for_outcome)]
    pub fn for_outcome(outcome: Result<(), PersistError>) -> (ack: Acknowledgment)
        ensures
            ack == Self::spec_for_outcome(outcome),
    {
        match outcome {
            Ok(_) => Acknowledgment::Persisted,
            Err(_) => Acknowledgment::PersistenceFailed,
        }
    }

    /// The bare integer written to the outbound half of the transport.
    pub fn code(&self) -> (code: i16)
        ensures
            code == self.spec_code(),
    {
        match self {
            Acknowledgment::Persisted => ACK_OK,
            Acknowledgment::PersistenceFailed => ACK_PERSISTENCE_FAILED,
        }
    }
}

} // verus!
