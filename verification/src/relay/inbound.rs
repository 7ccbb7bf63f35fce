//! What the inbound half of the transport yields, and what the inbound relay
//! loop does about it.

use vstd::prelude::*;

verus! {

/// Why an inbound frame could not be turned into an update.
#[derive(Clone, Debug, PartialEq, Eq)]
pub struct DecodeError {
    pub message: String,
}

/// One reading of the inbound half of the transport.
#[derive(Clone, Debug, PartialEq, Eq)]
pub enum Inbound<T> {
    /// A well-formed update.
    Update(T),
    /// A frame that carries no update (ping, pong, close notice).
    Control,
    /// A frame that could not be read or decoded.
    Malformed(DecodeError),
    /// The transport has no more input.
    EndOfInput,
}

/// What the inbound relay loop did with one reading, and so what its driver
/// has to do next.
#[derive(Clone, Debug, PartialEq, Eq)]
pub enum InboundAction {
    /// The update was placed on the dispatch queue. Keep reading.
    Enqueued,
    /// The frame needed no work. Keep reading.
    Skipped,
    /// The frame was dropped; the error is handed over for logging. Keep
    /// reading.
    Reported(DecodeError),
    /// The loop has ended and the dispatch queue is closed. Stop reading.
    Stopped,
}

impl InboundAction {
    /// Whether the driver should read the transport again.
    pub open spec fn spec_keeps_reading(&self) -> bool {
        !(self is Stopped)
    }

    /// Whether the driver should read the transport again.
    #[verifier::when_used_as_spec(spec_keeps_reading)]
    pub fn keeps_reading(&self) -> (reading: bool)
        ensures
            reading == self.spec_keeps_reading(),
    {
        match self {
            InboundAction::Stopped => false,
            _ => true,
        }
    }
}

} // verus!
