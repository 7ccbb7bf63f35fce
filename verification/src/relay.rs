//! The live location relay: one session per connection, an inbound loop that
//! feeds a dispatch queue and a worker that drains it.

pub mod ack;
pub mod inbound;
pub mod laws;
pub mod queue;
pub mod session;
pub mod worker;
