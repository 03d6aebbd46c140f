//! Pending-session establishment for a UDP transport of an anonymity network:
//! retransmission schedules of handshake messages, the inbound and outbound
//! handshake state machines and their outcomes, and the destination identity
//! structure that names a peer.
use vstd::prelude::*;

pub mod destination;
pub mod inbound;
pub mod outbound;
pub mod retransmit;
pub mod status;

verus! {

} // verus!
