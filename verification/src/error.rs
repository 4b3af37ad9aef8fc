//! Errors of the session state.

use crate::mqttbytes::{self, SubscribeReasonCode};
use vstd::prelude::*;

verus! {

/// Errors during state handling.
#[derive(Debug)]
pub enum StateError {
    /// I/O error while the state is passed to the network.
    Io(std::io::Error),
    /// Invalid state for a given operation.
    InvalidState,
    /// Received a packet (ack) which isn't asked for.
    Unsolicited(u16),
    /// The last ping request isn't acked.
    AwaitPingResp,
    /// Received a wrong packet while waiting for another packet.
    WrongPacket,
    /// A collision was not resolved between two pings.
    CollisionTimeout,
    /// A subscription names no filter.
    EmptySubscription,
    /// The codec failed on a packet.
    Deserialization(mqttbytes::Error),
    /// The peer closed the connection abruptly.
    ConnectionAborted,
    /// The broker refused a subscription.
    SubFail { reason: SubscribeReasonCode },
}

impl From<std::io::Error> for StateError {
    fn from(error: std::io::Error) -> (wrapped: StateError) {
        StateError::Io(error)
    }
}

impl vstd::std_specs::convert::FromSpecImpl<std::io::Error> for StateError {
    open spec fn obeys_from_spec() -> bool {
        true
    }

    open spec fn from_spec(error: std::io::Error) -> StateError {
        StateError::Io(error)
    }
}

impl From<mqttbytes::Error> for StateError {
    fn from(error: mqttbytes::Error) -> (wrapped: StateError) {
        StateError::Deserialization(error)
    }
}

impl vstd::std_specs::convert::FromSpecImpl<mqttbytes::Error> for StateError {
    open spec fn obeys_from_spec() -> bool {
        true
    }

    open spec fn from_spec(error: mqttbytes::Error) -> StateError {
        StateError::Deserialization(error)
    }
}

} // verus!
