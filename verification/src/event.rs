//! What goes in and out of the session state.

use crate::mqttbytes::{
    Disconnect, Packet, PingReq, PingResp, PubAck, PubComp, PubRec, PubRel, Publish, SubAck,
    Subscribe, UnsubAck, Unsubscribe,
};
use vstd::prelude::*;

verus! {

/// A packet from the broker.
pub type Incoming = Packet;

/// What the state has decided to send, or to hold back.
#[derive(Debug, Clone, Copy, PartialEq, Eq, Structural)]
pub enum Outgoing {
    Publish(u16),
    Subscribe(u16),
    Unsubscribe(u16),
    PubAck(u16),
    PubRec(u16),
    PubRel(u16),
    PubComp(u16),
    PingReq,
    PingResp,
    Disconnect,
    /// A publish is held back until this packet id is acked.
    AwaitAck(u16),
}

/// What the user is told.
#[derive(Debug)]
pub enum Event {
    Incoming(Incoming),
    Outgoing(Outgoing),
}

/// What the user asks for.
#[derive(Debug)]
pub enum Request {
    Publish(Publish),
    PubAck(PubAck),
    PubRec(PubRec),
    PubComp(PubComp),
    PubRel(PubRel),
    PingReq(PingReq),
    PingResp(PingResp),
    Subscribe(Subscribe),
    SubAck(SubAck),
    Unsubscribe(Unsubscribe),
    UnsubAck(UnsubAck),
    Disconnect(Disconnect),
}

} // verus!
