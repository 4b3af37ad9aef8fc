//! MQTT 3.1.1 control packets, as far as the session state reads or carries them.

use vstd::prelude::*;

verus! {

/// Quality of service.
#[derive(Debug, Clone, Copy, PartialEq, Eq, Structural)]
pub enum QoS {
    AtMostOnce,
    AtLeastOnce,
    ExactlyOnce,
}

/// A failure of the codec to read or write a packet. The session state only carries it.
#[derive(Debug)]
pub struct Error {
    pub reason: String,
}

/// Connection request.
#[derive(Debug)]
pub struct Connect {
    pub client_id: String,
    pub keep_alive: u16,
    pub clean_session: bool,
}

/// Answer to a connection request.
#[derive(Debug, Clone, Copy, PartialEq, Eq, Structural)]
pub struct ConnAck {
    pub session_present: bool,
    pub code: u8,
}

/// An application message.
#[derive(Debug)]
pub struct Publish {
    pub dup: bool,
    pub qos: QoS,
    pub retain: bool,
    pub topic: String,
    pub pkid: u16,
    pub payload: Vec<u8>,
}

/// What a `Publish` says on the wire.
pub struct PublishView {
    pub dup: bool,
    pub qos: QoS,
    pub retain: bool,
    pub topic: Seq<char>,
    pub pkid: u16,
    pub payload: Seq<u8>,
}

impl View for Publish {
    type V = PublishView;

    open spec fn view(&self) -> PublishView {
        PublishView {
            dup: self.dup,
            qos: self.qos,
            retain: self.retain,
            topic: self.topic@,
            pkid: self.pkid,
            payload: self.payload@,
        }
    }
}

impl Publish {
    /// A message that is neither a duplicate nor retained, with no packet id yet.
    pub fn new(topic: String, qos: QoS, payload: Vec<u8>) -> (publish: Publish)
        ensures
            publish == (Publish { dup: false, qos, retain: false, topic, pkid: 0, payload }),
    {
        Publish { dup: false, qos, retain: false, topic, pkid: 0, payload }
    }
}

impl Clone for Publish {
    fn clone(&self) -> (copy: Publish)
        ensures
            copy@ == self@,
    {
        let payload = self.payload.clone();
        assert(payload@ =~= self.payload@);
        Publish {
            dup: self.dup,
            qos: self.qos,
            retain: self.retain,
            topic: self.topic.clone(),
            pkid: self.pkid,
            payload,
        }
    }
}

/// Acknowledgement of a QoS 1 publish.
#[derive(Debug, Clone, Copy, PartialEq, Eq, Structural)]
pub struct PubAck {
    pub pkid: u16,
}

impl PubAck {
    pub fn new(pkid: u16) -> (puback: PubAck)
        ensures
            puback.pkid == pkid,
    {
        PubAck { pkid }
    }
}

/// Receipt of a QoS 2 publish, the second packet of the exchange.
#[derive(Debug, Clone, Copy, PartialEq, Eq, Structural)]
pub struct PubRec {
    pub pkid: u16,
}

impl PubRec {
    pub fn new(pkid: u16) -> (pubrec: PubRec)
        ensures
            pubrec.pkid == pkid,
    {
        PubRec { pkid }
    }
}

/// Release of a QoS 2 publish, the third packet of the exchange.
#[derive(Debug, Clone, Copy, PartialEq, Eq, Structural)]
pub struct PubRel {
    pub pkid: u16,
}

impl PubRel {
    pub fn new(pkid: u16) -> (pubrel: PubRel)
        ensures
            pubrel.pkid == pkid,
    {
        PubRel { pkid }
    }
}

/// Completion of a QoS 2 publish, the fourth packet of the exchange.
#[derive(Debug, Clone, Copy, PartialEq, Eq, Structural)]
pub struct PubComp {
    pub pkid: u16,
}

impl PubComp {
    pub fn new(pkid: u16) -> (pubcomp: PubComp)
        ensures
            pubcomp.pkid == pkid,
    {
        PubComp { pkid }
    }
}

/// One topic filter of a subscription, with the highest QoS wanted for it.
#[derive(Debug)]
pub struct SubscribeFilter {
    pub path: String,
    pub qos: QoS,
}

/// Subscription request.
#[derive(Debug)]
pub struct Subscribe {
    pub pkid: u16,
    pub filters: Vec<SubscribeFilter>,
}

/// The broker's verdict on one topic filter.
#[derive(Debug, Clone, Copy, PartialEq, Eq, Structural)]
pub enum SubscribeReasonCode {
    Success(QoS),
    Failure,
}

/// Answer to a subscription request, one code for each of its filters.
#[derive(Debug)]
pub struct SubAck {
    pub pkid: u16,
    pub return_codes: Vec<SubscribeReasonCode>,
}

/// Request to end subscriptions.
#[derive(Debug)]
pub struct Unsubscribe {
    pub pkid: u16,
    pub topics: Vec<String>,
}

/// Answer to an `Unsubscribe`.
#[derive(Debug, Clone, Copy, PartialEq, Eq, Structural)]
pub struct UnsubAck {
    pub pkid: u16,
}

/// Ping of the client.
#[derive(Debug, Clone, Copy, PartialEq, Eq, Structural)]
pub struct PingReq;

/// Answer to a ping.
#[derive(Debug, Clone, Copy, PartialEq, Eq, Structural)]
pub struct PingResp;

/// Orderly end of the connection.
#[derive(Debug, Clone, Copy, PartialEq, Eq, Structural)]
pub struct Disconnect;

/// Any control packet.
#[derive(Debug)]
pub enum Packet {
    Connect(Connect),
    ConnAck(ConnAck),
    Publish(Publish),
    PubAck(PubAck),
    PubRec(PubRec),
    PubRel(PubRel),
    PubComp(PubComp),
    Subscribe(Subscribe),
    SubAck(SubAck),
    Unsubscribe(Unsubscribe),
    UnsubAck(UnsubAck),
    PingReq,
    PingResp,
    Disconnect,
}

} // verus!
