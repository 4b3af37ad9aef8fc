//! The mathematical model of the session: its state, and what each step does to it.

use crate::error::StateError;
use crate::event::{Event, Outgoing, Request};
use crate::mqttbytes::{
    Packet, PubAck, PubComp, PubRec, PubRel, Publish, QoS, SubAck, Subscribe,
    SubscribeReasonCode, UnsubAck, Unsubscribe,
};
use crate::notice::{NoticeError, NoticeResult, NoticeTx};
use vstd::prelude::*;

verus! {

/// The state of a session.
#[verifier::ext_equal]
pub struct Session {
    /// A ping has been sent and not been answered.
    pub await_pingresp: bool,
    /// Pings asked for since the pending collision arose.
    pub collision_ping_count: nat,
    /// The last packet id that was assigned, or 0 where counting starts over.
    pub last_pkid: u16,
    /// The packet id of the last ack of a QoS 1 publish.
    pub last_puback: u16,
    /// How many publishes are in flight.
    pub inflight: nat,
    /// The largest packet id that is assigned.
    pub max_inflight: u16,
    /// QoS 1 publishes that are not acked, oldest first.
    pub outgoing_pub1: Seq<(Publish, NoticeTx)>,
    /// QoS 2 publishes that are not received, oldest first.
    pub outgoing_pub2: Seq<(Publish, NoticeTx)>,
    /// Packet ids of QoS 2 publishes that are released and not completed, oldest first.
    pub outgoing_rel: Seq<(u16, NoticeTx)>,
    /// For each packet id, whether a QoS 2 publish with it came in and is not released.
    pub incoming_pub: Seq<Option<u16>>,
    /// Subscriptions that are not acked.
    pub outgoing_sub: Seq<(u16, NoticeTx)>,
    /// Unsubscriptions that are not acked.
    pub outgoing_unsub: Seq<(u16, NoticeTx)>,
    /// The publish that waits for its packet id to become free.
    pub collision: Option<(Publish, NoticeTx)>,
    /// What the user has not been told yet, oldest first.
    pub events: Seq<Event>,
    /// The outcomes that have not been delivered yet, oldest first.
    pub notices: Seq<(NoticeTx, NoticeResult)>,
    /// Whether the user sends the acks of incoming publishes.
    pub manual_acks: bool,
}

/// What the state answers a request or an incoming packet with.
pub type Reply = Result<Option<Packet>, StateError>;

/// Whether `reply` is the answer `expected`. They are the same value, but for a publish,
/// which is the same message.
pub open spec fn same_reply(reply: Reply, expected: Reply) -> bool {
    match (reply, expected) {
        (Ok(Some(Packet::Publish(sent))), Ok(Some(Packet::Publish(publish)))) => sent@ == publish@,
        _ => reply == expected,
    }
}

/// The packet ids of queued publishes.
pub open spec fn publish_ids(queue: Seq<(Publish, NoticeTx)>) -> Seq<u16> {
    queue.map_values(|entry: (Publish, NoticeTx)| entry.0.pkid)
}

/// The packet ids of a queue of ids.
pub open spec fn queued_ids(queue: Seq<(u16, NoticeTx)>) -> Seq<u16> {
    queue.map_values(|entry: (u16, NoticeTx)| entry.0)
}

/// How many incoming packet ids there are, 0 among them.
pub open spec fn pkid_slots() -> nat {
    0x1_0000
}

impl Session {
    /// The state that a session starts in.
    pub open spec fn initial(max_inflight: u16, manual_acks: bool) -> Session {
        Session {
            await_pingresp: false,
            collision_ping_count: 0,
            last_pkid: 0,
            last_puback: 0,
            inflight: 0,
            max_inflight,
            outgoing_pub1: Seq::empty(),
            outgoing_pub2: Seq::empty(),
            outgoing_rel: Seq::empty(),
            incoming_pub: Seq::new(pkid_slots(), |i: int| None),
            outgoing_sub: Seq::empty(),
            outgoing_unsub: Seq::empty(),
            collision: None,
            events: Seq::empty(),
            notices: Seq::empty(),
            manual_acks,
        }
    }

    /// What every session keeps: there is a slot for each incoming packet id, a slot holds
    /// nothing or its own id, and the last assigned id is below the limit, if there is one.
    pub open spec fn wf(self) -> bool {
        &&& self.incoming_pub.len() == pkid_slots()
        &&& forall|i: int|
            0 <= i < self.incoming_pub.len() ==> (#[trigger] self.incoming_pub[i] is None
                || self.incoming_pub[i] == Some(i as u16))
        &&& self.max_inflight > 0 ==> self.last_pkid < self.max_inflight
    }

    /// Tells the user what is sent or held back.
    pub open spec fn emit(self, outgoing: Outgoing) -> Session {
        Session { events: self.events.push(Event::Outgoing(outgoing)), ..self }
    }

    /// Settles a notice.
    pub open spec fn settle(self, tx: NoticeTx, outcome: NoticeResult) -> Session {
        Session { notices: self.notices.push((tx, outcome)), ..self }
    }

    // Packet ids

    /// The packet id that is assigned next.
    pub open spec fn next_pkid(self) -> u16 {
        (self.last_pkid + 1) as u16
    }

    /// The state once `next_pkid` is assigned: counting starts over at the limit.
    pub open spec fn after_next_pkid(self) -> Session {
        Session {
            last_pkid: if self.next_pkid() == self.max_inflight {
                0
            } else {
                self.next_pkid()
            },
            ..self
        }
    }

    /// There is a packet id to assign.
    pub open spec fn has_next_pkid(self) -> bool {
        self.last_pkid < u16::MAX
    }

    // Outgoing publishes

    /// The queue of unacked publishes for `qos`.
    pub open spec fn unacked(self, qos: QoS) -> Seq<(Publish, NoticeTx)> {
        match qos {
            QoS::AtMostOnce => Seq::empty(),
            QoS::AtLeastOnce => self.outgoing_pub1,
            QoS::ExactlyOnce => self.outgoing_pub2,
        }
    }

    /// The publish is to be given a packet id.
    pub open spec fn numbers(publish: Publish) -> bool {
        publish.qos != QoS::AtMostOnce && publish.pkid == 0
    }

    /// The publish as it is sent: one above QoS 0 has a packet id.
    pub open spec fn numbered(self, publish: Publish) -> Publish {
        if Self::numbers(publish) {
            Publish { pkid: self.next_pkid(), ..publish }
        } else {
            publish
        }
    }

    /// An unacked publish of the same QoS has the packet id that this one is sent with.
    pub open spec fn collides(self, publish: Publish) -> bool {
        publish_ids(self.unacked(publish.qos)).contains(self.numbered(publish).pkid)
    }

    /// Sets a publish aside until its packet id is acked. One set aside earlier is given up.
    pub open spec fn park(self, publish: Publish, tx: NoticeTx) -> Session {
        let aside = Session { collision: Some((publish, tx)), ..self };
        match self.collision {
            Some((_, dropped)) => aside.settle(dropped, NoticeResult::Dropped),
            None => aside,
        }
    }

    /// Adds a publish to the queue of its QoS. There is no queue for QoS 0.
    pub open spec fn enqueue(self, publish: Publish, tx: NoticeTx) -> Session {
        match publish.qos {
            QoS::AtMostOnce => self,
            QoS::AtLeastOnce => Session {
                outgoing_pub1: self.outgoing_pub1.push((publish, tx)),
                ..self
            },
            QoS::ExactlyOnce => Session {
                outgoing_pub2: self.outgoing_pub2.push((publish, tx)),
                ..self
            },
        }
    }

    /// Sends a publish. One of QoS 0 is settled at once; any other is queued and counted.
    pub open spec fn send(self, publish: Publish, tx: NoticeTx) -> Session {
        let sent = if publish.qos == QoS::AtMostOnce {
            self.settle(tx, NoticeResult::Success)
        } else {
            Session { inflight: self.inflight + 1, ..self.enqueue(publish, tx) }
        };
        sent.emit(Outgoing::Publish(publish.pkid))
    }

    /// The counters have room for the publish.
    pub open spec fn publish_fits(self, publish: Publish) -> bool {
        publish.qos != QoS::AtMostOnce ==> {
            &&& publish.pkid == 0 ==> self.has_next_pkid()
            &&& !self.collides(publish) ==> self.inflight < u16::MAX
        }
    }

    /// A publish is numbered if it has to be. If its packet id is in use it is set aside; if
    /// not, it is sent.
    pub open spec fn after_publish(self, publish: Publish, tx: NoticeTx) -> Session {
        let numbered = self.numbered(publish);
        let counted = if Self::numbers(publish) {
            self.after_next_pkid()
        } else {
            self
        };
        if self.collides(publish) {
            counted.park(numbered, tx).emit(Outgoing::AwaitAck(numbered.pkid))
        } else {
            counted.send(numbered, tx)
        }
    }

    /// The numbered publish is sent, unless it collides.
    pub open spec fn publish_reply(self, publish: Publish) -> Reply {
        if self.collides(publish) {
            Ok(None)
        } else {
            Ok(Some(Packet::Publish(self.numbered(publish))))
        }
    }

    // Other requests

    /// The release as it is sent.
    pub open spec fn numbered_pubrel(self, pubrel: PubRel) -> PubRel {
        if pubrel.pkid == 0 {
            PubRel { pkid: self.next_pkid() }
        } else {
            pubrel
        }
    }

    /// A release is numbered if it has no packet id, and is then outstanding.
    pub open spec fn after_save_pubrel(self, pubrel: PubRel, tx: NoticeTx) -> Session {
        let counted = if pubrel.pkid == 0 {
            self.after_next_pkid()
        } else {
            self
        };
        Session {
            outgoing_rel: self.outgoing_rel.push((self.numbered_pubrel(pubrel).pkid, tx)),
            ..counted
        }
    }

    pub open spec fn after_pubrel_request(self, pubrel: PubRel, tx: NoticeTx) -> Session {
        self.after_save_pubrel(pubrel, tx).emit(
            Outgoing::PubRel(self.numbered_pubrel(pubrel).pkid),
        )
    }

    /// Pings asked for since the collision arose, this one included.
    pub open spec fn collision_pings(self) -> nat {
        if self.collision is Some {
            self.collision_ping_count + 1
        } else {
            self.collision_ping_count
        }
    }

    /// The collision has outlived a ping.
    pub open spec fn collision_timed_out(self) -> bool {
        self.collision is Some && self.collision_pings() >= 2
    }

    /// A ping is counted while a collision is pending. It is sent unless the collision has
    /// timed out or the last ping is unanswered.
    pub open spec fn after_ping(self) -> Session {
        let counted = Session { collision_ping_count: self.collision_pings(), ..self };
        if self.collision_timed_out() || self.await_pingresp {
            counted
        } else {
            Session { await_pingresp: true, ..counted }.emit(Outgoing::PingReq)
        }
    }

    pub open spec fn ping_reply(self) -> Reply {
        if self.collision_timed_out() {
            Err(StateError::CollisionTimeout)
        } else if self.await_pingresp {
            Err(StateError::AwaitPingResp)
        } else {
            Ok(Some(Packet::PingReq))
        }
    }

    /// A subscription that names a filter is numbered and sent, and waits for its ack. One
    /// that names none is refused.
    pub open spec fn after_subscribe(self, subscribe: Subscribe, tx: NoticeTx) -> Session {
        if subscribe.filters@.len() == 0 {
            self.settle(tx, NoticeResult::Dropped)
        } else {
            Session {
                outgoing_sub: self.outgoing_sub.push((self.next_pkid(), tx)),
                ..self.after_next_pkid()
            }.emit(Outgoing::Subscribe(self.next_pkid()))
        }
    }

    pub open spec fn subscribe_reply(self, subscribe: Subscribe) -> Reply {
        if subscribe.filters@.len() == 0 {
            Err(StateError::EmptySubscription)
        } else {
            Ok(Some(Packet::Subscribe(Subscribe { pkid: self.next_pkid(), ..subscribe })))
        }
    }

    /// An unsubscription is numbered and sent, and waits for its ack.
    pub open spec fn after_unsubscribe(self, tx: NoticeTx) -> Session {
        Session {
            outgoing_unsub: self.outgoing_unsub.push((self.next_pkid(), tx)),
            ..self.after_next_pkid()
        }.emit(Outgoing::Unsubscribe(self.next_pkid()))
    }

    pub open spec fn unsubscribe_reply(self, unsubscribe: Unsubscribe) -> Reply {
        Ok(Some(Packet::Unsubscribe(Unsubscribe { pkid: self.next_pkid(), ..unsubscribe })))
    }

    // Collisions

    /// The publish set aside has this packet id.
    pub open spec fn awaits(self, pkid: u16) -> bool {
        self.collision matches Some((publish, _)) && publish.pkid == pkid
    }

    /// Sends the publish that was set aside, and forgets the pings since.
    pub open spec fn resend(self) -> Session {
        let (publish, tx) = self.collision->0;
        Session { collision: None, collision_ping_count: 0, ..self }.send(publish, tx)
    }

    /// The publish that waited for an ack of `pkid` is sent once the ack is in.
    pub open spec fn after_ack_of(self, pkid: u16) -> Session {
        if self.awaits(pkid) {
            self.resend()
        } else {
            self
        }
    }

    /// What an ack of `pkid` is answered with: the publish that waited for it, if any.
    pub open spec fn resend_reply(self, pkid: u16) -> Reply {
        if self.awaits(pkid) {
            Ok(Some(Packet::Publish((self.collision->0).0)))
        } else {
            Ok(None)
        }
    }

    // Incoming acks

    /// The ack is that of the oldest QoS 1 publish, and its packet id is one that is assigned.
    pub open spec fn puback_due(self, puback: PubAck) -> bool {
        &&& puback.pkid <= self.max_inflight
        &&& self.outgoing_pub1.len() > 0
        &&& self.outgoing_pub1[0].0.pkid == puback.pkid
    }

    /// An ack that is due settles the oldest QoS 1 publish, and lets the publish go that
    /// waited for its packet id. Any other changes nothing.
    pub open spec fn after_puback(self, puback: PubAck) -> Session {
        if self.puback_due(puback) {
            Session {
                outgoing_pub1: self.outgoing_pub1.drop_first(),
                last_puback: puback.pkid,
                inflight: (self.inflight - 1) as nat,
                ..self
            }.settle(self.outgoing_pub1[0].1, NoticeResult::Success).after_ack_of(puback.pkid)
        } else {
            self
        }
    }

    pub open spec fn puback_reply(self, puback: PubAck) -> Reply {
        if self.puback_due(puback) {
            self.resend_reply(puback.pkid)
        } else {
            Err(StateError::Unsolicited(puback.pkid))
        }
    }

    /// The receipt is that of the oldest QoS 2 publish, and its packet id is one that is
    /// assigned.
    pub open spec fn pubrec_due(self, pubrec: PubRec) -> bool {
        &&& pubrec.pkid <= self.max_inflight
        &&& self.outgoing_pub2.len() > 0
        &&& self.outgoing_pub2[0].0.pkid == pubrec.pkid
    }

    /// A receipt that is due releases the oldest QoS 2 publish. Any other changes nothing.
    pub open spec fn after_pubrec(self, pubrec: PubRec) -> Session {
        if self.pubrec_due(pubrec) {
            Session {
                outgoing_pub2: self.outgoing_pub2.drop_first(),
                outgoing_rel: self.outgoing_rel.push((pubrec.pkid, self.outgoing_pub2[0].1)),
                ..self
            }.emit(Outgoing::PubRel(pubrec.pkid))
        } else {
            self
        }
    }

    pub open spec fn pubrec_reply(self, pubrec: PubRec) -> Reply {
        if self.pubrec_due(pubrec) {
            Ok(Some(Packet::PubRel(PubRel { pkid: pubrec.pkid })))
        } else {
            Err(StateError::Unsolicited(pubrec.pkid))
        }
    }

    /// The completion is that of the oldest released publish, and its packet id is one that
    /// is assigned.
    pub open spec fn pubcomp_due(self, pubcomp: PubComp) -> bool {
        &&& pubcomp.pkid <= self.max_inflight
        &&& self.outgoing_rel.len() > 0
        &&& self.outgoing_rel[0].0 == pubcomp.pkid
    }

    /// A completion that is due settles the oldest released publish, and lets the publish go
    /// that waited for its packet id. Any other changes nothing.
    pub open spec fn after_pubcomp(self, pubcomp: PubComp) -> Session {
        if self.pubcomp_due(pubcomp) {
            Session {
                outgoing_rel: self.outgoing_rel.drop_first(),
                inflight: (self.inflight - 1) as nat,
                ..self
            }.settle(self.outgoing_rel[0].1, NoticeResult::Success).after_ack_of(pubcomp.pkid)
        } else {
            self
        }
    }

    pub open spec fn pubcomp_reply(self, pubcomp: PubComp) -> Reply {
        if self.pubcomp_due(pubcomp) {
            self.resend_reply(pubcomp.pkid)
        } else {
            Err(StateError::Unsolicited(pubcomp.pkid))
        }
    }

    /// The subscription that the ack is for, if one waits for it.
    pub open spec fn acked_sub(self, suback: SubAck) -> Option<int> {
        if suback.pkid <= self.max_inflight {
            queued_ids(self.outgoing_sub).index_of_first(suback.pkid)
        } else {
            None
        }
    }

    /// The broker refused one of the filters.
    pub open spec fn refused(suback: SubAck) -> bool {
        suback.return_codes@.contains(SubscribeReasonCode::Failure)
    }

    /// The ack of a subscription ends the wait for it and settles it: with success if every
    /// filter was granted.
    pub open spec fn after_suback(self, suback: SubAck) -> Session {
        match self.acked_sub(suback) {
            Some(i) => Session { outgoing_sub: self.outgoing_sub.remove(i), ..self }.settle(
                self.outgoing_sub[i].1,
                if Self::refused(suback) {
                    NoticeResult::Error(NoticeError::V4Subscribe(SubscribeReasonCode::Failure))
                } else {
                    NoticeResult::Success
                },
            ),
            None => self,
        }
    }

    pub open spec fn suback_reply(self, suback: SubAck) -> Reply {
        if self.acked_sub(suback) is None {
            Err(StateError::Unsolicited(suback.pkid))
        } else if Self::refused(suback) {
            Err(StateError::SubFail { reason: SubscribeReasonCode::Failure })
        } else {
            Ok(None)
        }
    }

    /// The ack of an unsubscription settles it. The last one in the queue takes its place.
    pub open spec fn after_unsuback(self, unsuback: UnsubAck) -> Session {
        match queued_ids(self.outgoing_unsub).index_of_first(unsuback.pkid) {
            Some(i) => Session {
                outgoing_unsub: self.outgoing_unsub.update(
                    i,
                    self.outgoing_unsub.last(),
                ).drop_last(),
                ..self
            }.settle(self.outgoing_unsub[i].1, NoticeResult::Success),
            None => self,
        }
    }

    // Incoming publishes

    /// A QoS 2 publish is remembered. Unless the user sends the acks, a QoS 1 publish is
    /// acked and the receipt of a QoS 2 publish is sent.
    pub open spec fn after_incoming_publish(self, publish: Publish) -> Session {
        let stored = match publish.qos {
            QoS::ExactlyOnce => Session {
                incoming_pub: self.incoming_pub.update(publish.pkid as int, Some(publish.pkid)),
                ..self
            },
            _ => self,
        };
        match (publish.qos, self.manual_acks) {
            (QoS::AtLeastOnce, false) => stored.emit(Outgoing::PubAck(publish.pkid)),
            (QoS::ExactlyOnce, false) => stored.emit(Outgoing::PubRec(publish.pkid)),
            _ => stored,
        }
    }

    pub open spec fn incoming_publish_reply(self, publish: Publish) -> Reply {
        match (publish.qos, self.manual_acks) {
            (QoS::AtLeastOnce, false) => Ok(Some(Packet::PubAck(PubAck { pkid: publish.pkid }))),
            (QoS::ExactlyOnce, false) => Ok(Some(Packet::PubRec(PubRec { pkid: publish.pkid }))),
            _ => Ok(None),
        }
    }

    /// A QoS 2 publish with this packet id came in and is not released.
    pub open spec fn received(self, pkid: u16) -> bool {
        pkid < self.incoming_pub.len() && self.incoming_pub[pkid as int] is Some
    }

    /// The release of a publish that came in is completed; the publish is forgotten.
    pub open spec fn after_pubrel(self, pubrel: PubRel) -> Session {
        if self.received(pubrel.pkid) {
            Session {
                incoming_pub: self.incoming_pub.update(pubrel.pkid as int, None),
                ..self
            }.emit(Outgoing::PubComp(pubrel.pkid))
        } else {
            self
        }
    }

    pub open spec fn pubrel_reply(self, pubrel: PubRel) -> Reply {
        if self.received(pubrel.pkid) {
            Ok(Some(Packet::PubComp(PubComp { pkid: pubrel.pkid })))
        } else {
            Err(StateError::Unsolicited(pubrel.pkid))
        }
    }

    // Any request, any packet

    /// The state can handle the request: it is one that a client sends, and the counters
    /// have room for it.
    pub open spec fn accepts_request(self, request: Request) -> bool {
        match request {
            Request::Publish(publish) => self.publish_fits(publish),
            Request::PubRel(pubrel) => pubrel.pkid == 0 ==> self.has_next_pkid(),
            Request::Subscribe(subscribe) => subscribe.filters@.len() > 0 ==> self.has_next_pkid(),
            Request::Unsubscribe(_) => self.has_next_pkid(),
            Request::PingReq(_) => self.collision_pings() <= usize::MAX,
            Request::Disconnect(_) | Request::PubAck(_) | Request::PubRec(_) => true,
            _ => false,
        }
    }

    /// What a request does. Requests that no ack answers let go of their notice.
    pub open spec fn after_request(self, tx: NoticeTx, request: Request) -> Session {
        match request {
            Request::Publish(publish) => self.after_publish(publish, tx),
            Request::PubRel(pubrel) => self.after_pubrel_request(pubrel, tx),
            Request::Subscribe(subscribe) => self.after_subscribe(subscribe, tx),
            Request::Unsubscribe(_) => self.after_unsubscribe(tx),
            Request::PingReq(_) => self.after_ping().settle(tx, NoticeResult::Dropped),
            Request::Disconnect(_) => self.emit(Outgoing::Disconnect).settle(
                tx,
                NoticeResult::Dropped,
            ),
            Request::PubAck(puback) => self.emit(Outgoing::PubAck(puback.pkid)).settle(
                tx,
                NoticeResult::Dropped,
            ),
            Request::PubRec(pubrec) => self.emit(Outgoing::PubRec(pubrec.pkid)).settle(
                tx,
                NoticeResult::Dropped,
            ),
            _ => self,
        }
    }

    /// What a request is answered with.
    pub open spec fn request_reply(self, request: Request) -> Reply {
        match request {
            Request::Publish(publish) => self.publish_reply(publish),
            Request::PubRel(pubrel) => Ok(Some(Packet::PubRel(self.numbered_pubrel(pubrel)))),
            Request::Subscribe(subscribe) => self.subscribe_reply(subscribe),
            Request::Unsubscribe(unsubscribe) => self.unsubscribe_reply(unsubscribe),
            Request::PingReq(_) => self.ping_reply(),
            Request::Disconnect(_) => Ok(Some(Packet::Disconnect)),
            Request::PubAck(puback) => Ok(Some(Packet::PubAck(puback))),
            Request::PubRec(pubrec) => Ok(Some(Packet::PubRec(pubrec))),
            _ => Ok(None),
        }
    }

    /// The state can handle the packet: a publish that is settled was counted, and there is
    /// a slot for a QoS 2 publish.
    pub open spec fn accepts_incoming(self, packet: Packet) -> bool {
        match packet {
            Packet::Publish(publish) => publish.qos == QoS::ExactlyOnce ==> publish.pkid
                < self.incoming_pub.len(),
            Packet::PubAck(puback) => self.puback_due(puback) ==> self.inflight > 0,
            Packet::PubComp(pubcomp) => self.pubcomp_due(pubcomp) ==> self.inflight > 0,
            _ => true,
        }
    }

    /// What a packet does before it is handed to the user.
    pub open spec fn after_packet(self, packet: Packet) -> Session {
        match packet {
            Packet::PingResp => Session { await_pingresp: false, ..self },
            Packet::Publish(publish) => self.after_incoming_publish(publish),
            Packet::SubAck(suback) => self.after_suback(suback),
            Packet::UnsubAck(unsuback) => self.after_unsuback(unsuback),
            Packet::PubAck(puback) => self.after_puback(puback),
            Packet::PubRec(pubrec) => self.after_pubrec(pubrec),
            Packet::PubRel(pubrel) => self.after_pubrel(pubrel),
            Packet::PubComp(pubcomp) => self.after_pubcomp(pubcomp),
            _ => self,
        }
    }

    /// What a packet is answered with. Packets that a broker does not send are refused.
    pub open spec fn incoming_reply(self, packet: Packet) -> Reply {
        match packet {
            Packet::PingResp => Ok(None),
            Packet::Publish(publish) => self.incoming_publish_reply(publish),
            Packet::SubAck(suback) => self.suback_reply(suback),
            Packet::UnsubAck(_) => Ok(None),
            Packet::PubAck(puback) => self.puback_reply(puback),
            Packet::PubRec(pubrec) => self.pubrec_reply(pubrec),
            Packet::PubRel(pubrel) => self.pubrel_reply(pubrel),
            Packet::PubComp(pubcomp) => self.pubcomp_reply(pubcomp),
            _ => Err(StateError::WrongPacket),
        }
    }

    /// What a packet does. One that is not refused is handed to the user.
    pub open spec fn after_incoming(self, packet: Packet) -> Session {
        let handled = self.after_packet(packet);
        if self.incoming_reply(packet) is Ok {
            Session { events: handled.events.push(Event::Incoming(packet)), ..handled }
        } else {
            handled
        }
    }

    // Starting over

    /// The requests that `clean` hands back: the QoS 1 publishes, the QoS 2 publishes and
    /// the releases.
    pub open spec fn pending(self) -> Seq<(NoticeTx, Request)> {
        publish_requests(resend_order(self.outgoing_pub1, self.last_puback)) + publish_requests(
            resend_order(self.outgoing_pub2, self.last_puback),
        ) + release_requests(self.outgoing_rel)
    }

    /// Every queue of packets is empty, in either direction, and no ping is awaited. The
    /// notices of subscriptions and unsubscriptions, which are not handed back, are dropped.
    pub open spec fn after_clean(self) -> Session {
        Session {
            outgoing_pub1: Seq::empty(),
            outgoing_pub2: Seq::empty(),
            outgoing_rel: Seq::empty(),
            incoming_pub: Seq::new(self.incoming_pub.len(), |i: int| None),
            outgoing_sub: Seq::empty(),
            outgoing_unsub: Seq::empty(),
            notices: self.notices + dropped_notices(self.outgoing_sub) + dropped_notices(
                self.outgoing_unsub,
            ),
            await_pingresp: false,
            collision_ping_count: 0,
            inflight: 0,
            ..self
        }
    }
}

/// The outcomes of requests that are given up.
pub open spec fn dropped_notices(queue: Seq<(u16, NoticeTx)>) -> Seq<(NoticeTx, NoticeResult)> {
    queue.map_values(|entry: (u16, NoticeTx)| (entry.1, NoticeResult::Dropped))
}

/// How many of the queued publishes go last when they are sent again: those up to the first
/// with the packet id that was acked last, or all if there is none.
pub open spec fn resend_split(queue: Seq<(Publish, NoticeTx)>, last_puback: u16) -> int {
    match publish_ids(queue).index_of_first(last_puback) {
        Some(i) => i + 1,
        None => queue.len() as int,
    }
}

/// The queued publishes in the order in which they are to be sent again.
pub open spec fn resend_order(queue: Seq<(Publish, NoticeTx)>, last_puback: u16) -> Seq<
    (Publish, NoticeTx),
> {
    queue.skip(resend_split(queue, last_puback)) + queue.take(resend_split(queue, last_puback))
}

/// The requests that send queued publishes again.
pub open spec fn publish_requests(queue: Seq<(Publish, NoticeTx)>) -> Seq<(NoticeTx, Request)> {
    queue.map_values(|entry: (Publish, NoticeTx)| (entry.1, Request::Publish(entry.0)))
}

/// The requests that send releases again.
pub open spec fn release_requests(queue: Seq<(u16, NoticeTx)>) -> Seq<(NoticeTx, Request)> {
    queue.map_values(
        |entry: (u16, NoticeTx)| (entry.1, Request::PubRel(PubRel { pkid: entry.0 })),
    )
}

} // verus!
