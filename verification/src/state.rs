//! The session state.

use crate::error::StateError;
use crate::event::{Event, Incoming, Outgoing, Request};
use crate::model::{
    dropped_notices, publish_ids, publish_requests, queued_ids, release_requests, resend_order,
    resend_split, same_reply, Reply, Session,
};
use crate::mqttbytes::{
    Packet, PubAck, PubComp, PubRec, PubRel, Publish, QoS, SubAck, Subscribe,
    SubscribeReasonCode, UnsubAck, Unsubscribe,
};
use crate::notice::{NoticeError, NoticeResult, NoticeTx};
use crate::std_ext::swap_remove_back;
use std::collections::VecDeque;
use std::time::Instant;
use vstd::prelude::*;

verus! {

/// State of the mqtt connection.
///
/// The methods modify the state and perform no network operation. They answer with the
/// packet to write to the network, and leave what the user and the senders of requests are
/// to be told in `events` and `notices`.
#[derive(Debug)]
pub struct MqttState {
    /// Status of the last ping.
    pub await_pingresp: bool,
    /// Collision ping count. Collisions stop user requests, which in turn trigger pings.
    /// Multiple pings without resolving collisions result in an error.
    pub collision_ping_count: usize,
    /// Last incoming packet time.
    pub last_incoming: Instant,
    /// Last outgoing packet time.
    pub last_outgoing: Instant,
    /// Packet id of the last outgoing packet.
    pub last_pkid: u16,
    /// Packet id of the last acked publish.
    pub last_puback: u16,
    /// Number of outgoing inflight publishes.
    pub inflight: u16,
    /// Maximum number of allowed inflight publishes.
    pub max_inflight: u16,
    /// Outgoing QoS 1 publishes which aren't acked yet.
    pub outgoing_pub1: VecDeque<(Publish, NoticeTx)>,
    /// Outgoing QoS 2 publishes which aren't acked yet.
    pub outgoing_pub2: VecDeque<(Publish, NoticeTx)>,
    /// Packet ids of released QoS 2 publishes.
    pub outgoing_rel: VecDeque<(u16, NoticeTx)>,
    /// Packet ids of incoming QoS 2 publishes.
    pub incoming_pub: Vec<Option<u16>>,
    /// Outgoing subscribes.
    pub outgoing_sub: VecDeque<(u16, NoticeTx)>,
    /// Outgoing unsubscribes.
    pub outgoing_unsub: VecDeque<(u16, NoticeTx)>,
    /// Last collision, due to the broker not acking in order.
    pub collision: Option<(Publish, NoticeTx)>,
    /// Buffered events for the user.
    pub events: VecDeque<Event>,
    /// Buffered outcomes for the senders of requests.
    pub notices: VecDeque<(NoticeTx, NoticeResult)>,
    /// Indicates that the user sends the acknowledgements of incoming publishes.
    pub manual_acks: bool,
}

impl View for MqttState {
    type V = Session;

    open spec fn view(&self) -> Session {
        Session {
            await_pingresp: self.await_pingresp,
            collision_ping_count: self.collision_ping_count as nat,
            last_pkid: self.last_pkid,
            last_puback: self.last_puback,
            inflight: self.inflight as nat,
            max_inflight: self.max_inflight,
            outgoing_pub1: self.outgoing_pub1@,
            outgoing_pub2: self.outgoing_pub2@,
            outgoing_rel: self.outgoing_rel@,
            incoming_pub: self.incoming_pub@,
            outgoing_sub: self.outgoing_sub@,
            outgoing_unsub: self.outgoing_unsub@,
            collision: self.collision,
            events: self.events@,
            notices: self.notices@,
            manual_acks: self.manual_acks,
        }
    }
}

/// The place of the first publish with this packet id.
fn position_of_publish(queue: &VecDeque<(Publish, NoticeTx)>, pkid: u16) -> (pos: Option<usize>)
    ensures
        match pos {
            Some(i) => publish_ids(queue@).index_of_first(pkid) == Some(i as int),
            None => publish_ids(queue@).index_of_first(pkid) is None,
        },
        pos is Some <==> publish_ids(queue@).contains(pkid),
{
    let ghost ids = publish_ids(queue@);
    proof {
        ids.index_of_first_ensures(pkid);
    }
    let mut i: usize = 0;
    while i < queue.len()
        invariant
            i <= queue@.len(),
            ids == publish_ids(queue@),
            forall|j: int| 0 <= j < i ==> ids[j] != pkid,
        decreases queue.len() - i,
    {
        if queue[i].0.pkid == pkid {
            proof {
                ids.index_of_first_ensures(pkid);
                assert(ids[i as int] == pkid);
            }
            return Some(i);
        }
        assert(ids[i as int] != pkid);
        i += 1;
    }
    None
}

/// The place of the first entry with this packet id.
fn position_of_id(queue: &VecDeque<(u16, NoticeTx)>, pkid: u16) -> (pos: Option<usize>)
    ensures
        match pos {
            Some(i) => queued_ids(queue@).index_of_first(pkid) == Some(i as int) && i
                < queue@.len(),
            None => queued_ids(queue@).index_of_first(pkid) is None,
        },
{
    let ghost ids = queued_ids(queue@);
    proof {
        ids.index_of_first_ensures(pkid);
    }
    let mut i: usize = 0;
    while i < queue.len()
        invariant
            i <= queue@.len(),
            ids == queued_ids(queue@),
            forall|j: int| 0 <= j < i ==> ids[j] != pkid,
        decreases queue.len() - i,
    {
        if queue[i].0 == pkid {
            proof {
                ids.index_of_first_ensures(pkid);
                assert(ids[i as int] == pkid);
            }
            return Some(i);
        }
        assert(ids[i as int] != pkid);
        i += 1;
    }
    None
}

/// The first code that grants nothing.
fn first_refusal(codes: &Vec<SubscribeReasonCode>) -> (refusal: Option<SubscribeReasonCode>)
    ensures
        refusal == (if codes@.contains(SubscribeReasonCode::Failure) {
            Some(SubscribeReasonCode::Failure)
        } else {
            None
        }),
{
    let mut i: usize = 0;
    while i < codes.len()
        invariant
            i <= codes@.len(),
            forall|j: int| 0 <= j < i ==> codes@[j] is Success,
        decreases codes@.len() - i,
    {
        match codes[i] {
            SubscribeReasonCode::Success(_) => {},
            reason => {
                assert(codes@[i as int] == SubscribeReasonCode::Failure);
                return Some(reason);
            },
        }
        i += 1;
    }
    None
}

/// Moves queued publishes to `pending`, in the order in which they are to be sent again.
fn drain_publishes(
    queue: &mut VecDeque<(Publish, NoticeTx)>,
    last_puback: u16,
    pending: &mut Vec<(NoticeTx, Request)>,
)
    ensures
        final(queue)@ == Seq::<(Publish, NoticeTx)>::empty(),
        final(pending)@ == old(pending)@ + publish_requests(
            resend_order(old(queue)@, last_puback),
        ),
{
    let ghost all = queue@;
    let ghost ids = publish_ids(all);
    let ghost split = resend_split(all, last_puback);
    let ghost before = pending@;
    let mut second_half: Vec<(NoticeTx, Request)> = Vec::new();
    let mut last_pkid_found = false;
    let ghost mut n: int = 0;
    proof {
        ids.index_of_first_ensures(last_puback);
        assert(publish_requests(all.take(0)) =~= Seq::empty());
        assert(all.skip(0) =~= all);
    }
    while queue.len() > 0
        invariant
            0 <= n <= all.len(),
            0 <= split <= all.len(),
            ids == publish_ids(all),
            split == resend_split(all, last_puback),
            queue@ == all.skip(n),
            last_pkid_found ==> n >= split,
            !last_pkid_found ==> n <= split && (forall|j: int| 0 <= j < n ==> ids[j]
                != last_puback),
            second_half@ == publish_requests(all.take(if n <= split { n } else { split })),
            pending@ == before + publish_requests(
                all.subrange(if n <= split { n } else { split }, n),
            ),
        decreases queue@.len(),
    {
        let (publish, tx) = queue.pop_front().unwrap();
        let this_pkid = publish.pkid;
        proof {
            ids.index_of_first_ensures(last_puback);
            assert(ids[n] == this_pkid);
        }
        if !last_pkid_found {
            second_half.push((tx, Request::Publish(publish)));
            if this_pkid == last_puback {
                last_pkid_found = true;
            }
        } else {
            pending.push((tx, Request::Publish(publish)));
        }
        proof {
            n = n + 1;
            assert(all.take(n) =~= all.take(n - 1).push(all[n - 1]));
            assert(queue@ =~= all.skip(n));
            if n <= split {
                assert(all.subrange(n, n) =~= Seq::empty());
            } else {
                assert(all.subrange(split, n) =~= all.subrange(split, n - 1).push(all[n - 1]));
            }
        }
    }
    pending.append(&mut second_half);
}

/// Moves outstanding releases to `pending`.
fn drain_releases(queue: &mut VecDeque<(u16, NoticeTx)>, pending: &mut Vec<(NoticeTx, Request)>)
    ensures
        final(queue)@ == Seq::<(u16, NoticeTx)>::empty(),
        final(pending)@ == old(pending)@ + release_requests(old(queue)@),
{
    let ghost all = queue@;
    let ghost before = pending@;
    let ghost mut n: int = 0;
    while queue.len() > 0
        invariant
            0 <= n <= all.len(),
            queue@ == all.skip(n),
            pending@ == before + release_requests(all.take(n)),
        decreases queue@.len(),
    {
        let (pkid, tx) = queue.pop_front().unwrap();
        pending.push((tx, Request::PubRel(PubRel::new(pkid))));
        proof {
            n = n + 1;
            assert(all.take(n) =~= all.take(n - 1).push(all[n - 1]));
            assert(queue@ =~= all.skip(n));
        }
    }
    assert(all.take(n) =~= all);
}

/// Gives up the requests of a queue.
fn drop_requests(
    queue: &mut VecDeque<(u16, NoticeTx)>,
    notices: &mut VecDeque<(NoticeTx, NoticeResult)>,
)
    ensures
        final(queue)@ == Seq::<(u16, NoticeTx)>::empty(),
        final(notices)@ == old(notices)@ + dropped_notices(old(queue)@),
{
    let ghost all = queue@;
    let ghost before = notices@;
    let ghost mut n: int = 0;
    while queue.len() > 0
        invariant
            0 <= n <= all.len(),
            queue@ == all.skip(n),
            notices@ == before + dropped_notices(all.take(n)),
        decreases queue@.len(),
    {
        let (_, tx) = queue.pop_front().unwrap();
        notices.push_back((tx, NoticeResult::Dropped));
        proof {
            n = n + 1;
            assert(all.take(n) =~= all.take(n - 1).push(all[n - 1]));
            assert(queue@ =~= all.skip(n));
        }
    }
    assert(all.take(n) =~= all);
}

/// Empties every slot.
fn clear_slots(slots: &mut Vec<Option<u16>>)
    ensures
        final(slots)@ == Seq::new(old(slots)@.len(), |i: int| None::<u16>),
{
    let mut i: usize = 0;
    while i < slots.len()
        invariant
            i <= slots@.len(),
            slots@.len() == old(slots)@.len(),
            forall|j: int| 0 <= j < i ==> slots@[j] is None,
        decreases slots@.len() - i,
    {
        slots.set(i, None);
        i += 1;
    }
}

impl MqttState {
    /// When the last packets came in and went out.
    pub open spec fn clocks(&self) -> (Instant, Instant) {
        (self.last_incoming, self.last_outgoing)
    }

    /// Creates a new mqtt state. The same state should be used during a connection for
    /// persistent sessions, while a new state should be instantiated for clean sessions.
    pub fn new(max_inflight: u16, manual_acks: bool) -> (state: MqttState)
        ensures
            state@ == Session::initial(max_inflight, manual_acks),
            state@.wf(),
            call_ensures(Instant::now, (), state.last_incoming),
            call_ensures(Instant::now, (), state.last_outgoing),
    {
        MqttState {
            await_pingresp: false,
            collision_ping_count: 0,
            last_incoming: Instant::now(),
            last_outgoing: Instant::now(),
            last_pkid: 0,
            last_puback: 0,
            inflight: 0,
            max_inflight,
            outgoing_pub1: VecDeque::with_capacity(10),
            outgoing_pub2: VecDeque::with_capacity(10),
            outgoing_rel: VecDeque::with_capacity(10),
            incoming_pub: vec![None; u16::MAX as usize + 1],
            outgoing_sub: VecDeque::with_capacity(10),
            outgoing_unsub: VecDeque::with_capacity(10),
            collision: None,
            events: VecDeque::with_capacity(100),
            notices: VecDeque::with_capacity(100),
            manual_acks,
        }
    }

    /// Returns inflight outgoing packets and clears internal queues. Subscriptions and
    /// unsubscriptions that are not acked are not returned; their notices are dropped.
    pub fn clean(&mut self) -> (pending: Vec<(NoticeTx, Request)>)
        ensures
            pending@ == old(self)@.pending(),
            final(self)@ == old(self)@.after_clean(),
            final(self).clocks() == old(self).clocks(),
    {
        let mut pending: Vec<(NoticeTx, Request)> = Vec::with_capacity(100);
        drain_publishes(&mut self.outgoing_pub1, self.last_puback, &mut pending);
        drain_publishes(&mut self.outgoing_pub2, self.last_puback, &mut pending);
        drain_releases(&mut self.outgoing_rel, &mut pending);
        clear_slots(&mut self.incoming_pub);
        drop_requests(&mut self.outgoing_sub, &mut self.notices);
        drop_requests(&mut self.outgoing_unsub, &mut self.notices);
        self.await_pingresp = false;
        self.collision_ping_count = 0;
        self.inflight = 0;
        pending
    }

    /// Number of outgoing inflight publishes.
    pub fn inflight(&self) -> (inflight: u16)
        ensures
            inflight == self@.inflight,
    {
        self.inflight
    }

    /// Packet ids are incremented till the maximum of inflight messages and reset to 1 after
    /// that.
    pub fn next_pkid(&mut self) -> (pkid: u16)
        requires
            old(self)@.has_next_pkid(),
        ensures
            pkid == old(self)@.next_pkid(),
            final(self)@ == old(self)@.after_next_pkid(),
            final(self).clocks() == old(self).clocks(),
    {
        let next_pkid = self.last_pkid + 1;
        // At the limit, counting starts over.
        if next_pkid == self.max_inflight {
            self.last_pkid = 0;
            return next_pkid;
        }
        self.last_pkid = next_pkid;
        next_pkid
    }

    /// Sets a publish aside. The notice of one that was set aside earlier is dropped.
    fn park(&mut self, publish: Publish, tx: NoticeTx)
        ensures
            final(self)@ == old(self)@.park(publish, tx),
            final(self).clocks() == old(self).clocks(),
    {
        if let Some((_, dropped)) = self.collision.take() {
            self.notices.push_back((dropped, NoticeResult::Dropped));
        }
        self.collision = Some((publish, tx));
    }

    /// Sends a publish. One above QoS 0 is queued until it is acked, and counted.
    fn send(&mut self, publish: Publish, tx: NoticeTx) -> (packet: Packet)
        requires
            publish.qos != QoS::AtMostOnce ==> old(self)@.inflight < u16::MAX,
        ensures
            final(self)@ == old(self)@.send(publish, tx),
            packet matches Packet::Publish(sent) && sent@ == publish@,
            final(self).clocks() == old(self).clocks(),
    {
        let sent = publish.clone();
        match publish.qos {
            QoS::AtMostOnce => {
                self.notices.push_back((tx, NoticeResult::Success));
            },
            QoS::AtLeastOnce => {
                self.outgoing_pub1.push_back((publish, tx));
                self.inflight += 1;
            },
            QoS::ExactlyOnce => {
                self.outgoing_pub2.push_back((publish, tx));
                self.inflight += 1;
            },
        }
        self.events.push_back(Event::Outgoing(Outgoing::Publish(sent.pkid)));
        Packet::Publish(sent)
    }

    /// Adds the next packet identifier to QoS 1 and 2 publish packets and returns the publish
    /// wrapped in a packet. A publish whose packet id is in use is set aside instead.
    pub fn outgoing_publish(&mut self, publish: Publish, notice_tx: NoticeTx) -> (reply: Reply)
        requires
            old(self)@.publish_fits(publish),
        ensures
            final(self)@ == old(self)@.after_publish(publish, notice_tx),
            same_reply(reply, old(self)@.publish_reply(publish)),
            final(self).clocks() == old(self).clocks(),
    {
        let mut publish = publish;
        if publish.qos == QoS::AtMostOnce {
            return Ok(Some(self.send(publish, notice_tx)));
        }
        if publish.pkid == 0 {
            publish.pkid = self.next_pkid();
        }
        let pkid = publish.pkid;
        let collision = if publish.qos == QoS::AtLeastOnce {
            position_of_publish(&self.outgoing_pub1, pkid)
        } else {
            position_of_publish(&self.outgoing_pub2, pkid)
        };
        if collision.is_some() {
            self.park(publish, notice_tx);
            self.events.push_back(Event::Outgoing(Outgoing::AwaitAck(pkid)));
            return Ok(None);
        }
        Ok(Some(self.send(publish, notice_tx)))
    }

    /// Keeps a release as outstanding, with a packet id.
    pub fn save_pubrel(&mut self, pubrel: PubRel, notice_tx: NoticeTx) -> (saved: Result<
        PubRel,
        StateError,
    >)
        requires
            pubrel.pkid == 0 ==> old(self)@.has_next_pkid(),
        ensures
            saved == Ok::<PubRel, StateError>(old(self)@.numbered_pubrel(pubrel)),
            final(self)@ == old(self)@.after_save_pubrel(pubrel, notice_tx),
            final(self).clocks() == old(self).clocks(),
    {
        let mut pubrel = pubrel;
        // Packet id 0 stands for a packet that has none yet.
        if pubrel.pkid == 0 {
            pubrel.pkid = self.next_pkid();
        }
        self.outgoing_rel.push_back((pubrel.pkid, notice_tx));
        Ok(pubrel)
    }

    /// Releases a QoS 2 publish.
    pub fn outgoing_pubrel(&mut self, pubrel: PubRel, notice_tx: NoticeTx) -> (reply: Reply)
        requires
            pubrel.pkid == 0 ==> old(self)@.has_next_pkid(),
        ensures
            final(self)@ == old(self)@.after_pubrel_request(pubrel, notice_tx),
            reply == Ok::<Option<Packet>, StateError>(
                Some(Packet::PubRel(old(self)@.numbered_pubrel(pubrel))),
            ),
            final(self).clocks() == old(self).clocks(),
    {
        match self.save_pubrel(pubrel, notice_tx) {
            Ok(pubrel) => {
                self.events.push_back(Event::Outgoing(Outgoing::PubRel(pubrel.pkid)));
                Ok(Some(Packet::PubRel(pubrel)))
            },
            Err(error) => Err(error),
        }
    }

    /// Acks a QoS 1 publish.
    pub fn outgoing_puback(&mut self, puback: PubAck) -> (reply: Reply)
        ensures
            final(self)@ == old(self)@.emit(Outgoing::PubAck(puback.pkid)),
            reply == Ok::<Option<Packet>, StateError>(Some(Packet::PubAck(puback))),
            final(self).clocks() == old(self).clocks(),
    {
        self.events.push_back(Event::Outgoing(Outgoing::PubAck(puback.pkid)));
        Ok(Some(Packet::PubAck(puback)))
    }

    /// Sends the receipt of a QoS 2 publish.
    pub fn outgoing_pubrec(&mut self, pubrec: PubRec) -> (reply: Reply)
        ensures
            final(self)@ == old(self)@.emit(Outgoing::PubRec(pubrec.pkid)),
            reply == Ok::<Option<Packet>, StateError>(Some(Packet::PubRec(pubrec))),
            final(self).clocks() == old(self).clocks(),
    {
        self.events.push_back(Event::Outgoing(Outgoing::PubRec(pubrec.pkid)));
        Ok(Some(Packet::PubRec(pubrec)))
    }

    /// Sends a ping, unless the last one is unanswered or a collision has outlived one.
    pub fn outgoing_ping(&mut self) -> (reply: Reply)
        requires
            old(self)@.collision_pings() <= usize::MAX,
        ensures
            final(self)@ == old(self)@.after_ping(),
            reply == old(self)@.ping_reply(),
            final(self).clocks() == old(self).clocks(),
    {
        if self.collision.is_some() {
            self.collision_ping_count += 1;
            if self.collision_ping_count >= 2 {
                return Err(StateError::CollisionTimeout);
            }
        }
        // The last ping has to be answered first.
        if self.await_pingresp {
            return Err(StateError::AwaitPingResp);
        }
        self.await_pingresp = true;
        self.events.push_back(Event::Outgoing(Outgoing::PingReq));
        Ok(Some(Packet::PingReq))
    }

    /// Sends a subscription.
    pub fn outgoing_subscribe(&mut self, subscription: Subscribe, notice_tx: NoticeTx) -> (reply:
        Reply)
        requires
            subscription.filters@.len() > 0 ==> old(self)@.has_next_pkid(),
        ensures
            final(self)@ == old(self)@.after_subscribe(subscription, notice_tx),
            reply == old(self)@.subscribe_reply(subscription),
            final(self).clocks() == old(self).clocks(),
    {
        let mut subscription = subscription;
        if subscription.filters.len() == 0 {
            self.notices.push_back((notice_tx, NoticeResult::Dropped));
            return Err(StateError::EmptySubscription);
        }
        let pkid = self.next_pkid();
        subscription.pkid = pkid;
        self.outgoing_sub.push_back((pkid, notice_tx));
        self.events.push_back(Event::Outgoing(Outgoing::Subscribe(pkid)));
        Ok(Some(Packet::Subscribe(subscription)))
    }

    /// Sends an unsubscription.
    pub fn outgoing_unsubscribe(&mut self, unsub: Unsubscribe, notice_tx: NoticeTx) -> (reply:
        Reply)
        requires
            old(self)@.has_next_pkid(),
        ensures
            final(self)@ == old(self)@.after_unsubscribe(notice_tx),
            reply == old(self)@.unsubscribe_reply(unsub),
            final(self).clocks() == old(self).clocks(),
    {
        let mut unsub = unsub;
        let pkid = self.next_pkid();
        unsub.pkid = pkid;
        self.outgoing_unsub.push_back((pkid, notice_tx));
        self.events.push_back(Event::Outgoing(Outgoing::Unsubscribe(pkid)));
        Ok(Some(Packet::Unsubscribe(unsub)))
    }

    /// Ends the connection.
    pub fn outgoing_disconnect(&mut self) -> (reply: Reply)
        ensures
            final(self)@ == old(self)@.emit(Outgoing::Disconnect),
            reply == Ok::<Option<Packet>, StateError>(Some(Packet::Disconnect)),
            final(self).clocks() == old(self).clocks(),
    {
        self.events.push_back(Event::Outgoing(Outgoing::Disconnect));
        Ok(Some(Packet::Disconnect))
    }

    /// Takes out the publish that waits for this packet id.
    pub fn check_collision(&mut self, pkid: u16) -> (waiting: Option<(Publish, NoticeTx)>)
        ensures
            waiting == (if old(self)@.awaits(pkid) {
                old(self)@.collision
            } else {
                None
            }),
            final(self)@ == (Session {
                collision: if old(self)@.awaits(pkid) {
                    None
                } else {
                    old(self)@.collision
                },
                ..old(self)@
            }),
            final(self).clocks() == old(self).clocks(),
    {
        let waits = match &self.collision {
            Some((publish, _)) => publish.pkid == pkid,
            None => false,
        };
        if waits {
            self.collision.take()
        } else {
            None
        }
    }

    /// Sends a publish that was set aside, if it waits for this packet id.
    fn resend(&mut self, pkid: u16) -> (packet: Option<Packet>)
        requires
            old(self)@.inflight < u16::MAX,
        ensures
            final(self)@ == old(self)@.after_ack_of(pkid),
            same_reply(Ok(packet), old(self)@.resend_reply(pkid)),
            final(self).clocks() == old(self).clocks(),
    {
        match self.check_collision(pkid) {
            Some((publish, tx)) => {
                self.collision_ping_count = 0;
                Some(self.send(publish, tx))
            },
            None => None,
        }
    }

    /// The broker acks a QoS 1 publish. Acks are expected in order.
    pub fn handle_incoming_puback(&mut self, puback: &PubAck) -> (reply: Reply)
        requires
            old(self)@.accepts_incoming(Packet::PubAck(*puback)),
        ensures
            final(self)@ == old(self)@.after_puback(*puback),
            same_reply(reply, old(self)@.puback_reply(*puback)),
            final(self).clocks() == old(self).clocks(),
    {
        if puback.pkid > self.max_inflight || self.outgoing_pub1.len() == 0
            || self.outgoing_pub1[0].0.pkid != puback.pkid {
            return Err(StateError::Unsolicited(puback.pkid));
        }
        let (_, tx) = self.outgoing_pub1.pop_front().unwrap();
        self.notices.push_back((tx, NoticeResult::Success));
        self.last_puback = puback.pkid;
        self.inflight -= 1;
        Ok(self.resend(puback.pkid))
    }

    /// The broker has received a QoS 2 publish, which is then released. Receipts are expected
    /// in order.
    pub fn handle_incoming_pubrec(&mut self, pubrec: &PubRec) -> (reply: Reply)
        ensures
            final(self)@ == old(self)@.after_pubrec(*pubrec),
            reply == old(self)@.pubrec_reply(*pubrec),
            final(self).clocks() == old(self).clocks(),
    {
        if pubrec.pkid > self.max_inflight || self.outgoing_pub2.len() == 0
            || self.outgoing_pub2[0].0.pkid != pubrec.pkid {
            return Err(StateError::Unsolicited(pubrec.pkid));
        }
        // The publish stays in flight until it is completed.
        let (_, tx) = self.outgoing_pub2.pop_front().unwrap();
        self.outgoing_rel.push_back((pubrec.pkid, tx));
        self.events.push_back(Event::Outgoing(Outgoing::PubRel(pubrec.pkid)));
        Ok(Some(Packet::PubRel(PubRel { pkid: pubrec.pkid })))
    }

    /// The broker releases a QoS 2 publish, which is then completed.
    pub fn handle_incoming_pubrel(&mut self, pubrel: &PubRel) -> (reply: Reply)
        ensures
            final(self)@ == old(self)@.after_pubrel(*pubrel),
            reply == old(self)@.pubrel_reply(*pubrel),
            final(self).clocks() == old(self).clocks(),
    {
        let slot = pubrel.pkid as usize;
        if slot >= self.incoming_pub.len() || self.incoming_pub[slot].is_none() {
            return Err(StateError::Unsolicited(pubrel.pkid));
        }
        self.incoming_pub.set(slot, None);
        self.events.push_back(Event::Outgoing(Outgoing::PubComp(pubrel.pkid)));
        Ok(Some(Packet::PubComp(PubComp { pkid: pubrel.pkid })))
    }

    /// The broker completes a QoS 2 publish. Completions are expected in order.
    pub fn handle_incoming_pubcomp(&mut self, pubcomp: &PubComp) -> (reply: Reply)
        requires
            old(self)@.accepts_incoming(Packet::PubComp(*pubcomp)),
        ensures
            final(self)@ == old(self)@.after_pubcomp(*pubcomp),
            same_reply(reply, old(self)@.pubcomp_reply(*pubcomp)),
            final(self).clocks() == old(self).clocks(),
    {
        if pubcomp.pkid > self.max_inflight || self.outgoing_rel.len() == 0
            || self.outgoing_rel[0].0 != pubcomp.pkid {
            return Err(StateError::Unsolicited(pubcomp.pkid));
        }
        let (_, tx) = self.outgoing_rel.pop_front().unwrap();
        self.notices.push_back((tx, NoticeResult::Success));
        self.inflight -= 1;
        Ok(self.resend(pubcomp.pkid))
    }

    /// The broker answers a ping.
    pub fn handle_incoming_pingresp(&mut self) -> (reply: Reply)
        ensures
            final(self)@ == (Session { await_pingresp: false, ..old(self)@ }),
            reply == Ok::<Option<Packet>, StateError>(None),
            final(self).clocks() == old(self).clocks(),
    {
        self.await_pingresp = false;
        Ok(None)
    }

    /// The broker acks a subscription. These acks may come in any order.
    pub fn handle_incoming_suback(&mut self, suback: &SubAck) -> (reply: Reply)
        ensures
            final(self)@ == old(self)@.after_suback(*suback),
            reply == old(self)@.suback_reply(*suback),
            final(self).clocks() == old(self).clocks(),
    {
        if suback.pkid > self.max_inflight {
            return Err(StateError::Unsolicited(suback.pkid));
        }
        let pos = match position_of_id(&self.outgoing_sub, suback.pkid) {
            Some(pos) => pos,
            None => return Err(StateError::Unsolicited(suback.pkid)),
        };
        let (_, tx) = self.outgoing_sub.remove(pos).unwrap();
        match first_refusal(&suback.return_codes) {
            Some(reason) => {
                self.notices.push_back(
                    (tx, NoticeResult::Error(NoticeError::V4Subscribe(reason))),
                );
                Err(StateError::SubFail { reason })
            },
            None => {
                self.notices.push_back((tx, NoticeResult::Success));
                Ok(None)
            },
        }
    }

    /// The broker acks an unsubscription. These acks may come in any order, and one that
    /// isn't asked for is ignored.
    pub fn handle_incoming_unsuback(&mut self, unsuback: &UnsubAck) -> (reply: Reply)
        ensures
            final(self)@ == old(self)@.after_unsuback(*unsuback),
            reply == Ok::<Option<Packet>, StateError>(None),
            final(self).clocks() == old(self).clocks(),
    {
        if let Some(pos) = position_of_id(&self.outgoing_unsub, unsuback.pkid) {
            if let Some((_, tx)) = swap_remove_back(&mut self.outgoing_unsub, pos) {
                self.notices.push_back((tx, NoticeResult::Success));
            }
        }
        Ok(None)
    }

    /// Results in a publish notification in all the QoS cases. Replies with an ack in case of
    /// QoS 1, and with a receipt in case of QoS 2 while also storing the packet id, unless the
    /// user sends the acks.
    pub fn handle_incoming_publish(&mut self, publish: &Publish) -> (reply: Reply)
        requires
            old(self)@.accepts_incoming(Packet::Publish(*publish)),
        ensures
            final(self)@ == old(self)@.after_incoming_publish(*publish),
            reply == old(self)@.incoming_publish_reply(*publish),
            final(self).clocks() == old(self).clocks(),
    {
        match publish.qos {
            QoS::AtMostOnce => Ok(None),
            QoS::AtLeastOnce => {
                if !self.manual_acks {
                    return self.outgoing_puback(PubAck::new(publish.pkid));
                }
                Ok(None)
            },
            QoS::ExactlyOnce => {
                let pkid = publish.pkid;
                self.incoming_pub.set(pkid as usize, Some(pkid));
                if !self.manual_acks {
                    return self.outgoing_pubrec(PubRec::new(pkid));
                }
                Ok(None)
            },
        }
    }

    /// Whether `handle_outgoing_packet` can take the request.
    pub fn accepts_request(&self, request: &Request) -> (accepts: bool)
        ensures
            accepts == self@.accepts_request(*request),
    {
        match request {
            Request::Publish(publish) => self.publish_fits(publish),
            Request::PubRel(pubrel) => pubrel.pkid != 0 || self.last_pkid < u16::MAX,
            Request::Subscribe(subscribe) => subscribe.filters.len() == 0 || self.last_pkid
                < u16::MAX,
            Request::Unsubscribe(_) => self.last_pkid < u16::MAX,
            Request::PingReq(_) => self.collision.is_none() || self.collision_ping_count
                < usize::MAX,
            Request::Disconnect(_) | Request::PubAck(_) | Request::PubRec(_) => true,
            _ => false,
        }
    }

    /// Whether the counters have room for the publish.
    fn publish_fits(&self, publish: &Publish) -> (fits: bool)
        ensures
            fits == self@.publish_fits(*publish),
    {
        if publish.qos == QoS::AtMostOnce {
            return true;
        }
        if publish.pkid == 0 && self.last_pkid == u16::MAX {
            return false;
        }
        let pkid = if publish.pkid == 0 {
            self.last_pkid + 1
        } else {
            publish.pkid
        };
        let collision = if publish.qos == QoS::AtLeastOnce {
            position_of_publish(&self.outgoing_pub1, pkid)
        } else {
            position_of_publish(&self.outgoing_pub2, pkid)
        };
        collision.is_some() || self.inflight < u16::MAX
    }

    /// Consolidates handling of all outgoing mqtt packet logic. Returns a packet which should
    /// be put on to the network. Unless the request is refused, a reading of the clock is kept.
    pub fn handle_outgoing_packet(&mut self, tx: NoticeTx, request: Request) -> (reply: Reply)
        requires
            old(self)@.accepts_request(request),
        ensures
            final(self)@ == old(self)@.after_request(tx, request),
            same_reply(reply, old(self)@.request_reply(request)),
            final(self).last_incoming == old(self).last_incoming,
            reply is Ok ==> call_ensures(Instant::now, (), final(self).last_outgoing),
            reply is Err ==> final(self).last_outgoing == old(self).last_outgoing,
    {
        self.handle_outgoing_packet_at(tx, request, Instant::now())
    }

    /// Handles a request that is made at this time. The time is kept unless the request is
    /// refused.
    pub fn handle_outgoing_packet_at(
        &mut self,
        tx: NoticeTx,
        request: Request,
        now: Instant,
    ) -> (reply: Reply)
        requires
            old(self)@.accepts_request(request),
        ensures
            final(self)@ == old(self)@.after_request(tx, request),
            same_reply(reply, old(self)@.request_reply(request)),
            final(self).last_incoming == old(self).last_incoming,
            final(self).last_outgoing == (if reply is Ok {
                now
            } else {
                old(self).last_outgoing
            }),
    {
        let reply = match request {
            Request::Publish(publish) => self.outgoing_publish(publish, tx),
            Request::PubRel(pubrel) => self.outgoing_pubrel(pubrel, tx),
            Request::Subscribe(subscribe) => self.outgoing_subscribe(subscribe, tx),
            Request::Unsubscribe(unsubscribe) => self.outgoing_unsubscribe(unsubscribe, tx),
            request => {
                let reply = match request {
                    Request::PingReq(_) => self.outgoing_ping(),
                    Request::Disconnect(_) => self.outgoing_disconnect(),
                    Request::PubAck(puback) => self.outgoing_puback(puback),
                    Request::PubRec(pubrec) => self.outgoing_pubrec(pubrec),
                    _ => vstd::pervasive::unreached(),
                };
                self.notices.push_back((tx, NoticeResult::Dropped));
                reply
            },
        };
        if reply.is_ok() {
            self.last_outgoing = now;
        }
        reply
    }

    /// Whether `handle_incoming_packet` can take the packet.
    pub fn accepts_incoming(&self, packet: &Incoming) -> (accepts: bool)
        ensures
            accepts == self@.accepts_incoming(*packet),
    {
        match packet {
            Packet::Publish(publish) => publish.qos != QoS::ExactlyOnce || (publish.pkid as usize)
                < self.incoming_pub.len(),
            Packet::PubAck(puback) => puback.pkid > self.max_inflight || self.outgoing_pub1.len()
                == 0 || self.outgoing_pub1[0].0.pkid != puback.pkid || self.inflight > 0,
            Packet::PubComp(pubcomp) => pubcomp.pkid > self.max_inflight
                || self.outgoing_rel.len() == 0 || self.outgoing_rel[0].0 != pubcomp.pkid
                || self.inflight > 0,
            _ => true,
        }
    }

    /// Consolidates handling of all incoming mqtt packets. A packet that is not refused
    /// becomes an event for the user to consume. Returns a packet which should be put on to
    /// the network. E.g. for an incoming QoS 1 publish the publish is forwarded to the user
    /// and an ack is written to the network. Unless the packet is refused, a reading of the
    /// clock is kept.
    pub fn handle_incoming_packet(&mut self, packet: Incoming) -> (reply: Reply)
        requires
            old(self)@.accepts_incoming(packet),
        ensures
            final(self)@ == old(self)@.after_incoming(packet),
            same_reply(reply, old(self)@.incoming_reply(packet)),
            final(self).last_outgoing == old(self).last_outgoing,
            reply is Ok ==> call_ensures(Instant::now, (), final(self).last_incoming),
            reply is Err ==> final(self).last_incoming == old(self).last_incoming,
    {
        self.handle_incoming_packet_at(packet, Instant::now())
    }

    /// Handles a packet that comes in at this time. The time is kept unless the packet is
    /// refused.
    pub fn handle_incoming_packet_at(&mut self, packet: Incoming, now: Instant) -> (reply: Reply)
        requires
            old(self)@.accepts_incoming(packet),
        ensures
            final(self)@ == old(self)@.after_incoming(packet),
            same_reply(reply, old(self)@.incoming_reply(packet)),
            final(self).last_outgoing == old(self).last_outgoing,
            final(self).last_incoming == (if reply is Ok {
                now
            } else {
                old(self).last_incoming
            }),
    {
        let reply = match &packet {
            Packet::PingResp => self.handle_incoming_pingresp(),
            Packet::Publish(publish) => self.handle_incoming_publish(publish),
            Packet::SubAck(suback) => self.handle_incoming_suback(suback),
            Packet::UnsubAck(unsuback) => self.handle_incoming_unsuback(unsuback),
            Packet::PubAck(puback) => self.handle_incoming_puback(puback),
            Packet::PubRec(pubrec) => self.handle_incoming_pubrec(pubrec),
            Packet::PubRel(pubrel) => self.handle_incoming_pubrel(pubrel),
            Packet::PubComp(pubcomp) => self.handle_incoming_pubcomp(pubcomp),
            _ => Err(StateError::WrongPacket),
        };
        if reply.is_ok() {
            self.events.push_back(Event::Incoming(packet));
            self.last_incoming = now;
        }
        reply
    }
}

} // verus!
