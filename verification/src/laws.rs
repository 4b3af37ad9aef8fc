//! Laws of the session: those that span several steps or hold of every step, and, in `steps`,
//! those of each single step.

pub mod steps;

use crate::error::StateError;
use crate::event::{Event, Outgoing, Request};
use crate::model::{
    dropped_notices, publish_ids, publish_requests, queued_ids, release_requests, resend_order,
    resend_split, Session,
};
use crate::mqttbytes::{
    Packet, PubAck, PubComp, PubRec, PubRel, Publish, QoS, SubAck, Subscribe,
    SubscribeReasonCode, UnsubAck, Unsubscribe,
};
use crate::notice::{NoticeError, NoticeResult, NoticeTx};
use vstd::multiset::Multiset;
use vstd::prelude::*;

verus! {

// Invariants

/// Every step of a well-formed session leads to a well-formed session.
pub proof fn steps_keep_wf(session: Session, tx: NoticeTx, request: Request, packet: Packet)
    requires
        session.wf(),
    ensures
        session.accepts_request(request) ==> session.after_request(tx, request).wf(),
        session.after_incoming(packet).wf(),
        session.after_clean().wf(),
{
}

/// A session starts with every property that its steps keep.
pub proof fn initial_session_is_wf(max_inflight: u16, manual_acks: bool)
    ensures
        Session::initial(max_inflight, manual_acks).wf(),
        queues_match_qos(Session::initial(max_inflight, manual_acks)),
        counted(Session::initial(max_inflight, manual_acks)),
        distinct_ids(Session::initial(max_inflight, manual_acks)),
{
}

/// What is queued is of the queue's QoS and has a packet id, and so has the publish that was
/// set aside.
pub open spec fn queues_match_qos(session: Session) -> bool {
    &&& forall|i: int|
        0 <= i < session.outgoing_pub1.len() ==> (#[trigger] session.outgoing_pub1[i]).0.qos
            == QoS::AtLeastOnce && session.outgoing_pub1[i].0.pkid != 0
    &&& forall|i: int|
        0 <= i < session.outgoing_pub2.len() ==> (#[trigger] session.outgoing_pub2[i]).0.qos
            == QoS::ExactlyOnce && session.outgoing_pub2[i].0.pkid != 0
    &&& forall|i: int|
        0 <= i < session.outgoing_rel.len() ==> (#[trigger] session.outgoing_rel[i]).0 != 0
    &&& session.collision matches Some((publish, _)) ==> publish.qos != QoS::AtMostOnce
        && publish.pkid != 0
}

/// Every step keeps each publish in the queue of its QoS, with a packet id.
pub proof fn steps_keep_queues(session: Session, tx: NoticeTx, request: Request, packet: Packet)
    requires
        queues_match_qos(session),
    ensures
        session.accepts_request(request) ==> queues_match_qos(session.after_request(tx, request)),
        queues_match_qos(session.after_incoming(packet)),
        queues_match_qos(session.after_clean()),
{
}

/// No step changes the settings of the session.
pub proof fn steps_keep_settings(session: Session, tx: NoticeTx, request: Request, packet: Packet)
    ensures
        session.after_request(tx, request).max_inflight == session.max_inflight,
        session.after_request(tx, request).manual_acks == session.manual_acks,
        session.after_incoming(packet).max_inflight == session.max_inflight,
        session.after_incoming(packet).manual_acks == session.manual_acks,
        session.after_clean().max_inflight == session.max_inflight,
        session.after_clean().manual_acks == session.manual_acks,
{
}

// Packet ids

/// The session once `n` packet ids have been assigned.
pub open spec fn after_pkids(session: Session, n: nat) -> Session
    decreases n,
{
    if n == 0 {
        session
    } else {
        after_pkids(session, (n - 1) as nat).after_next_pkid()
    }
}

/// Packet ids are incremented till `max_inflight` and start over at 1 after that: the id
/// assigned after `n` others is one more than the sum of `n` and the last id, modulo
/// `max_inflight`. So it is never 0 and never above `max_inflight`.
pub proof fn pkids_cycle(session: Session, n: nat)
    requires
        session.last_pkid < session.max_inflight,
    ensures
        after_pkids(session, n).has_next_pkid(),
        after_pkids(session, n).next_pkid() == (session.last_pkid + n) % (
        session.max_inflight as int) + 1,
        1 <= after_pkids(session, n).next_pkid() <= session.max_inflight,
        after_pkids(session, n) == (Session {
            last_pkid: ((session.last_pkid + n) % (session.max_inflight as int)) as u16,
            ..session
        }),
    decreases n,
{
    let max = session.max_inflight as int;
    if n == 0 {
        vstd::arithmetic::div_mod::lemma_small_mod(
            session.last_pkid as nat,
            session.max_inflight as nat,
        );
    } else {
        pkids_cycle(session, (n - 1) as nat);
        let before = session.last_pkid + n - 1;
        assert((before + 1) % max == if before % max + 1 == max {
            0
        } else {
            before % max + 1
        }) by (nonlinear_arith)
            requires
                max > 0,
        ;
    }
    vstd::arithmetic::div_mod::lemma_mod_bound(session.last_pkid + n, max);
}

// Notices

/// The notices of a queue of packets.
pub open spec fn queued_notices<A>(queue: Seq<(A, NoticeTx)>) -> Multiset<NoticeTx> {
    queue.map_values(|entry: (A, NoticeTx)| entry.1).to_multiset()
}

/// The notices of a list of outcomes or requests.
pub open spec fn listed_notices<A>(list: Seq<(NoticeTx, A)>) -> Multiset<NoticeTx> {
    list.map_values(|entry: (NoticeTx, A)| entry.0).to_multiset()
}

/// The notices that a session holds, settled or not.
pub open spec fn held_notices(session: Session) -> Multiset<NoticeTx> {
    queued_notices(session.outgoing_pub1).add(queued_notices(session.outgoing_pub2)).add(
        queued_notices(session.outgoing_rel),
    ).add(queued_notices(session.outgoing_sub)).add(queued_notices(session.outgoing_unsub)).add(
        match session.collision {
            Some((_, tx)) => Multiset::singleton(tx),
            None => Multiset::empty(),
        },
    ).add(listed_notices(session.notices))
}

proof fn lemma_queued_push<A>(queue: Seq<(A, NoticeTx)>, entry: (A, NoticeTx))
    ensures
        queued_notices(queue.push(entry)) == queued_notices(queue).insert(entry.1),
{
    let f = |entry: (A, NoticeTx)| entry.1;
    assert(queue.push(entry).map_values(f) =~= queue.map_values(f).push(entry.1));
    vstd::seq_lib::to_multiset_build(queue.map_values(f), entry.1);
}

proof fn lemma_listed_push<A>(list: Seq<(NoticeTx, A)>, entry: (NoticeTx, A))
    ensures
        listed_notices(list.push(entry)) == listed_notices(list).insert(entry.0),
{
    let f = |entry: (NoticeTx, A)| entry.0;
    assert(list.push(entry).map_values(f) =~= list.map_values(f).push(entry.0));
    vstd::seq_lib::to_multiset_build(list.map_values(f), entry.0);
}

/// Taking out one entry takes out its notice, whether the queue closes up or the last entry
/// fills the gap.
proof fn lemma_queued_remove<A>(queue: Seq<(A, NoticeTx)>, i: int)
    requires
        0 <= i < queue.len(),
    ensures
        queued_notices(queue) == queued_notices(queue.remove(i)).insert(queue[i].1),
        queued_notices(queue) == queued_notices(
            queue.update(i, queue.last()).drop_last(),
        ).insert(queue[i].1),
        i == 0 ==> queue.remove(i) == queue.drop_first(),
{
    broadcast use vstd::multiset::group_multiset_axioms;

    let f = |entry: (A, NoticeTx)| entry.1;
    let txs = queue.map_values(f);
    assert(queue.remove(i).map_values(f) =~= txs.remove(i));
    vstd::seq_lib::to_multiset_remove(txs, i);
    vstd::seq_lib::to_multiset_contains(txs, txs[i]);
    assert(queued_notices(queue) =~= queued_notices(queue.remove(i)).insert(queue[i].1));

    let updated = txs.update(i, txs.last());
    assert(queue.update(i, queue.last()).drop_last().map_values(f) =~= updated.remove(
        txs.len() - 1,
    ));
    vstd::seq_lib::to_multiset_update(txs, i, txs.last());
    vstd::seq_lib::to_multiset_remove(updated, txs.len() - 1);
    assert(queued_notices(queue) =~= queued_notices(
        queue.update(i, queue.last()).drop_last(),
    ).insert(queue[i].1));
    if i == 0 {
        assert(queue.remove(i) =~= queue.drop_first());
    }
}

/// Settling a notice adds it to those that are held.
proof fn lemma_settle(session: Session, tx: NoticeTx, outcome: NoticeResult)
    ensures
        held_notices(session.settle(tx, outcome)) == held_notices(session).insert(tx),
{
    broadcast use vstd::multiset::group_multiset_axioms;

    lemma_listed_push(session.notices, (tx, outcome));
    assert(held_notices(session.settle(tx, outcome)) =~= held_notices(session).insert(tx));
}

/// No request loses a notice: all that were held, and the one that came with the request, are
/// then waiting for an ack or settled.
pub proof fn requests_keep_notices(session: Session, tx: NoticeTx, request: Request)
    requires
        session.accepts_request(request),
    ensures
        held_notices(session.after_request(tx, request)) == held_notices(session).insert(tx),
{
    broadcast use vstd::multiset::group_multiset_axioms;

    let after = session.after_request(tx, request);
    match request {
        Request::Publish(publish) => {
            let sent = session.numbered(publish);
            lemma_queued_push(session.outgoing_pub1, (sent, tx));
            lemma_queued_push(session.outgoing_pub2, (sent, tx));
            lemma_listed_push(session.notices, (tx, NoticeResult::Success));
            if let Some((_, dropped)) = session.collision {
                lemma_listed_push(session.notices, (dropped, NoticeResult::Dropped));
            }
        },
        Request::PubRel(pubrel) => {
            lemma_queued_push(
                session.outgoing_rel,
                (session.numbered_pubrel(pubrel).pkid, tx),
            );
        },
        Request::Subscribe(_) => {
            lemma_queued_push(session.outgoing_sub, (session.next_pkid(), tx));
        },
        Request::Unsubscribe(_) => {
            lemma_queued_push(session.outgoing_unsub, (session.next_pkid(), tx));
        },
        _ => {},
    }
    lemma_listed_push(session.notices, (tx, NoticeResult::Dropped));
    assert(held_notices(after) =~= held_notices(session).insert(tx));
}

/// Sending a publish that was set aside moves its notice.
proof fn lemma_ack_keeps_notices(session: Session, pkid: u16)
    ensures
        held_notices(session.after_ack_of(pkid)) == held_notices(session),
{
    broadcast use vstd::multiset::group_multiset_axioms;

    if session.awaits(pkid) {
        let (publish, tx) = session.collision->0;
        lemma_queued_push(session.outgoing_pub1, (publish, tx));
        lemma_queued_push(session.outgoing_pub2, (publish, tx));
        lemma_listed_push(session.notices, (tx, NoticeResult::Success));
        assert(held_notices(session.resend()) =~= held_notices(session));
    }
}

/// No packet loses a notice: all that were held are then waiting for an ack or settled.
pub proof fn packets_keep_notices(session: Session, packet: Packet)
    ensures
        held_notices(session.after_incoming(packet)) == held_notices(session),
{
    broadcast use vstd::multiset::group_multiset_axioms;

    let after = session.after_packet(packet);
    assert(held_notices(session.after_incoming(packet)) =~= held_notices(after));
    match packet {
        Packet::SubAck(suback) => {
            queued_ids(session.outgoing_sub).index_of_first_ensures(suback.pkid);
            if let Some(i) = session.acked_sub(suback) {
                lemma_queued_remove(session.outgoing_sub, i);
                let taken = Session { outgoing_sub: session.outgoing_sub.remove(i), ..session };
                lemma_settle(taken, session.outgoing_sub[i].1, after.notices.last().1);
                assert(after == taken.settle(
                    session.outgoing_sub[i].1,
                    after.notices.last().1,
                ));
                assert(held_notices(after) =~= held_notices(session));
            }
        },
        Packet::UnsubAck(unsuback) => {
            let queue = session.outgoing_unsub;
            queued_ids(queue).index_of_first_ensures(unsuback.pkid);
            if let Some(i) = queued_ids(queue).index_of_first(unsuback.pkid) {
                lemma_queued_remove(queue, i);
                let taken = Session {
                    outgoing_unsub: queue.update(i, queue.last()).drop_last(),
                    ..session
                };
                lemma_settle(taken, queue[i].1, NoticeResult::Success);
                assert(held_notices(after) =~= held_notices(session));
            }
        },
        Packet::PubAck(puback) => {
            if session.puback_due(puback) {
                let queue = session.outgoing_pub1;
                lemma_queued_remove(queue, 0);
                let taken = Session {
                    outgoing_pub1: queue.drop_first(),
                    last_puback: puback.pkid,
                    inflight: (session.inflight - 1) as nat,
                    ..session
                };
                lemma_settle(taken, queue[0].1, NoticeResult::Success);
                assert(held_notices(taken).insert(queue[0].1) =~= held_notices(session));
                lemma_ack_keeps_notices(
                    taken.settle(queue[0].1, NoticeResult::Success),
                    puback.pkid,
                );
            }
        },
        Packet::PubRec(pubrec) => {
            if session.pubrec_due(pubrec) {
                let queue = session.outgoing_pub2;
                lemma_queued_remove(queue, 0);
                lemma_queued_push(session.outgoing_rel, (pubrec.pkid, queue[0].1));
                assert(held_notices(after) =~= held_notices(session));
            }
        },
        Packet::PubComp(pubcomp) => {
            if session.pubcomp_due(pubcomp) {
                let queue = session.outgoing_rel;
                lemma_queued_remove(queue, 0);
                let taken = Session {
                    outgoing_rel: queue.drop_first(),
                    inflight: (session.inflight - 1) as nat,
                    ..session
                };
                lemma_settle(taken, queue[0].1, NoticeResult::Success);
                assert(held_notices(taken).insert(queue[0].1) =~= held_notices(session));
                lemma_ack_keeps_notices(
                    taken.settle(queue[0].1, NoticeResult::Success),
                    pubcomp.pkid,
                );
            }
        },
        _ => {
            assert(held_notices(after) =~= held_notices(session));
        },
    }
}

// Starting over

proof fn lemma_resend_order_is_permutation(queue: Seq<(Publish, NoticeTx)>, last_puback: u16)
    ensures
        publish_requests(resend_order(queue, last_puback)).to_multiset() == publish_requests(
            queue,
        ).to_multiset(),
{
    let split = resend_split(queue, last_puback);
    publish_ids(queue).index_of_first_ensures(last_puback);
    let first = publish_requests(queue.take(split));
    let second = publish_requests(queue.skip(split));
    assert(publish_requests(queue) =~= first + second);
    assert(publish_requests(resend_order(queue, last_puback)) =~= second + first);
    vstd::seq_lib::lemma_seq_union_to_multiset_commutative(first, second);
}

/// `clean` hands back each publish and each release that was in flight once, with its notice,
/// and nothing else.
pub proof fn clean_returns_what_is_in_flight(session: Session)
    ensures
        session.pending().to_multiset() == publish_requests(
            session.outgoing_pub1,
        ).to_multiset().add(publish_requests(session.outgoing_pub2).to_multiset()).add(
            release_requests(session.outgoing_rel).to_multiset(),
        ),
        session.pending().len() == session.outgoing_pub1.len() + session.outgoing_pub2.len()
            + session.outgoing_rel.len(),
{
    let one = publish_requests(resend_order(session.outgoing_pub1, session.last_puback));
    let two = publish_requests(resend_order(session.outgoing_pub2, session.last_puback));
    let releases = release_requests(session.outgoing_rel);
    lemma_resend_order_is_permutation(session.outgoing_pub1, session.last_puback);
    lemma_resend_order_is_permutation(session.outgoing_pub2, session.last_puback);
    vstd::seq_lib::lemma_multiset_commutative(one, two);
    vstd::seq_lib::lemma_multiset_commutative(one + two, releases);
    vstd::seq_lib::to_multiset_len(one);
    vstd::seq_lib::to_multiset_len(two);
    vstd::seq_lib::to_multiset_len(publish_requests(session.outgoing_pub1));
    vstd::seq_lib::to_multiset_len(publish_requests(session.outgoing_pub2));
}

/// After `clean` every queue is empty: cleaning again returns nothing and changes nothing.
pub proof fn clean_leaves_nothing(session: Session)
    ensures
        session.after_clean().outgoing_pub1.len() == 0,
        session.after_clean().outgoing_pub2.len() == 0,
        session.after_clean().outgoing_rel.len() == 0,
        session.after_clean().outgoing_sub.len() == 0,
        session.after_clean().outgoing_unsub.len() == 0,
        forall|pkid: u16| !session.after_clean().received(pkid),
        session.after_clean().pending() == Seq::<(NoticeTx, Request)>::empty(),
        session.after_clean().after_clean() == session.after_clean(),
{
    let cleaned = session.after_clean();
    publish_ids(cleaned.outgoing_pub1).index_of_first_ensures(cleaned.last_puback);
    assert(cleaned.pending() =~= Seq::empty());
    assert(cleaned.after_clean() =~= cleaned);
}

/// `clean` loses no notice: those of the requests that it hands back leave the session, those
/// of subscriptions and unsubscriptions are settled, all others stay.
pub proof fn clean_keeps_notices(session: Session)
    ensures
        held_notices(session) == held_notices(session.after_clean()).add(
            listed_notices(session.pending()),
        ),
{
    broadcast use vstd::multiset::group_multiset_axioms;

    let f = |entry: (NoticeTx, Request)| entry.0;
    let cleaned = session.after_clean();
    let one = resend_order(session.outgoing_pub1, session.last_puback);
    let two = resend_order(session.outgoing_pub2, session.last_puback);
    lemma_resent_notices(session.outgoing_pub1, session.last_puback);
    lemma_resent_notices(session.outgoing_pub2, session.last_puback);
    let txs1 = publish_requests(one).map_values(f);
    let txs2 = publish_requests(two).map_values(f);
    let txs3 = release_requests(session.outgoing_rel).map_values(f);
    assert(session.pending().map_values(f) =~= txs1 + txs2 + txs3);
    vstd::seq_lib::lemma_multiset_commutative(txs1, txs2);
    vstd::seq_lib::lemma_multiset_commutative(txs1 + txs2, txs3);
    assert(txs3 =~= session.outgoing_rel.map_values(|entry: (u16, NoticeTx)| entry.1));
    lemma_no_notices(cleaned.outgoing_pub1);
    lemma_no_notices(cleaned.outgoing_pub2);
    lemma_no_notices(cleaned.outgoing_rel);
    lemma_no_notices(cleaned.outgoing_sub);
    lemma_no_notices(cleaned.outgoing_unsub);
    let settled = session.notices + dropped_notices(session.outgoing_sub);
    lemma_dropped_notices(session.notices, session.outgoing_sub);
    lemma_dropped_notices(settled, session.outgoing_unsub);
    assert(held_notices(session) =~= held_notices(cleaned).add(
        listed_notices(session.pending()),
    ));
}

proof fn lemma_dropped_notices(
    list: Seq<(NoticeTx, NoticeResult)>,
    queue: Seq<(u16, NoticeTx)>,
)
    ensures
        listed_notices(list + dropped_notices(queue)) == listed_notices(list).add(
            queued_notices(queue),
        ),
{
    let f = |entry: (NoticeTx, NoticeResult)| entry.0;
    let txs = queue.map_values(|entry: (u16, NoticeTx)| entry.1);
    assert((list + dropped_notices(queue)).map_values(f) =~= list.map_values(f) + txs);
    vstd::seq_lib::lemma_multiset_commutative(list.map_values(f), txs);
}

proof fn lemma_no_notices<A>(queue: Seq<(A, NoticeTx)>)
    requires
        queue.len() == 0,
    ensures
        queued_notices(queue) == Multiset::<NoticeTx>::empty(),
{
    broadcast use vstd::multiset::group_multiset_axioms;

    let txs = queue.map_values(|entry: (A, NoticeTx)| entry.1);
    assert forall|tx: NoticeTx| txs.to_multiset().count(tx) == 0 by {
        vstd::seq_lib::to_multiset_contains(txs, tx);
    }
    assert(queued_notices(queue) =~= Multiset::empty());
}

proof fn lemma_resent_notices(queue: Seq<(Publish, NoticeTx)>, last_puback: u16)
    ensures
        listed_notices(publish_requests(resend_order(queue, last_puback))) == queued_notices(
            queue,
        ),
{
    let f = |entry: (NoticeTx, Request)| entry.0;
    let g = |entry: (Publish, NoticeTx)| entry.1;
    let split = resend_split(queue, last_puback);
    publish_ids(queue).index_of_first_ensures(last_puback);
    let first = queue.take(split).map_values(g);
    let second = queue.skip(split).map_values(g);
    assert(queue.map_values(g) =~= first + second);
    assert(publish_requests(resend_order(queue, last_puback)).map_values(f) =~= second + first);
    vstd::seq_lib::lemma_seq_union_to_multiset_commutative(first, second);
}

/// The session once the requests have been made, one after the other.
pub open spec fn after_requests(session: Session, requests: Seq<(NoticeTx, Request)>) -> Session
    decreases requests.len(),
{
    if requests.len() == 0 {
        session
    } else {
        after_requests(session, requests.drop_last()).after_request(
            requests.last().0,
            requests.last().1,
        )
    }
}

/// The session can handle the requests, one after the other.
pub open spec fn accepts_requests(session: Session, requests: Seq<(NoticeTx, Request)>) -> bool
    decreases requests.len(),
{
    requests.len() == 0 || {
        &&& accepts_requests(session, requests.drop_last())
        &&& after_requests(session, requests.drop_last()).accepts_request(requests.last().1)
    }
}

proof fn lemma_requests_concat(
    session: Session,
    first: Seq<(NoticeTx, Request)>,
    second: Seq<(NoticeTx, Request)>,
)
    ensures
        after_requests(session, first + second) == after_requests(
            after_requests(session, first),
            second,
        ),
        accepts_requests(session, first + second) == (accepts_requests(session, first)
            && accepts_requests(after_requests(session, first), second)),
    decreases second.len(),
{
    if second.len() == 0 {
        assert(first + second =~= first);
    } else {
        assert((first + second).drop_last() =~= first + second.drop_last());
        lemma_requests_concat(session, first, second.drop_last());
    }
}

/// The entries are publishes of this QoS, with packet ids, no two with the same.
pub open spec fn numbered_queue(queue: Seq<(Publish, NoticeTx)>, qos: QoS) -> bool {
    &&& forall|i: int|
        0 <= i < queue.len() ==> (#[trigger] queue[i]).0.qos == qos && queue[i].0.pkid != 0
    &&& publish_ids(queue).no_duplicates()
}

proof fn lemma_resend_order_is_numbered(
    queue: Seq<(Publish, NoticeTx)>,
    qos: QoS,
    last_puback: u16,
)
    requires
        numbered_queue(queue, qos),
    ensures
        numbered_queue(resend_order(queue, last_puback), qos),
        resend_order(queue, last_puback).len() == queue.len(),
{
    let split = resend_split(queue, last_puback);
    let order = resend_order(queue, last_puback);
    let ids = publish_ids(queue);
    let n = queue.len() as int;
    ids.index_of_first_ensures(last_puback);
    let from = |i: int| if i < n - split { i + split } else { i - (n - split) };
    assert(forall|i: int| 0 <= i < n ==> #[trigger] order[i] == queue[from(i)]);
    assert forall|i: int, j: int| 0 <= i < j < n implies publish_ids(order)[i] != publish_ids(
        order,
    )[j] by {
        assert(publish_ids(order)[i] == ids[from(i)]);
        assert(publish_ids(order)[j] == ids[from(j)]);
    }
}

proof fn lemma_requests_requeue(session: Session, queue: Seq<(Publish, NoticeTx)>, qos: QoS)
    requires
        qos != QoS::AtMostOnce,
        numbered_queue(queue, qos),
        session.unacked(qos).len() == 0,
        session.inflight + queue.len() <= u16::MAX,
    ensures
        ({
            let requests = publish_requests(queue);
            let after = after_requests(session, requests);
            &&& accepts_requests(session, requests)
            &&& after == (Session {
                outgoing_pub1: if qos == QoS::AtLeastOnce {
                    queue
                } else {
                    session.outgoing_pub1
                },
                outgoing_pub2: if qos == QoS::ExactlyOnce {
                    queue
                } else {
                    session.outgoing_pub2
                },
                inflight: session.inflight + queue.len(),
                events: after.events,
                ..session
            })
        }),
    decreases queue.len(),
{
    let requests = publish_requests(queue);
    let after = after_requests(session, requests);
    if queue.len() > 0 {
        let fewer = queue.drop_last();
        assert(publish_ids(fewer) =~= publish_ids(queue).drop_last());
        lemma_requests_requeue(session, fewer, qos);
        assert(requests.drop_last() =~= publish_requests(fewer));
        let before = after_requests(session, requests.drop_last());
        let last = queue.last();
        assert(last == queue[queue.len() - 1]);
        assert(!publish_ids(fewer).contains(last.0.pkid)) by {
            if publish_ids(fewer).contains(last.0.pkid) {
                let i = choose|i: int|
                    0 <= i < fewer.len() && publish_ids(fewer)[i] == last.0.pkid;
                assert(publish_ids(queue)[i] == publish_ids(queue)[queue.len() - 1]);
            }
        }
        assert(before.unacked(qos) == fewer);
        assert(fewer.push(last) =~= queue);
    } else {
        assert(queue =~= session.unacked(qos));
    }
}

proof fn lemma_requests_rerelease(session: Session, queue: Seq<(u16, NoticeTx)>)
    requires
        forall|i: int| 0 <= i < queue.len() ==> (#[trigger] queue[i]).0 != 0,
    ensures
        ({
            let requests = release_requests(queue);
            let after = after_requests(session, requests);
            &&& accepts_requests(session, requests)
            &&& after == (Session {
                outgoing_rel: session.outgoing_rel + queue,
                events: after.events,
                ..session
            })
        }),
    decreases queue.len(),
{
    let requests = release_requests(queue);
    let after = after_requests(session, requests);
    if queue.len() > 0 {
        let fewer = queue.drop_last();
        lemma_requests_rerelease(session, fewer);
        assert(requests.drop_last() =~= release_requests(fewer));
        assert(queue.last() == queue[queue.len() - 1]);
        assert(after.outgoing_rel =~= session.outgoing_rel + queue);
    } else {
        assert(session.outgoing_rel + queue =~= session.outgoing_rel);
    }
}

/// Making the requests again that `clean` handed back puts everything back in flight: the
/// publishes of each QoS in the order in which they were handed back, and the releases. No
/// packet id is assigned and no notice is settled. The count leaves out the releases.
pub proof fn clean_can_be_undone(session: Session)
    requires
        numbered_queue(session.outgoing_pub1, QoS::AtLeastOnce),
        numbered_queue(session.outgoing_pub2, QoS::ExactlyOnce),
        forall|i: int|
            0 <= i < session.outgoing_rel.len() ==> (#[trigger] session.outgoing_rel[i]).0 != 0,
        session.outgoing_pub1.len() + session.outgoing_pub2.len() <= u16::MAX,
    ensures
        accepts_requests(session.after_clean(), session.pending()),
        ({
            let resumed = after_requests(session.after_clean(), session.pending());
            resumed == (Session {
                outgoing_pub1: resend_order(session.outgoing_pub1, session.last_puback),
                outgoing_pub2: resend_order(session.outgoing_pub2, session.last_puback),
                outgoing_rel: session.outgoing_rel,
                inflight: session.outgoing_pub1.len() + session.outgoing_pub2.len(),
                events: resumed.events,
                ..session.after_clean()
            })
        }),
{
    let cleaned = session.after_clean();
    let one = resend_order(session.outgoing_pub1, session.last_puback);
    let two = resend_order(session.outgoing_pub2, session.last_puback);
    let releases = release_requests(session.outgoing_rel);
    lemma_resend_order_is_numbered(session.outgoing_pub1, QoS::AtLeastOnce, session.last_puback);
    lemma_resend_order_is_numbered(session.outgoing_pub2, QoS::ExactlyOnce, session.last_puback);
    lemma_requests_requeue(cleaned, one, QoS::AtLeastOnce);
    let resumed1 = after_requests(cleaned, publish_requests(one));
    lemma_requests_requeue(resumed1, two, QoS::ExactlyOnce);
    lemma_requests_concat(cleaned, publish_requests(one), publish_requests(two));
    let resumed2 = after_requests(cleaned, publish_requests(one) + publish_requests(two));
    lemma_requests_rerelease(resumed2, session.outgoing_rel);
    lemma_requests_concat(cleaned, publish_requests(one) + publish_requests(two), releases);
    assert(Seq::<(u16, NoticeTx)>::empty() + session.outgoing_rel =~= session.outgoing_rel);
}

// Counting

/// `inflight` is the number of publishes that are unacked, or released and not completed.
pub open spec fn counted(session: Session) -> bool {
    session.inflight == session.outgoing_pub1.len() + session.outgoing_pub2.len()
        + session.outgoing_rel.len()
}

/// Every request but a release keeps count of the publishes in flight. A release is not
/// counted, so one that the user sends breaks the count.
pub proof fn requests_keep_count(session: Session, tx: NoticeTx, request: Request)
    requires
        counted(session),
        session.accepts_request(request),
        request !is PubRel,
    ensures
        counted(session.after_request(tx, request)),
{
}

/// Every packet keeps count of the publishes in flight.
pub proof fn packets_keep_count(session: Session, packet: Packet)
    requires
        counted(session),
    ensures
        counted(session.after_incoming(packet)),
{
}

/// Where the count is right, the session can handle every packet: no ack takes the count
/// below 0.
pub proof fn counted_session_accepts_packets(session: Session, packet: Packet)
    requires
        session.wf(),
        counted(session),
    ensures
        session.accepts_incoming(packet),
{
}

/// `clean` leaves nothing to count.
pub proof fn clean_restores_count(session: Session)
    ensures
        counted(session.after_clean()),
{
}

/// No two unacked publishes of one QoS have the same packet id.
pub open spec fn distinct_ids(session: Session) -> bool {
    publish_ids(session.outgoing_pub1).no_duplicates() && publish_ids(
        session.outgoing_pub2,
    ).no_duplicates()
}

/// A publish whose packet id is in use is never sent: requests keep the ids of unacked
/// publishes distinct.
pub proof fn requests_keep_ids_distinct(session: Session, tx: NoticeTx, request: Request)
    requires
        distinct_ids(session),
        session.accepts_request(request),
    ensures
        distinct_ids(session.after_request(tx, request)),
{
    if let Request::Publish(publish) = request {
        let sent = session.numbered(publish);
        lemma_distinct_push(session.outgoing_pub1, (sent, tx));
        lemma_distinct_push(session.outgoing_pub2, (sent, tx));
    }
}

proof fn lemma_distinct_push(queue: Seq<(Publish, NoticeTx)>, entry: (Publish, NoticeTx))
    requires
        publish_ids(queue).no_duplicates(),
    ensures
        !publish_ids(queue).contains(entry.0.pkid) ==> publish_ids(
            queue.push(entry),
        ).no_duplicates(),
{
    let ids = publish_ids(queue);
    assert(publish_ids(queue.push(entry)) =~= ids.push(entry.0.pkid));
}

/// The packet sends a publish that was set aside while a publish in the queue that it joins
/// still has its id: the ack was that of a publish of the other QoS, or of a release whose id
/// has been used again.
pub open spec fn resends_into_use(session: Session, packet: Packet) -> bool {
    let publish = (session.collision->0).0;
    match packet {
        Packet::PubAck(puback) => {
            &&& session.puback_due(puback)
            &&& session.awaits(puback.pkid)
            &&& publish.qos == QoS::ExactlyOnce
            &&& publish_ids(session.outgoing_pub2).contains(puback.pkid)
        },
        Packet::PubComp(pubcomp) => {
            &&& session.pubcomp_due(pubcomp)
            &&& session.awaits(pubcomp.pkid)
            &&& publish_ids(session.unacked(publish.qos)).contains(pubcomp.pkid)
        },
        _ => false,
    }
}

/// Every other packet keeps the ids of unacked publishes distinct.
pub proof fn packets_keep_ids_distinct(session: Session, packet: Packet)
    requires
        distinct_ids(session),
        !resends_into_use(session, packet),
    ensures
        distinct_ids(session.after_incoming(packet)),
{
    let one = session.outgoing_pub1;
    let two = session.outgoing_pub2;
    if one.len() > 0 {
        assert(publish_ids(one.drop_first()) =~= publish_ids(one).drop_first());
    }
    if two.len() > 0 {
        assert(publish_ids(two.drop_first()) =~= publish_ids(two).drop_first());
    }
    if let Some(entry) = session.collision {
        lemma_distinct_push(one, entry);
        lemma_distinct_push(two, entry);
        if one.len() > 0 {
            lemma_distinct_push(one.drop_first(), entry);
            let ids = publish_ids(one);
            assert(ids[0] == one[0].0.pkid);
            assert forall|i: int| 0 <= i < one.len() - 1 implies publish_ids(
                one.drop_first(),
            )[i] != one[0].0.pkid by {
                assert(ids.drop_first()[i] == ids[i + 1]);
            }
        }
    }
}

// Outgoing exchanges

/// A QoS 0 publish is sent as it is and leaves nothing behind but its event and its notice,
/// which is settled at once.
pub proof fn qos0_publish_is_not_kept(session: Session, publish: Publish, tx: NoticeTx)
    requires
        publish.qos == QoS::AtMostOnce,
    ensures
        session.accepts_request(Request::Publish(publish)),
        session.request_reply(Request::Publish(publish)) == Ok::<Option<Packet>, StateError>(
            Some(Packet::Publish(publish)),
        ),
        session.after_request(tx, Request::Publish(publish)) == (Session {
            events: session.events.push(Event::Outgoing(Outgoing::Publish(publish.pkid))),
            notices: session.notices.push((tx, NoticeResult::Success)),
            ..session
        }),
{
}

/// A publish above QoS 0 that is sent carries a packet id other than 0, and is otherwise the
/// message that was asked for.
pub proof fn sent_publish_has_id(session: Session, publish: Publish)
    requires
        session.accepts_request(Request::Publish(publish)),
        publish.qos != QoS::AtMostOnce,
        !session.collides(publish),
    ensures
        session.request_reply(Request::Publish(publish)) matches Ok(Some(Packet::Publish(sent)))
            && sent.pkid != 0 && sent == (Publish { pkid: sent.pkid, ..publish }) && (publish.pkid
            != 0 ==> sent == publish),
{
}

/// The ack of a QoS 1 publish undoes it: where it is the only unacked one, its ack brings the
/// session back to where it was, but for the packet id that was used, and settles its notice
/// with success.
pub proof fn qos1_exchange(session: Session, publish: Publish, tx: NoticeTx)
    requires
        publish.qos == QoS::AtLeastOnce,
        session.accepts_request(Request::Publish(publish)),
        session.outgoing_pub1.len() == 0,
        session.numbered(publish).pkid <= session.max_inflight,
        !session.awaits(session.numbered(publish).pkid),
    ensures
        ({
            let pkid = session.numbered(publish).pkid;
            let ack = Packet::PubAck(PubAck { pkid });
            let sent = session.after_request(tx, Request::Publish(publish));
            let acked = sent.after_incoming(ack);
            &&& sent.outgoing_pub1 == seq![(session.numbered(publish), tx)]
            &&& sent.inflight == session.inflight + 1
            &&& sent.accepts_incoming(ack)
            &&& sent.incoming_reply(ack) == Ok::<Option<Packet>, StateError>(None)
            &&& acked == (Session {
                last_pkid: sent.last_pkid,
                last_puback: pkid,
                events: sent.events.push(Event::Incoming(ack)),
                notices: session.notices.push((tx, NoticeResult::Success)),
                ..session
            })
        }),
{
    let pkid = session.numbered(publish).pkid;
    let sent = session.after_request(tx, Request::Publish(publish));
    assert(sent.outgoing_pub1 =~= seq![(session.numbered(publish), tx)]);
    assert(sent.outgoing_pub1.drop_first() =~= session.outgoing_pub1);
}

/// A QoS 2 publish is received, released and completed: where it is the only one, that brings
/// the session back to where it was, but for the packet id that was used, and settles its
/// notice with success. It is in flight until it is completed.
pub proof fn qos2_exchange(session: Session, publish: Publish, tx: NoticeTx)
    requires
        publish.qos == QoS::ExactlyOnce,
        session.accepts_request(Request::Publish(publish)),
        session.outgoing_pub2.len() == 0,
        session.outgoing_rel.len() == 0,
        session.numbered(publish).pkid <= session.max_inflight,
        !session.awaits(session.numbered(publish).pkid),
    ensures
        ({
            let pkid = session.numbered(publish).pkid;
            let rec = Packet::PubRec(PubRec { pkid });
            let comp = Packet::PubComp(PubComp { pkid });
            let sent = session.after_request(tx, Request::Publish(publish));
            let released = sent.after_incoming(rec);
            let completed = released.after_incoming(comp);
            &&& sent.outgoing_pub2 == seq![(session.numbered(publish), tx)]
            &&& sent.inflight == session.inflight + 1
            &&& sent.incoming_reply(rec) == Ok::<Option<Packet>, StateError>(
                Some(Packet::PubRel(PubRel { pkid })),
            )
            &&& released.outgoing_pub2 == session.outgoing_pub2
            &&& released.outgoing_rel == seq![(pkid, tx)]
            &&& released.inflight == sent.inflight
            &&& released.accepts_incoming(comp)
            &&& released.incoming_reply(comp) == Ok::<Option<Packet>, StateError>(None)
            &&& completed == (Session {
                last_pkid: sent.last_pkid,
                events: released.events.push(Event::Incoming(comp)),
                notices: session.notices.push((tx, NoticeResult::Success)),
                ..session
            })
        }),
{
    let pkid = session.numbered(publish).pkid;
    let sent = session.after_request(tx, Request::Publish(publish));
    assert(sent.outgoing_pub2 =~= seq![(session.numbered(publish), tx)]);
    assert(sent.outgoing_pub2.drop_first() =~= session.outgoing_pub2);
    let released = sent.after_incoming(Packet::PubRec(PubRec { pkid }));
    assert(released.outgoing_rel =~= seq![(pkid, tx)]);
    assert(released.outgoing_rel.drop_first() =~= session.outgoing_rel);
}

/// The session once the packets have come in, one after the other.
pub open spec fn after_packets(session: Session, packets: Seq<Packet>) -> Session
    decreases packets.len(),
{
    if packets.len() == 0 {
        session
    } else {
        after_packets(session, packets.drop_last()).after_incoming(packets.last())
    }
}

/// Acks that come in the order in which the QoS 1 publishes were sent settle these in that
/// order, each with success. The law holds of acks for which no publish has been set aside.
pub proof fn acks_settle_in_order(session: Session, n: nat)
    requires
        n <= session.outgoing_pub1.len(),
        n <= session.inflight,
        forall|i: int|
            0 <= i < n ==> (#[trigger] session.outgoing_pub1[i]).0.pkid <= session.max_inflight
                && !session.awaits(session.outgoing_pub1[i].0.pkid),
    ensures
        ({
            let packets = Seq::new(
                n,
                |i: int| Packet::PubAck(PubAck { pkid: session.outgoing_pub1[i].0.pkid }),
            );
            after_packets(session, packets) == (Session {
                outgoing_pub1: session.outgoing_pub1.skip(n as int),
                inflight: (session.inflight - n) as nat,
                last_puback: if n == 0 {
                    session.last_puback
                } else {
                    session.outgoing_pub1[n - 1].0.pkid
                },
                notices: session.notices + Seq::new(
                    n,
                    |i: int| (session.outgoing_pub1[i].1, NoticeResult::Success),
                ),
                events: session.events + packets.map_values(
                    |packet: Packet| Event::Incoming(packet),
                ),
                ..session
            })
        }),
    decreases n,
{
    let queue = session.outgoing_pub1;
    let packets = Seq::new(n, |i: int| Packet::PubAck(PubAck { pkid: queue[i].0.pkid }));
    let after = after_packets(session, packets);
    if n > 0 {
        let fewer = (n - 1) as nat;
        acks_settle_in_order(session, fewer);
        assert(packets.drop_last() =~= Seq::new(
            fewer,
            |i: int| Packet::PubAck(PubAck { pkid: queue[i].0.pkid }),
        ));
        let before = after_packets(session, packets.drop_last());
        assert(before.outgoing_pub1[0] == queue[n - 1]);
        assert(queue[n - 1].0.pkid <= session.max_inflight);
    }
    assert(after.outgoing_pub1 =~= queue.skip(n as int));
    assert(after.notices =~= session.notices + Seq::new(
        n,
        |i: int| (queue[i].1, NoticeResult::Success),
    ));
    assert(after.events =~= session.events + packets.map_values(
        |packet: Packet| Event::Incoming(packet),
    ));
}

/// Receipts that come in the order in which the QoS 2 publishes were sent release these in
/// that order. The publishes stay in flight, and their notices open.
pub proof fn receipts_release_in_order(session: Session, n: nat)
    requires
        n <= session.outgoing_pub2.len(),
        forall|i: int|
            0 <= i < n ==> (#[trigger] session.outgoing_pub2[i]).0.pkid <= session.max_inflight,
    ensures
        ({
            let packets = Seq::new(
                n,
                |i: int| Packet::PubRec(PubRec { pkid: session.outgoing_pub2[i].0.pkid }),
            );
            let after = after_packets(session, packets);
            &&& after == (Session {
                outgoing_pub2: session.outgoing_pub2.skip(n as int),
                outgoing_rel: session.outgoing_rel + Seq::new(
                    n,
                    |i: int| (session.outgoing_pub2[i].0.pkid, session.outgoing_pub2[i].1),
                ),
                events: after.events,
                ..session
            })
            &&& n < session.outgoing_pub2.len() && session.outgoing_pub2[n as int].0.pkid
                <= session.max_inflight ==> after.pubrec_reply(
                PubRec { pkid: session.outgoing_pub2[n as int].0.pkid },
            ) == Ok::<Option<Packet>, StateError>(
                Some(Packet::PubRel(PubRel { pkid: session.outgoing_pub2[n as int].0.pkid })),
            )
        }),
    decreases n,
{
    let queue = session.outgoing_pub2;
    let packets = Seq::new(n, |i: int| Packet::PubRec(PubRec { pkid: queue[i].0.pkid }));
    let after = after_packets(session, packets);
    if n > 0 {
        let fewer = (n - 1) as nat;
        receipts_release_in_order(session, fewer);
        assert(packets.drop_last() =~= Seq::new(
            fewer,
            |i: int| Packet::PubRec(PubRec { pkid: queue[i].0.pkid }),
        ));
        let before = after_packets(session, packets.drop_last());
        assert(before.outgoing_pub2[0] == queue[n - 1]);
        assert(queue[n - 1].0.pkid <= session.max_inflight);
    }
    assert(after.outgoing_pub2 =~= queue.skip(n as int));
    assert(after.outgoing_rel =~= session.outgoing_rel + Seq::new(
        n,
        |i: int| (queue[i].0.pkid, queue[i].1),
    ));
}

/// Completions that come in the order of the releases settle the publishes in that order,
/// each with success. The law holds of completions for which no publish has been set aside.
pub proof fn completions_settle_in_order(session: Session, n: nat)
    requires
        n <= session.outgoing_rel.len(),
        n <= session.inflight,
        forall|i: int|
            0 <= i < n ==> (#[trigger] session.outgoing_rel[i]).0 <= session.max_inflight
                && !session.awaits(session.outgoing_rel[i].0),
    ensures
        ({
            let packets = Seq::new(
                n,
                |i: int| Packet::PubComp(PubComp { pkid: session.outgoing_rel[i].0 }),
            );
            after_packets(session, packets) == (Session {
                outgoing_rel: session.outgoing_rel.skip(n as int),
                inflight: (session.inflight - n) as nat,
                notices: session.notices + Seq::new(
                    n,
                    |i: int| (session.outgoing_rel[i].1, NoticeResult::Success),
                ),
                events: session.events + packets.map_values(
                    |packet: Packet| Event::Incoming(packet),
                ),
                ..session
            })
        }),
    decreases n,
{
    let queue = session.outgoing_rel;
    let packets = Seq::new(n, |i: int| Packet::PubComp(PubComp { pkid: queue[i].0 }));
    let after = after_packets(session, packets);
    if n > 0 {
        let fewer = (n - 1) as nat;
        completions_settle_in_order(session, fewer);
        assert(packets.drop_last() =~= Seq::new(
            fewer,
            |i: int| Packet::PubComp(PubComp { pkid: queue[i].0 }),
        ));
        let before = after_packets(session, packets.drop_last());
        assert(before.outgoing_rel[0] == queue[n - 1]);
        assert(queue[n - 1].0 <= session.max_inflight);
    }
    assert(after.outgoing_rel =~= queue.skip(n as int));
    assert(after.notices =~= session.notices + Seq::new(
        n,
        |i: int| (queue[i].1, NoticeResult::Success),
    ));
    assert(after.events =~= session.events + packets.map_values(
        |packet: Packet| Event::Incoming(packet),
    ));
}

/// The ack of a subscription is told from those of others by its packet id. It settles the
/// subscription, with success if every filter was granted, and ends the wait for it.
pub proof fn subscribe_exchange(
    session: Session,
    subscribe: Subscribe,
    tx: NoticeTx,
    suback: SubAck,
)
    requires
        subscribe.filters@.len() > 0,
        session.accepts_request(Request::Subscribe(subscribe)),
        session.next_pkid() <= session.max_inflight,
        !queued_ids(session.outgoing_sub).contains(session.next_pkid()),
        suback.pkid == session.next_pkid(),
    ensures
        ({
            let ack = Packet::SubAck(suback);
            let sent = session.after_request(tx, Request::Subscribe(subscribe));
            let acked = sent.after_incoming(ack);
            let granted = !suback.return_codes@.contains(SubscribeReasonCode::Failure);
            &&& sent.incoming_reply(ack) is Ok <==> granted
            &&& acked.outgoing_sub == session.outgoing_sub
            &&& acked.notices == session.notices.push(
                (
                    tx,
                    if granted {
                        NoticeResult::Success
                    } else {
                        NoticeResult::Error(
                            NoticeError::V4Subscribe(SubscribeReasonCode::Failure),
                        )
                    },
                ),
            )
        }),
{
    let sent = session.after_request(tx, Request::Subscribe(subscribe));
    let entry = (session.next_pkid(), tx);
    lemma_new_id_is_last(session.outgoing_sub, entry);
    assert(session.outgoing_sub.push(entry).remove(session.outgoing_sub.len() as int)
        =~= session.outgoing_sub);
}

/// The ack of an unsubscription is told from those of others by its packet id, settles the
/// unsubscription with success and ends the wait for it.
pub proof fn unsubscribe_exchange(session: Session, unsubscribe: Unsubscribe, tx: NoticeTx)
    requires
        session.accepts_request(Request::Unsubscribe(unsubscribe)),
        !queued_ids(session.outgoing_unsub).contains(session.next_pkid()),
    ensures
        ({
            let ack = Packet::UnsubAck(UnsubAck { pkid: session.next_pkid() });
            let sent = session.after_request(tx, Request::Unsubscribe(unsubscribe));
            let acked = sent.after_incoming(ack);
            &&& acked.outgoing_unsub == session.outgoing_unsub
            &&& acked.notices == session.notices.push((tx, NoticeResult::Success))
        }),
{
    let entry = (session.next_pkid(), tx);
    let queue = session.outgoing_unsub.push(entry);
    lemma_new_id_is_last(session.outgoing_unsub, entry);
    assert(queue.update(queue.len() - 1, queue.last()).drop_last() =~= session.outgoing_unsub);
}

proof fn lemma_new_id_is_last(queue: Seq<(u16, NoticeTx)>, entry: (u16, NoticeTx))
    requires
        !queued_ids(queue).contains(entry.0),
    ensures
        queued_ids(queue.push(entry)).index_of_first(entry.0) == Some(queue.len() as int),
{
    let ids = queued_ids(queue.push(entry));
    ids.index_of_first_ensures(entry.0);
    assert(ids[queue.len() as int] == entry.0);
    assert forall|i: int| 0 <= i < queue.len() implies ids[i] != entry.0 by {
        assert(ids[i] == queued_ids(queue)[i]);
    }
}

// Collisions

/// A publish whose packet id is in use is not sent. It is set aside, and the ack of that id
/// sends it.
pub proof fn collision_waits_for_ack(session: Session, publish: Publish, tx: NoticeTx)
    requires
        session.accepts_request(Request::Publish(publish)),
        session.collides(publish),
    ensures
        ({
            let waiting = session.numbered(publish);
            let held = session.after_request(tx, Request::Publish(publish));
            let ack = PubAck { pkid: waiting.pkid };
            let comp = PubComp { pkid: waiting.pkid };
            &&& session.request_reply(Request::Publish(publish)) == Ok::<
                Option<Packet>,
                StateError,
            >(None)
            &&& held.collision == Some((waiting, tx))
            &&& held.inflight == session.inflight
            &&& held.events == session.events.push(
                Event::Outgoing(Outgoing::AwaitAck(waiting.pkid)),
            )
            &&& held.puback_due(ack) ==> held.incoming_reply(Packet::PubAck(ack)) == Ok::<
                Option<Packet>,
                StateError,
            >(Some(Packet::Publish(waiting)))
            &&& held.pubcomp_due(comp) ==> held.incoming_reply(Packet::PubComp(comp)) == Ok::<
                Option<Packet>,
                StateError,
            >(Some(Packet::Publish(waiting)))
        }),
{
}

/// The packet is the ack that a publish which was set aside waits for.
pub open spec fn resends(session: Session, packet: Packet) -> bool {
    match packet {
        Packet::PubAck(puback) => session.puback_due(puback) && session.awaits(puback.pkid),
        Packet::PubComp(pubcomp) => session.pubcomp_due(pubcomp) && session.awaits(pubcomp.pkid),
        _ => false,
    }
}

/// A publish that was set aside is, once sent, the newest of the unacked ones of its QoS, with
/// its notice. It takes the place of the acked one in the count, and the collision is over.
pub proof fn resent_publish_is_queued(session: Session, packet: Packet)
    requires
        resends(session, packet),
        session.accepts_incoming(packet),
        (session.collision->0).0.qos != QoS::AtMostOnce,
    ensures
        ({
            let after = session.after_incoming(packet);
            let queue = after.unacked((session.collision->0).0.qos);
            &&& queue.len() > 0
            &&& queue.last() == session.collision->0
            &&& after.inflight == session.inflight
            &&& after.collision is None
            &&& after.collision_ping_count == 0
        }),
{
}

// Pings

/// Only the answer to a ping, and starting over, end the wait for that answer; only a ping
/// begins it.
pub proof fn only_pingresp_ends_ping(
    session: Session,
    tx: NoticeTx,
    request: Request,
    packet: Packet,
)
    ensures
        session.await_pingresp ==> session.after_request(tx, request).await_pingresp,
        session.after_request(tx, request).await_pingresp ==> session.await_pingresp
            || request is PingReq,
        session.after_incoming(packet).await_pingresp == (session.await_pingresp
            && packet !is PingResp),
        !session.after_clean().await_pingresp,
{
}

/// While no collision is pending, a ping is sent exactly if the last one has been answered:
/// a second ping fails, and one after the answer succeeds.
pub proof fn ping_waits_for_answer(session: Session)
    requires
        session.collision is None,
        !session.await_pingresp,
    ensures
        session.ping_reply() == Ok::<Option<Packet>, StateError>(Some(Packet::PingReq)),
        session.after_ping().ping_reply() == Err::<Option<Packet>, StateError>(
            StateError::AwaitPingResp,
        ),
        session.after_ping().after_incoming(Packet::PingResp).ping_reply() == Ok::<
            Option<Packet>,
            StateError,
        >(Some(Packet::PingReq)),
{
}

/// A collision survives one ping. The second that is asked for fails, unless an ack has
/// resolved the collision in between.
pub proof fn collision_times_out(session: Session)
    requires
        session.collision is Some,
    ensures
        session.after_ping().ping_reply() == Err::<Option<Packet>, StateError>(
            StateError::CollisionTimeout,
        ),
        session.collision_ping_count == 0 ==> session.ping_reply() != Err::<
            Option<Packet>,
            StateError,
        >(StateError::CollisionTimeout),
{
}

// Incoming publishes

/// A QoS 2 publish that comes in is received, released and completed. Its packet id is
/// remembered from the first of these to the last; a second release is refused.
pub proof fn incoming_qos2_exchange(session: Session, publish: Publish)
    requires
        session.wf(),
        publish.qos == QoS::ExactlyOnce,
    ensures
        ({
            let pkid = publish.pkid;
            let rel = Packet::PubRel(PubRel { pkid });
            let received = session.after_incoming(Packet::Publish(publish));
            let completed = received.after_incoming(rel);
            &&& session.accepts_incoming(Packet::Publish(publish))
            &&& received.received(pkid)
            &&& received.incoming_reply(rel) == Ok::<Option<Packet>, StateError>(
                Some(Packet::PubComp(PubComp { pkid })),
            )
            &&& completed.incoming_pub == session.incoming_pub.update(pkid as int, None)
            &&& completed.incoming_reply(rel) == Err::<Option<Packet>, StateError>(
                StateError::Unsolicited(pkid),
            )
            &&& completed.after_incoming(rel) == completed
        }),
{
    let received = session.after_incoming(Packet::Publish(publish));
    let completed = received.after_incoming(Packet::PubRel(PubRel { pkid: publish.pkid }));
    assert(completed.incoming_pub =~= session.incoming_pub.update(publish.pkid as int, None));
}

/// A QoS 2 publish that comes in again before its release is remembered once.
pub proof fn repeated_qos2_publish_is_stored_once(session: Session, publish: Publish)
    requires
        session.wf(),
        publish.qos == QoS::ExactlyOnce,
    ensures
        session.after_incoming(Packet::Publish(publish)).after_incoming(
            Packet::Publish(publish),
        ).incoming_pub == session.after_incoming(Packet::Publish(publish)).incoming_pub,
{
    let once = session.after_incoming(Packet::Publish(publish));
    assert(once.after_incoming(Packet::Publish(publish)).incoming_pub =~= once.incoming_pub);
}

/// The ack that the user sends for a publish is the one that the session would have sent by
/// itself, and the two ways leave the same packet ids behind.
pub proof fn manual_ack_is_the_same(session: Session, publish: Publish)
    requires
        publish.qos != QoS::AtMostOnce,
    ensures
        ({
            let manual = Session { manual_acks: true, ..session };
            let auto = Session { manual_acks: false, ..session };
            let held = manual.after_incoming(Packet::Publish(publish));
            let ack = if publish.qos == QoS::AtLeastOnce {
                Request::PubAck(PubAck { pkid: publish.pkid })
            } else {
                Request::PubRec(PubRec { pkid: publish.pkid })
            };
            &&& manual.incoming_reply(Packet::Publish(publish)) == Ok::<
                Option<Packet>,
                StateError,
            >(None)
            &&& held.accepts_request(ack)
            &&& held.request_reply(ack) == auto.incoming_reply(Packet::Publish(publish))
            &&& held.incoming_pub == auto.after_incoming(Packet::Publish(publish)).incoming_pub
        }),
{
}

// Refusals and events

/// The packet id that an ack is checked against `max_inflight` with. An `UnsubAck` is not
/// checked.
pub open spec fn limited_id(packet: Packet) -> Option<u16> {
    match packet {
        Packet::PubAck(puback) => Some(puback.pkid),
        Packet::PubRec(pubrec) => Some(pubrec.pkid),
        Packet::PubComp(pubcomp) => Some(pubcomp.pkid),
        Packet::SubAck(suback) => Some(suback.pkid),
        _ => None,
    }
}

/// An ack whose packet id is above `max_inflight` is refused and changes nothing.
pub proof fn ack_above_limit_changes_nothing(session: Session, packet: Packet, pkid: u16)
    requires
        limited_id(packet) == Some(pkid),
        pkid > session.max_inflight,
    ensures
        session.accepts_incoming(packet),
        session.incoming_reply(packet) == Err::<Option<Packet>, StateError>(
            StateError::Unsolicited(pkid),
        ),
        session.after_incoming(packet) == session,
{
}

/// An ack that is not due is refused and changes nothing.
pub proof fn ack_not_due_changes_nothing(
    session: Session,
    puback: PubAck,
    pubrec: PubRec,
    pubcomp: PubComp,
)
    ensures
        !session.puback_due(puback) ==> session.after_incoming(Packet::PubAck(puback)) == session
            && session.incoming_reply(Packet::PubAck(puback)) == Err::<
            Option<Packet>,
            StateError,
        >(StateError::Unsolicited(puback.pkid)),
        !session.pubrec_due(pubrec) ==> session.after_incoming(Packet::PubRec(pubrec)) == session
            && session.incoming_reply(Packet::PubRec(pubrec)) == Err::<
            Option<Packet>,
            StateError,
        >(StateError::Unsolicited(pubrec.pkid)),
        !session.pubcomp_due(pubcomp) ==> session.after_incoming(Packet::PubComp(pubcomp))
            == session && session.incoming_reply(Packet::PubComp(pubcomp)) == Err::<
            Option<Packet>,
            StateError,
        >(StateError::Unsolicited(pubcomp.pkid)),
{
}

/// How the user is told of a packet that is sent.
pub open spec fn announcement(packet: Packet) -> Event {
    Event::Outgoing(
        match packet {
            Packet::Publish(publish) => Outgoing::Publish(publish.pkid),
            Packet::PubAck(puback) => Outgoing::PubAck(puback.pkid),
            Packet::PubRec(pubrec) => Outgoing::PubRec(pubrec.pkid),
            Packet::PubRel(pubrel) => Outgoing::PubRel(pubrel.pkid),
            Packet::PubComp(pubcomp) => Outgoing::PubComp(pubcomp.pkid),
            Packet::Subscribe(subscribe) => Outgoing::Subscribe(subscribe.pkid),
            Packet::Unsubscribe(unsubscribe) => Outgoing::Unsubscribe(unsubscribe.pkid),
            Packet::PingReq => Outgoing::PingReq,
            Packet::PingResp => Outgoing::PingResp,
            _ => Outgoing::Disconnect,
        },
    )
}

/// The user is told of every packet that a request sends, and of every publish that is set
/// aside, and of nothing else.
pub proof fn requests_are_announced(session: Session, tx: NoticeTx, request: Request)
    requires
        session.accepts_request(request),
    ensures
        session.after_request(tx, request).events == match session.request_reply(request) {
            Ok(Some(packet)) => session.events.push(announcement(packet)),
            Ok(None) => session.events.push(
                Event::Outgoing(
                    Outgoing::AwaitAck((session.after_request(tx, request).collision->0).0.pkid),
                ),
            ),
            Err(_) => session.events,
        },
{
}

/// The user is told of every packet that comes in and is not refused, after what is sent in
/// answer to it. Of a packet that is refused the user is told nothing.
pub proof fn packets_are_forwarded(session: Session, packet: Packet)
    ensures
        session.after_incoming(packet).events == match session.incoming_reply(packet) {
            Ok(Some(answer)) => session.events.push(announcement(answer)).push(
                Event::Incoming(packet),
            ),
            Ok(None) => session.events.push(Event::Incoming(packet)),
            Err(_) => session.events,
        },
{
}

} // verus!
