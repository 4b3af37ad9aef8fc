//! What each single step does, said of the fields of the session before and after it, of the
//! request or the packet, and of the answer.

use crate::error::StateError;
use crate::event::{Event, Outgoing, Request};
use crate::model::{
    publish_ids, queued_ids, resend_order, resend_split, same_reply, Reply, Session,
};
use crate::mqttbytes::{
    self, Packet, PubAck, PubComp, PubRec, PubRel, Publish, QoS, SubAck, Subscribe,
    SubscribeReasonCode, UnsubAck, Unsubscribe,
};
use crate::notice::{NoticeError, NoticeResult, NoticeTx};
use crate::state::MqttState;
use vstd::prelude::*;
use vstd::std_specs::convert::FromSpec;

verus! {

// What the contracts speak of

/// The view of a state shows each of its fields.
pub proof fn view_shows_every_field(state: MqttState)
    ensures
        state@.await_pingresp == state.await_pingresp,
        state@.collision_ping_count == state.collision_ping_count,
        state@.last_pkid == state.last_pkid,
        state@.last_puback == state.last_puback,
        state@.inflight == state.inflight,
        state@.max_inflight == state.max_inflight,
        state@.outgoing_pub1 == state.outgoing_pub1@,
        state@.outgoing_pub2 == state.outgoing_pub2@,
        state@.outgoing_rel == state.outgoing_rel@,
        state@.incoming_pub == state.incoming_pub@,
        state@.outgoing_sub == state.outgoing_sub@,
        state@.outgoing_unsub == state.outgoing_unsub@,
        state@.collision == state.collision,
        state@.events == state.events@,
        state@.notices == state.notices@,
        state@.manual_acks == state.manual_acks,
        state.clocks() == (state.last_incoming, state.last_outgoing),
{
}

/// Two publishes with the same view agree in every field, and those that agree have the same.
pub proof fn publish_view_shows_every_field(a: Publish, b: Publish)
    ensures
        a@ == b@ <==> {
            &&& a.dup == b.dup
            &&& a.qos == b.qos
            &&& a.retain == b.retain
            &&& a.topic@ == b.topic@
            &&& a.pkid == b.pkid
            &&& a.payload@ == b.payload@
        },
{
}

/// A reply that is the one expected succeeds or fails like it, with the same error, and sends
/// what it sends: the same packet, or a publish that says the same.
pub proof fn same_reply_is_faithful(reply: Reply, expected: Reply)
    requires
        same_reply(reply, expected),
    ensures
        reply is Ok <==> expected is Ok,
        reply is Err ==> reply->Err_0 == expected->Err_0,
        reply is Ok ==> (reply->Ok_0 is None <==> expected->Ok_0 is None),
        reply matches Ok(Some(packet)) ==> match packet {
            Packet::Publish(sent) => expected matches Ok(Some(Packet::Publish(publish)))
                && sent.dup == publish.dup && sent.qos == publish.qos && sent.retain
                == publish.retain && sent.topic@ == publish.topic@ && sent.pkid == publish.pkid
                && sent.payload@ == publish.payload@,
            _ => expected == Ok::<Option<Packet>, StateError>(Some(packet)),
        },
{
}

/// Every reply is the one expected where it is the same value.
pub proof fn equal_reply_is_same(reply: Reply)
    ensures
        same_reply(reply, reply),
{
}

/// An error of the network or of the codec becomes an error of the state that holds it.
pub proof fn converted_errors_are_kept(network: std::io::Error, codec: mqttbytes::Error)
    ensures
        <StateError as FromSpec<std::io::Error>>::obeys_from_spec(),
        <StateError as FromSpec<std::io::Error>>::from_spec(network) == StateError::Io(network),
        <StateError as FromSpec<mqttbytes::Error>>::obeys_from_spec(),
        <StateError as FromSpec<mqttbytes::Error>>::from_spec(codec)
            == StateError::Deserialization(codec),
{
}

/// Handling a request, or a packet before it is handed to the user, is the step of its kind.
pub proof fn dispatch_is_by_kind(
    session: Session,
    tx: NoticeTx,
    publish: Publish,
    puback: PubAck,
    pubrec: PubRec,
    pubrel: PubRel,
    pubcomp: PubComp,
    subscribe: Subscribe,
    suback: SubAck,
    unsubscribe: Unsubscribe,
    unsuback: UnsubAck,
)
    ensures
        session.after_request(tx, Request::Publish(publish)) == session.after_publish(publish, tx),
        session.request_reply(Request::Publish(publish)) == session.publish_reply(publish),
        session.accepts_request(Request::Publish(publish)) == session.publish_fits(publish),
        session.after_request(tx, Request::PubRel(pubrel)) == session.after_pubrel_request(
            pubrel,
            tx,
        ),
        session.request_reply(Request::PubRel(pubrel)) == Ok::<Option<Packet>, StateError>(
            Some(Packet::PubRel(session.numbered_pubrel(pubrel))),
        ),
        session.after_request(tx, Request::Subscribe(subscribe)) == session.after_subscribe(
            subscribe,
            tx,
        ),
        session.request_reply(Request::Subscribe(subscribe)) == session.subscribe_reply(subscribe),
        session.after_request(tx, Request::Unsubscribe(unsubscribe)) == session.after_unsubscribe(
            tx,
        ),
        session.request_reply(Request::Unsubscribe(unsubscribe)) == session.unsubscribe_reply(
            unsubscribe,
        ),
        session.after_packet(Packet::Publish(publish)) == session.after_incoming_publish(publish),
        session.incoming_reply(Packet::Publish(publish)) == session.incoming_publish_reply(
            publish,
        ),
        session.after_packet(Packet::PubAck(puback)) == session.after_puback(puback),
        session.incoming_reply(Packet::PubAck(puback)) == session.puback_reply(puback),
        session.after_packet(Packet::PubRec(pubrec)) == session.after_pubrec(pubrec),
        session.incoming_reply(Packet::PubRec(pubrec)) == session.pubrec_reply(pubrec),
        session.after_packet(Packet::PubRel(pubrel)) == session.after_pubrel(pubrel),
        session.incoming_reply(Packet::PubRel(pubrel)) == session.pubrel_reply(pubrel),
        session.after_packet(Packet::PubComp(pubcomp)) == session.after_pubcomp(pubcomp),
        session.incoming_reply(Packet::PubComp(pubcomp)) == session.pubcomp_reply(pubcomp),
        session.after_packet(Packet::SubAck(suback)) == session.after_suback(suback),
        session.incoming_reply(Packet::SubAck(suback)) == session.suback_reply(suback),
        session.after_packet(Packet::UnsubAck(unsuback)) == session.after_unsuback(unsuback),
{
}

/// A packet that is not refused is handed to the user after all else that it does; a packet
/// that is refused is not.
pub proof fn packet_is_handed_over_last(session: Session, packet: Packet)
    ensures
        session.after_incoming(packet) == (Session {
            events: if session.incoming_reply(packet) is Ok {
                session.after_packet(packet).events.push(Event::Incoming(packet))
            } else {
                session.after_packet(packet).events
            },
            ..session.after_packet(packet)
        }),
{
}

// Beginning

/// A new session has nothing in flight, nothing to tell, an empty slot for each of the 65536
/// packet ids, and the settings that were asked for.
pub proof fn new_session_is_empty(max_inflight: u16, manual_acks: bool)
    ensures
        ({
            let session = Session::initial(max_inflight, manual_acks);
            &&& session.max_inflight == max_inflight
            &&& session.manual_acks == manual_acks
            &&& session.last_pkid == 0
            &&& session.last_puback == 0
            &&& session.inflight == 0
            &&& !session.await_pingresp
            &&& session.collision_ping_count == 0
            &&& session.collision is None
            &&& session.outgoing_pub1.len() == 0
            &&& session.outgoing_pub2.len() == 0
            &&& session.outgoing_rel.len() == 0
            &&& session.outgoing_sub.len() == 0
            &&& session.outgoing_unsub.len() == 0
            &&& session.events.len() == 0
            &&& session.notices.len() == 0
            &&& session.incoming_pub.len() == 65536
            &&& forall|i: int| 0 <= i < 65536 ==> session.incoming_pub[i] is None
        }),
{
}

// What can be handled

/// A publish of this queue has the packet id.
pub open spec fn in_use(queue: Seq<(Publish, NoticeTx)>, pkid: int) -> bool {
    exists|i: int| 0 <= i < queue.len() && (#[trigger] queue[i]).0.pkid == pkid
}

proof fn lemma_in_use(queue: Seq<(Publish, NoticeTx)>, pkid: u16)
    ensures
        publish_ids(queue).contains(pkid) <==> in_use(queue, pkid as int),
{
    let ids = publish_ids(queue);
    if ids.contains(pkid) {
        let i = choose|i: int| 0 <= i < ids.len() && ids[i] == pkid;
        assert(queue[i].0.pkid == pkid);
    }
    if in_use(queue, pkid as int) {
        let i = choose|i: int| 0 <= i < queue.len() && (#[trigger] queue[i]).0.pkid == pkid;
        assert(ids[i] == pkid);
    }
}

/// The packet id of a publish above QoS 0: its own, or the one after the last where it has none.
pub open spec fn id_of(session: Session, publish: Publish) -> int {
    if publish.pkid != 0 {
        publish.pkid as int
    } else {
        session.last_pkid + 1
    }
}

/// The queue that a publish above QoS 0 joins.
pub open spec fn queue_of(session: Session, publish: Publish) -> Seq<(Publish, NoticeTx)> {
    if publish.qos == QoS::AtLeastOnce {
        session.outgoing_pub1
    } else {
        session.outgoing_pub2
    }
}

/// Which requests can be handled: those that a client makes, while no counter overflows.
pub proof fn accepted_requests(session: Session, request: Request)
    ensures
        session.accepts_request(request) <==> match request {
            Request::Publish(publish) => {
                ||| publish.qos == QoS::AtMostOnce
                ||| {
                    &&& publish.pkid != 0 || session.last_pkid < 65535
                    &&& session.inflight < 65535 || in_use(
                        queue_of(session, publish),
                        id_of(session, publish),
                    )
                }
            },
            Request::PubRel(pubrel) => pubrel.pkid != 0 || session.last_pkid < 65535,
            Request::Subscribe(subscribe) => subscribe.filters@.len() == 0 || session.last_pkid
                < 65535,
            Request::Unsubscribe(_) => session.last_pkid < 65535,
            Request::PingReq(_) => if session.collision is Some {
                session.collision_ping_count < usize::MAX
            } else {
                session.collision_ping_count <= usize::MAX
            },
            Request::PubAck(_) | Request::PubRec(_) | Request::Disconnect(_) => true,
            Request::PubComp(_) | Request::PingResp(_) | Request::SubAck(_)
            | Request::UnsubAck(_) => false,
        },
        session.has_next_pkid() <==> session.last_pkid < 65535,
        session.collision_pings() == (if session.collision is Some {
            session.collision_ping_count + 1
        } else {
            session.collision_ping_count
        }),
{
    if let Request::Publish(publish) = request {
        if publish.pkid != 0 || session.last_pkid < 65535 {
            lemma_in_use(session.outgoing_pub1, id_of(session, publish) as u16);
            lemma_in_use(session.outgoing_pub2, id_of(session, publish) as u16);
        }
    }
}

/// Which packets can be handled: all, but for a QoS 2 publish without a slot, and for an ack
/// that would take the count below 0.
pub proof fn accepted_packets(session: Session, packet: Packet)
    ensures
        session.accepts_incoming(packet) <==> match packet {
            Packet::Publish(publish) => publish.qos != QoS::ExactlyOnce || publish.pkid
                < session.incoming_pub.len(),
            Packet::PubAck(puback) => {
                ||| session.inflight > 0
                ||| puback.pkid > session.max_inflight
                ||| session.outgoing_pub1.len() == 0
                ||| session.outgoing_pub1[0].0.pkid != puback.pkid
            },
            Packet::PubComp(pubcomp) => {
                ||| session.inflight > 0
                ||| pubcomp.pkid > session.max_inflight
                ||| session.outgoing_rel.len() == 0
                ||| session.outgoing_rel[0].0 != pubcomp.pkid
            },
            _ => true,
        },
{
}

// Packet ids

/// The counter goes up by one, and to 0 in place of the limit. Nothing else changes.
pub proof fn next_id_is_one_more(session: Session)
    requires
        session.last_pkid < 65535,
    ensures
        session.next_pkid() == session.last_pkid + 1,
        session.after_next_pkid() == (Session {
            last_pkid: if session.last_pkid + 1 == session.max_inflight {
                0
            } else {
                (session.last_pkid + 1) as u16
            },
            ..session
        }),
{
}

/// The counter once an id has been taken.
pub open spec fn counter_after(session: Session) -> int {
    if session.last_pkid + 1 == session.max_inflight {
        0
    } else {
        session.last_pkid + 1
    }
}

/// One step of a session.
pub enum Step {
    Request(NoticeTx, Request),
    Packet(Packet),
    Clean,
}

/// The session after one step.
pub open spec fn after_step(session: Session, step: Step) -> Session {
    match step {
        Step::Request(tx, request) => session.after_request(tx, request),
        Step::Packet(packet) => session.after_incoming(packet),
        Step::Clean => session.after_clean(),
    }
}

/// The session after a run of steps.
pub open spec fn after_run(session: Session, run: Seq<Step>) -> Session
    decreases run.len(),
{
    if run.len() == 0 {
        session
    } else {
        after_step(after_run(session, run.drop_last()), run.last())
    }
}

/// The request needs a packet id and comes without one.
pub open spec fn needs_id(request: Request) -> bool {
    match request {
        Request::Publish(publish) => publish.qos != QoS::AtMostOnce && publish.pkid == 0,
        Request::PubRel(pubrel) => pubrel.pkid == 0,
        Request::Subscribe(subscribe) => subscribe.filters@.len() > 0,
        Request::Unsubscribe(_) => true,
        _ => false,
    }
}

/// How many requests of the run need a packet id.
pub open spec fn ids_needed(run: Seq<Step>) -> nat
    decreases run.len(),
{
    if run.len() == 0 {
        0
    } else {
        ids_needed(run.drop_last()) + if run.last() matches Step::Request(_, request)
            && needs_id(request) {
            1nat
        } else {
            0nat
        }
    }
}

/// The packet id that a request is given: that of the packet it is answered with, or of the
/// publish that is set aside.
pub open spec fn id_given(session: Session, tx: NoticeTx, request: Request) -> Option<u16> {
    match session.request_reply(request) {
        Ok(Some(Packet::Publish(publish))) => Some(publish.pkid),
        Ok(Some(Packet::PubRel(pubrel))) => Some(pubrel.pkid),
        Ok(Some(Packet::Subscribe(subscribe))) => Some(subscribe.pkid),
        Ok(Some(Packet::Unsubscribe(unsubscribe))) => Some(unsubscribe.pkid),
        Ok(None) => Some((session.after_request(tx, request).collision->0).0.pkid),
        _ => None,
    }
}

/// Ids are given out in turn, whatever happens in between: after any run of requests, acks and
/// other packets, the next request that needs an id gets the one that follows those given
/// before, counting from 1 to `max_inflight` and around.
pub proof fn ids_are_given_in_turn(session: Session, run: Seq<Step>, tx: NoticeTx, next: Request)
    requires
        session.last_pkid < session.max_inflight,
        needs_id(next),
    ensures
        after_run(session, run).last_pkid == (session.last_pkid + ids_needed(run)) % (
        session.max_inflight as int),
        after_run(session, run).max_inflight == session.max_inflight,
        id_given(after_run(session, run), tx, next) matches Some(id) && id == (session.last_pkid
            + ids_needed(run)) % (session.max_inflight as int) + 1,
    decreases run.len(),
{
    let max = session.max_inflight as int;
    let count = ids_needed(run) as int;
    if run.len() == 0 {
        vstd::arithmetic::div_mod::lemma_small_mod(
            session.last_pkid as nat,
            session.max_inflight as nat,
        );
    } else {
        ids_are_given_in_turn(session, run.drop_last(), tx, next);
        let sum = session.last_pkid + ids_needed(run.drop_last());
        assert((sum + 1) % max == if sum % max + 1 == max {
            0
        } else {
            sum % max + 1
        }) by (nonlinear_arith)
            requires
                max > 0,
        ;
        vstd::arithmetic::div_mod::lemma_mod_bound(sum, max);
    }
    vstd::arithmetic::div_mod::lemma_mod_bound(session.last_pkid + count, max);
}

// Requests

/// A QoS 0 publish is sent as it is, whatever its packet id. It is in no queue and not counted,
/// and its sender is told of success at once.
pub proof fn qos0_publish_step(session: Session, publish: Publish, tx: NoticeTx)
    requires
        publish.qos == QoS::AtMostOnce,
    ensures
        session.request_reply(Request::Publish(publish)) == Ok::<Option<Packet>, StateError>(
            Some(Packet::Publish(publish)),
        ),
        session.after_request(tx, Request::Publish(publish)) == (Session {
            events: session.events.push(Event::Outgoing(Outgoing::Publish(publish.pkid))),
            notices: session.notices.push((tx, NoticeResult::Success)),
            ..session
        }),
{
}

/// A publish above QoS 0 that comes without a packet id is given the one after the last, on the
/// packet that is sent or, where it is set aside, on the publish that waits. All else of it is
/// what was asked for, and the id counts as the last.
pub proof fn unnumbered_publish_gets_next_id(session: Session, publish: Publish, tx: NoticeTx)
    requires
        publish.qos != QoS::AtMostOnce,
        publish.pkid == 0,
        session.last_pkid < session.max_inflight,
    ensures
        ({
            let after = session.after_request(tx, Request::Publish(publish));
            let given = match session.request_reply(Request::Publish(publish)) {
                Ok(Some(Packet::Publish(sent))) => Some(sent),
                Ok(None) => match after.collision {
                    Some((aside, _)) => Some(aside),
                    None => None,
                },
                _ => None,
            };
            &&& given matches Some(numbered) && numbered.pkid == session.last_pkid + 1
                && numbered.dup == publish.dup && numbered.qos == publish.qos && numbered.retain
                == publish.retain && numbered.topic == publish.topic && numbered.payload
                == publish.payload
            &&& after.last_pkid == (session.last_pkid + 1) % (session.max_inflight as int)
        }),
{
    let max = session.max_inflight as int;
    if session.last_pkid + 1 < max {
        vstd::arithmetic::div_mod::lemma_small_mod((session.last_pkid + 1) as nat, max as nat);
    } else {
        vstd::arithmetic::div_mod::lemma_mod_self_0(max);
    }
}

/// A publish above QoS 0 whose packet id no unacked publish of its QoS has is sent. One that
/// came without an id has the one after the last, and the counter moves; one that came with an
/// id keeps it, and the counter stays. It waits for its ack behind the others of its QoS, with
/// its notice, and is counted.
pub proof fn free_publish_step(session: Session, publish: Publish, tx: NoticeTx)
    requires
        publish.qos != QoS::AtMostOnce,
        publish.pkid != 0 || session.last_pkid < 65535,
        !in_use(queue_of(session, publish), id_of(session, publish)),
    ensures
        ({
            let sent = Publish { pkid: id_of(session, publish) as u16, ..publish };
            &&& session.request_reply(Request::Publish(publish)) == Ok::<
                Option<Packet>,
                StateError,
            >(Some(Packet::Publish(sent)))
            &&& session.after_request(tx, Request::Publish(publish)) == (Session {
                last_pkid: if publish.pkid != 0 {
                    session.last_pkid
                } else {
                    counter_after(session) as u16
                },
                outgoing_pub1: if publish.qos == QoS::AtLeastOnce {
                    session.outgoing_pub1.push((sent, tx))
                } else {
                    session.outgoing_pub1
                },
                outgoing_pub2: if publish.qos == QoS::ExactlyOnce {
                    session.outgoing_pub2.push((sent, tx))
                } else {
                    session.outgoing_pub2
                },
                inflight: session.inflight + 1,
                events: session.events.push(Event::Outgoing(Outgoing::Publish(sent.pkid))),
                ..session
            })
        }),
{
    lemma_in_use(queue_of(session, publish), id_of(session, publish) as u16);
}

/// A publish above QoS 0 whose packet id an unacked publish of its QoS has is not sent, queued
/// or counted. It is set aside with its id and its notice, and the user is told which ack it
/// waits for. The notice of one that was set aside before is dropped.
pub proof fn colliding_publish_step(session: Session, publish: Publish, tx: NoticeTx)
    requires
        publish.qos != QoS::AtMostOnce,
        publish.pkid != 0 || session.last_pkid < 65535,
        in_use(queue_of(session, publish), id_of(session, publish)),
    ensures
        ({
            let aside = Publish { pkid: id_of(session, publish) as u16, ..publish };
            &&& session.request_reply(Request::Publish(publish)) == Ok::<
                Option<Packet>,
                StateError,
            >(None)
            &&& session.after_request(tx, Request::Publish(publish)) == (Session {
                last_pkid: if publish.pkid != 0 {
                    session.last_pkid
                } else {
                    counter_after(session) as u16
                },
                collision: Some((aside, tx)),
                notices: match session.collision {
                    Some((_, dropped)) => session.notices.push((dropped, NoticeResult::Dropped)),
                    None => session.notices,
                },
                events: session.events.push(Event::Outgoing(Outgoing::AwaitAck(aside.pkid))),
                ..session
            })
        }),
{
    lemma_in_use(queue_of(session, publish), id_of(session, publish) as u16);
}

/// A release is sent with its packet id, or with the one after the last where it has none, and
/// waits for its completion behind the others. It is not counted.
pub proof fn release_step(session: Session, pubrel: PubRel, tx: NoticeTx)
    requires
        pubrel.pkid != 0 || session.last_pkid < 65535,
    ensures
        ({
            let pkid = if pubrel.pkid != 0 {
                pubrel.pkid
            } else {
                (session.last_pkid + 1) as u16
            };
            let saved = Session {
                last_pkid: if pubrel.pkid != 0 {
                    session.last_pkid
                } else {
                    counter_after(session) as u16
                },
                outgoing_rel: session.outgoing_rel.push((pkid, tx)),
                ..session
            };
            &&& session.numbered_pubrel(pubrel).pkid == pkid
            &&& session.after_save_pubrel(pubrel, tx) == saved
            &&& session.request_reply(Request::PubRel(pubrel)) == Ok::<
                Option<Packet>,
                StateError,
            >(Some(Packet::PubRel(PubRel { pkid })))
            &&& session.after_request(tx, Request::PubRel(pubrel)) == (Session {
                events: session.events.push(Event::Outgoing(Outgoing::PubRel(pkid))),
                ..saved
            })
        }),
{
}

/// A subscription that names no filter is refused and its notice dropped. Nothing else changes.
pub proof fn empty_subscription_step(session: Session, subscribe: Subscribe, tx: NoticeTx)
    requires
        subscribe.filters@.len() == 0,
    ensures
        session.request_reply(Request::Subscribe(subscribe)) == Err::<Option<Packet>, StateError>(
            StateError::EmptySubscription,
        ),
        session.after_request(tx, Request::Subscribe(subscribe)) == (Session {
            notices: session.notices.push((tx, NoticeResult::Dropped)),
            ..session
        }),
{
}

/// A subscription is sent with the filters asked for and the packet id after the last, whatever
/// id it came with, and that id waits for the ack behind the others, with the notice.
pub proof fn subscription_step(session: Session, subscribe: Subscribe, tx: NoticeTx)
    requires
        subscribe.filters@.len() > 0,
        session.last_pkid < 65535,
    ensures
        ({
            let pkid = (session.last_pkid + 1) as u16;
            &&& session.request_reply(Request::Subscribe(subscribe)) matches Ok(
                Some(Packet::Subscribe(sent)),
            ) && sent.pkid == session.last_pkid + 1 && sent.pkid != 0 && sent.filters
                == subscribe.filters
            &&& session.after_request(tx, Request::Subscribe(subscribe)) == (Session {
                last_pkid: counter_after(session) as u16,
                outgoing_sub: session.outgoing_sub.push((pkid, tx)),
                events: session.events.push(Event::Outgoing(Outgoing::Subscribe(pkid))),
                ..session
            })
        }),
{
}

/// An unsubscription is sent with the topics asked for and the packet id after the last,
/// whatever id it came with, and that id waits for the ack behind the others, with the notice.
pub proof fn unsubscription_step(session: Session, unsubscribe: Unsubscribe, tx: NoticeTx)
    requires
        session.last_pkid < 65535,
    ensures
        ({
            let pkid = (session.last_pkid + 1) as u16;
            &&& session.request_reply(Request::Unsubscribe(unsubscribe)) matches Ok(
                Some(Packet::Unsubscribe(sent)),
            ) && sent.pkid == session.last_pkid + 1 && sent.pkid != 0 && sent.topics
                == unsubscribe.topics
            &&& session.after_request(tx, Request::Unsubscribe(unsubscribe)) == (Session {
                last_pkid: counter_after(session) as u16,
                outgoing_unsub: session.outgoing_unsub.push((pkid, tx)),
                events: session.events.push(Event::Outgoing(Outgoing::Unsubscribe(pkid))),
                ..session
            })
        }),
{
}

/// A ping is sent if no earlier one is unanswered and, where a publish is set aside, if none
/// was asked for since. While a publish is set aside each ping that is asked for is counted,
/// also one that is refused. The notice of a ping is dropped.
pub proof fn ping_step(session: Session, tx: NoticeTx, ping: Request)
    requires
        ping is PingReq,
    ensures
        ({
            let waiting = session.collision is Some;
            let overdue = waiting && session.collision_ping_count >= 1;
            let sends = !overdue && !session.await_pingresp;
            let counted = Session {
                collision_ping_count: if waiting {
                    session.collision_ping_count + 1
                } else {
                    session.collision_ping_count
                },
                await_pingresp: session.await_pingresp || sends,
                events: if sends {
                    session.events.push(Event::Outgoing(Outgoing::PingReq))
                } else {
                    session.events
                },
                ..session
            };
            &&& session.request_reply(ping) == (if overdue {
                Err::<Option<Packet>, StateError>(StateError::CollisionTimeout)
            } else if session.await_pingresp {
                Err::<Option<Packet>, StateError>(StateError::AwaitPingResp)
            } else {
                Ok::<Option<Packet>, StateError>(Some(Packet::PingReq))
            })
            &&& session.ping_reply() == session.request_reply(ping)
            &&& session.after_ping() == counted
            &&& session.after_request(tx, ping) == (Session {
                notices: session.notices.push((tx, NoticeResult::Dropped)),
                ..counted
            })
        }),
{
}

/// Acks and receipts that the user sends, and the end of the connection, are sent as asked for.
/// The user is told, the notice is dropped, and nothing else changes.
pub proof fn plain_requests_step(session: Session, tx: NoticeTx, request: Request, pkid: u16)
    ensures
        ({
            let sends = |packet: Packet, outgoing: Outgoing|
                {
                    &&& session.request_reply(request) == Ok::<Option<Packet>, StateError>(
                        Some(packet),
                    )
                    &&& session.after_request(tx, request) == (Session {
                        events: session.events.push(Event::Outgoing(outgoing)),
                        notices: session.notices.push((tx, NoticeResult::Dropped)),
                        ..session
                    })
                };
            &&& request is Disconnect ==> sends(Packet::Disconnect, Outgoing::Disconnect)
            &&& request == Request::PubAck(PubAck { pkid }) ==> sends(
                Packet::PubAck(PubAck { pkid }),
                Outgoing::PubAck(pkid),
            )
            &&& request == Request::PubRec(PubRec { pkid }) ==> sends(
                Packet::PubRec(PubRec { pkid }),
                Outgoing::PubRec(pkid),
            )
        }),
{
}

/// What tells the user of a packet, and what settles a notice, adds to the end of the list and
/// changes nothing else.
pub proof fn lists_grow_at_the_end(
    session: Session,
    outgoing: Outgoing,
    tx: NoticeTx,
    outcome: NoticeResult,
)
    ensures
        session.emit(outgoing) == (Session {
            events: session.events.push(Event::Outgoing(outgoing)),
            ..session
        }),
        session.settle(tx, outcome) == (Session {
            notices: session.notices.push((tx, outcome)),
            ..session
        }),
{
}

// Packets

/// A QoS 0 publish that comes in is handed to the user, whatever its packet id and whoever
/// sends the acks. It is not answered, and nothing else changes.
pub proof fn incoming_qos0_step(session: Session, publish: Publish)
    requires
        publish.qos == QoS::AtMostOnce,
    ensures
        session.accepts_incoming(Packet::Publish(publish)),
        session.incoming_reply(Packet::Publish(publish)) == Ok::<Option<Packet>, StateError>(None),
        session.after_incoming(Packet::Publish(publish)) == (Session {
            events: session.events.push(Event::Incoming(Packet::Publish(publish))),
            ..session
        }),
{
}

/// A QoS 1 publish that comes in is handed to the user, whatever its packet id. It is acked
/// with that id, unless the user sends the acks. Nothing else changes.
pub proof fn incoming_qos1_step(session: Session, publish: Publish)
    requires
        publish.qos == QoS::AtLeastOnce,
    ensures
        session.accepts_incoming(Packet::Publish(publish)),
        session.incoming_reply(Packet::Publish(publish)) == (if session.manual_acks {
            Ok::<Option<Packet>, StateError>(None)
        } else {
            Ok::<Option<Packet>, StateError>(
                Some(Packet::PubAck(PubAck { pkid: publish.pkid })),
            )
        }),
        session.after_incoming(Packet::Publish(publish)) == (Session {
            events: (if session.manual_acks {
                session.events
            } else {
                session.events.push(Event::Outgoing(Outgoing::PubAck(publish.pkid)))
            }).push(Event::Incoming(Packet::Publish(publish))),
            ..session
        }),
{
}

/// A QoS 2 publish that comes in is handed to the user and its packet id remembered, in the
/// slot of that id. Its receipt is sent with that id, unless the user sends the acks. Nothing
/// else changes.
pub proof fn incoming_qos2_step(session: Session, publish: Publish)
    requires
        publish.qos == QoS::ExactlyOnce,
        publish.pkid < session.incoming_pub.len(),
    ensures
        session.incoming_reply(Packet::Publish(publish)) == (if session.manual_acks {
            Ok::<Option<Packet>, StateError>(None)
        } else {
            Ok::<Option<Packet>, StateError>(
                Some(Packet::PubRec(PubRec { pkid: publish.pkid })),
            )
        }),
        session.after_incoming(Packet::Publish(publish)) == (Session {
            incoming_pub: session.incoming_pub.update(publish.pkid as int, Some(publish.pkid)),
            events: (if session.manual_acks {
                session.events
            } else {
                session.events.push(Event::Outgoing(Outgoing::PubRec(publish.pkid)))
            }).push(Event::Incoming(Packet::Publish(publish))),
            ..session
        }),
{
}

/// A release of a packet id that is remembered is completed with that id, and the id is
/// forgotten. Any other release is refused and changes nothing.
pub proof fn incoming_release_step(session: Session, pubrel: PubRel)
    ensures
        ({
            let pkid = pubrel.pkid;
            let known = pkid < session.incoming_pub.len() && session.incoming_pub[pkid as int]
                is Some;
            &&& known ==> session.incoming_reply(Packet::PubRel(pubrel)) == Ok::<
                Option<Packet>,
                StateError,
            >(Some(Packet::PubComp(PubComp { pkid })))
            &&& known ==> session.after_incoming(Packet::PubRel(pubrel)) == (Session {
                incoming_pub: session.incoming_pub.update(pkid as int, None),
                events: session.events.push(Event::Outgoing(Outgoing::PubComp(pkid))).push(
                    Event::Incoming(Packet::PubRel(pubrel)),
                ),
                ..session
            })
            &&& !known ==> session.incoming_reply(Packet::PubRel(pubrel)) == Err::<
                Option<Packet>,
                StateError,
            >(StateError::Unsolicited(pkid))
            &&& !known ==> session.after_incoming(Packet::PubRel(pubrel)) == session
        }),
{
}

/// A publish is set aside and waits for this packet id.
pub open spec fn waits_for(session: Session, pkid: u16) -> bool {
    session.collision is Some && (session.collision->0).0.pkid == pkid
}

/// What is taken out of the collision slot for an ack is the publish that waits for its id.
pub proof fn collision_is_matched_by_id(session: Session, pkid: u16)
    ensures
        session.awaits(pkid) <==> waits_for(session, pkid),
{
}

/// An ack with the packet id of the oldest unacked QoS 1 publish takes that one out of the
/// queue and tells its sender of success. The id is kept as the last one acked.
pub proof fn incoming_ack_step(session: Session, puback: PubAck)
    requires
        puback.pkid <= session.max_inflight,
        session.outgoing_pub1.len() > 0,
        session.outgoing_pub1[0].0.pkid == puback.pkid,
        session.inflight > 0,
        !waits_for(session, puback.pkid),
    ensures
        session.incoming_reply(Packet::PubAck(puback)) == Ok::<Option<Packet>, StateError>(None),
        session.after_incoming(Packet::PubAck(puback)) == (Session {
            outgoing_pub1: session.outgoing_pub1.subrange(1, session.outgoing_pub1.len() as int),
            inflight: (session.inflight - 1) as nat,
            last_puback: puback.pkid,
            notices: session.notices.push((session.outgoing_pub1[0].1, NoticeResult::Success)),
            events: session.events.push(Event::Incoming(Packet::PubAck(puback))),
            ..session
        }),
{
}

/// If a publish above QoS 0 waits for the id of such an ack, it is sent in answer: it joins the
/// queue of its QoS with its notice and takes the place of the acked one in the count. The
/// collision is over, and so is the count of its pings.
pub proof fn incoming_ack_resends(session: Session, puback: PubAck)
    requires
        puback.pkid <= session.max_inflight,
        session.outgoing_pub1.len() > 0,
        session.outgoing_pub1[0].0.pkid == puback.pkid,
        session.inflight > 0,
        waits_for(session, puback.pkid),
        (session.collision->0).0.qos != QoS::AtMostOnce,
    ensures
        ({
            let (publish, tx) = session.collision->0;
            let rest = session.outgoing_pub1.subrange(1, session.outgoing_pub1.len() as int);
            let first = publish.qos == QoS::AtLeastOnce;
            &&& session.incoming_reply(Packet::PubAck(puback)) == Ok::<
                Option<Packet>,
                StateError,
            >(Some(Packet::Publish(publish)))
            &&& session.after_incoming(Packet::PubAck(puback)) == (Session {
                outgoing_pub1: if first {
                    rest.push((publish, tx))
                } else {
                    rest
                },
                outgoing_pub2: if first {
                    session.outgoing_pub2
                } else {
                    session.outgoing_pub2.push((publish, tx))
                },
                collision: None,
                collision_ping_count: 0,
                last_puback: puback.pkid,
                notices: session.notices.push(
                    (session.outgoing_pub1[0].1, NoticeResult::Success),
                ),
                events: session.events.push(
                    Event::Outgoing(Outgoing::Publish(publish.pkid)),
                ).push(Event::Incoming(Packet::PubAck(puback))),
                ..session
            })
        }),
{
}

/// A receipt with the packet id of the oldest QoS 2 publish is answered with its release. The
/// publish leaves its queue, and its id waits for the completion behind the others, with the
/// notice. It stays in the count.
pub proof fn incoming_receipt_step(session: Session, pubrec: PubRec)
    requires
        pubrec.pkid <= session.max_inflight,
        session.outgoing_pub2.len() > 0,
        session.outgoing_pub2[0].0.pkid == pubrec.pkid,
    ensures
        session.incoming_reply(Packet::PubRec(pubrec)) == Ok::<Option<Packet>, StateError>(
            Some(Packet::PubRel(PubRel { pkid: pubrec.pkid })),
        ),
        session.after_incoming(Packet::PubRec(pubrec)) == (Session {
            outgoing_pub2: session.outgoing_pub2.subrange(1, session.outgoing_pub2.len() as int),
            outgoing_rel: session.outgoing_rel.push((pubrec.pkid, session.outgoing_pub2[0].1)),
            events: session.events.push(Event::Outgoing(Outgoing::PubRel(pubrec.pkid))).push(
                Event::Incoming(Packet::PubRec(pubrec)),
            ),
            ..session
        }),
{
}

/// A completion with the packet id of the oldest release takes that one out of the queue and
/// tells its sender of success.
pub proof fn incoming_completion_step(session: Session, pubcomp: PubComp)
    requires
        pubcomp.pkid <= session.max_inflight,
        session.outgoing_rel.len() > 0,
        session.outgoing_rel[0].0 == pubcomp.pkid,
        session.inflight > 0,
        !waits_for(session, pubcomp.pkid),
    ensures
        session.incoming_reply(Packet::PubComp(pubcomp)) == Ok::<Option<Packet>, StateError>(None),
        session.after_incoming(Packet::PubComp(pubcomp)) == (Session {
            outgoing_rel: session.outgoing_rel.subrange(1, session.outgoing_rel.len() as int),
            inflight: (session.inflight - 1) as nat,
            notices: session.notices.push((session.outgoing_rel[0].1, NoticeResult::Success)),
            events: session.events.push(Event::Incoming(Packet::PubComp(pubcomp))),
            ..session
        }),
{
}

/// If a publish above QoS 0 waits for the id of such a completion, it is sent in answer, as at
/// an ack.
pub proof fn incoming_completion_resends(session: Session, pubcomp: PubComp)
    requires
        pubcomp.pkid <= session.max_inflight,
        session.outgoing_rel.len() > 0,
        session.outgoing_rel[0].0 == pubcomp.pkid,
        session.inflight > 0,
        waits_for(session, pubcomp.pkid),
        (session.collision->0).0.qos != QoS::AtMostOnce,
    ensures
        ({
            let (publish, tx) = session.collision->0;
            let first = publish.qos == QoS::AtLeastOnce;
            &&& session.incoming_reply(Packet::PubComp(pubcomp)) == Ok::<
                Option<Packet>,
                StateError,
            >(Some(Packet::Publish(publish)))
            &&& session.after_incoming(Packet::PubComp(pubcomp)) == (Session {
                outgoing_rel: session.outgoing_rel.subrange(1, session.outgoing_rel.len() as int),
                outgoing_pub1: if first {
                    session.outgoing_pub1.push((publish, tx))
                } else {
                    session.outgoing_pub1
                },
                outgoing_pub2: if first {
                    session.outgoing_pub2
                } else {
                    session.outgoing_pub2.push((publish, tx))
                },
                collision: None,
                collision_ping_count: 0,
                notices: session.notices.push(
                    (session.outgoing_rel[0].1, NoticeResult::Success),
                ),
                events: session.events.push(
                    Event::Outgoing(Outgoing::Publish(publish.pkid)),
                ).push(Event::Incoming(Packet::PubComp(pubcomp))),
                ..session
            })
        }),
{
}

/// A QoS 0 publish that was set aside is sent in answer to the ack of its id like any other of
/// QoS 0: it joins no queue, it is not counted, and its sender is told of success.
pub proof fn ack_resends_qos0(session: Session, packet: Packet, pkid: u16)
    requires
        waits_for(session, pkid),
        (session.collision->0).0.qos == QoS::AtMostOnce,
        session.inflight > 0,
        pkid <= session.max_inflight,
        match packet {
            Packet::PubAck(puback) => puback.pkid == pkid && session.outgoing_pub1.len() > 0
                && session.outgoing_pub1[0].0.pkid == pkid,
            Packet::PubComp(pubcomp) => pubcomp.pkid == pkid && session.outgoing_rel.len() > 0
                && session.outgoing_rel[0].0 == pkid,
            _ => false,
        },
    ensures
        ({
            let (publish, tx) = session.collision->0;
            let ack = packet is PubAck;
            let acked = if ack {
                session.outgoing_pub1[0].1
            } else {
                session.outgoing_rel[0].1
            };
            &&& session.incoming_reply(packet) == Ok::<Option<Packet>, StateError>(
                Some(Packet::Publish(publish)),
            )
            &&& session.after_incoming(packet) == (Session {
                outgoing_pub1: if ack {
                    session.outgoing_pub1.subrange(1, session.outgoing_pub1.len() as int)
                } else {
                    session.outgoing_pub1
                },
                outgoing_rel: if ack {
                    session.outgoing_rel
                } else {
                    session.outgoing_rel.subrange(1, session.outgoing_rel.len() as int)
                },
                last_puback: if ack {
                    pkid
                } else {
                    session.last_puback
                },
                inflight: (session.inflight - 1) as nat,
                collision: None,
                collision_ping_count: 0,
                notices: session.notices.push((acked, NoticeResult::Success)).push(
                    (tx, NoticeResult::Success),
                ),
                events: session.events.push(Event::Outgoing(Outgoing::Publish(pkid))).push(
                    Event::Incoming(packet),
                ),
                ..session
            })
        }),
{
}

/// An ack, a receipt or a completion with any other packet id than that of the oldest publish
/// that waits for one, or with an id above the limit, is refused and changes nothing.
pub proof fn unsolicited_acks_step(session: Session, pkid: u16)
    ensures
        pkid > session.max_inflight || session.outgoing_pub1.len() == 0
            || session.outgoing_pub1[0].0.pkid != pkid ==> session.incoming_reply(
            Packet::PubAck(PubAck { pkid }),
        ) == Err::<Option<Packet>, StateError>(StateError::Unsolicited(pkid))
            && session.after_incoming(Packet::PubAck(PubAck { pkid })) == session,
        pkid > session.max_inflight || session.outgoing_pub2.len() == 0
            || session.outgoing_pub2[0].0.pkid != pkid ==> session.incoming_reply(
            Packet::PubRec(PubRec { pkid }),
        ) == Err::<Option<Packet>, StateError>(StateError::Unsolicited(pkid))
            && session.after_incoming(Packet::PubRec(PubRec { pkid })) == session,
        pkid > session.max_inflight || session.outgoing_rel.len() == 0
            || session.outgoing_rel[0].0 != pkid ==> session.incoming_reply(
            Packet::PubComp(PubComp { pkid }),
        ) == Err::<Option<Packet>, StateError>(StateError::Unsolicited(pkid))
            && session.after_incoming(Packet::PubComp(PubComp { pkid })) == session,
{
}

/// The entry at this place is the first with this packet id.
pub open spec fn first_with_id(queue: Seq<(u16, NoticeTx)>, pkid: u16, i: int) -> bool {
    &&& 0 <= i < queue.len()
    &&& queue[i].0 == pkid
    &&& forall|j: int| 0 <= j < i ==> (#[trigger] queue[j]).0 != pkid
}

proof fn lemma_first_with_id(queue: Seq<(u16, NoticeTx)>, pkid: u16, i: int)
    requires
        first_with_id(queue, pkid, i),
    ensures
        queued_ids(queue).index_of_first(pkid) == Some(i),
{
    let ids = queued_ids(queue);
    ids.index_of_first_ensures(pkid);
    assert(ids[i] == pkid);
    assert forall|j: int| 0 <= j < i implies ids[j] != pkid by {
        assert(queue[j].0 != pkid);
    }
}

/// Acks of subscriptions may come in any order. The ack takes exactly the subscription out of
/// the queue that has its packet id, wherever that stands, and the others close up. If every
/// filter was granted, its sender is told of success and the packet is handed to the user; if
/// one was not, its sender is told of the failure and the packet is refused.
pub proof fn suback_step(session: Session, suback: SubAck, i: int)
    requires
        suback.pkid <= session.max_inflight,
        first_with_id(session.outgoing_sub, suback.pkid, i),
    ensures
        ({
            let queue = session.outgoing_sub;
            let codes = suback.return_codes@;
            let refused = exists|j: int| 0 <= j < codes.len() && codes[j] !is Success;
            &&& session.incoming_reply(Packet::SubAck(suback)) == (if refused {
                Err::<Option<Packet>, StateError>(
                    StateError::SubFail { reason: SubscribeReasonCode::Failure },
                )
            } else {
                Ok::<Option<Packet>, StateError>(None)
            })
            &&& session.after_incoming(Packet::SubAck(suback)) == (Session {
                outgoing_sub: queue.subrange(0, i) + queue.subrange(i + 1, queue.len() as int),
                notices: session.notices.push(
                    (
                        queue[i].1,
                        if refused {
                            NoticeResult::Error(
                                NoticeError::V4Subscribe(SubscribeReasonCode::Failure),
                            )
                        } else {
                            NoticeResult::Success
                        },
                    ),
                ),
                events: if refused {
                    session.events
                } else {
                    session.events.push(Event::Incoming(Packet::SubAck(suback)))
                },
                ..session
            })
        }),
{
    let queue = session.outgoing_sub;
    let codes = suback.return_codes@;
    lemma_first_with_id(queue, suback.pkid, i);
    assert(queue.remove(i) =~= queue.subrange(0, i) + queue.subrange(i + 1, queue.len() as int));
    if codes.contains(SubscribeReasonCode::Failure) {
        let j = choose|j: int| 0 <= j < codes.len() && codes[j] == SubscribeReasonCode::Failure;
        assert(codes[j] !is Success);
    }
    if exists|j: int| 0 <= j < codes.len() && codes[j] !is Success {
        let j = choose|j: int| 0 <= j < codes.len() && codes[j] !is Success;
        assert(codes[j] == SubscribeReasonCode::Failure);
    }
}

/// The ack of a subscription that none waits for, or with an id above the limit, is refused and
/// changes nothing.
pub proof fn unsolicited_suback_step(session: Session, suback: SubAck)
    requires
        suback.pkid > session.max_inflight || (forall|i: int|
            0 <= i < session.outgoing_sub.len() ==> (#[trigger] session.outgoing_sub[i]).0
                != suback.pkid),
    ensures
        session.incoming_reply(Packet::SubAck(suback)) == Err::<Option<Packet>, StateError>(
            StateError::Unsolicited(suback.pkid),
        ),
        session.after_incoming(Packet::SubAck(suback)) == session,
{
    queued_ids(session.outgoing_sub).index_of_first_ensures(suback.pkid);
}

/// Acks of unsubscriptions may come in any order. The ack takes exactly the unsubscription out
/// of the queue that has its packet id, wherever that stands; the last one takes its place. Its
/// sender is told of success.
pub proof fn unsuback_step(session: Session, unsuback: UnsubAck, i: int)
    requires
        first_with_id(session.outgoing_unsub, unsuback.pkid, i),
    ensures
        ({
            let queue = session.outgoing_unsub;
            let after = session.after_incoming(Packet::UnsubAck(unsuback));
            &&& session.incoming_reply(Packet::UnsubAck(unsuback)) == Ok::<
                Option<Packet>,
                StateError,
            >(None)
            &&& after.outgoing_unsub.len() == queue.len() - 1
            &&& forall|j: int|
                0 <= j < queue.len() - 1 ==> #[trigger] after.outgoing_unsub[j] == if j == i {
                    queue.last()
                } else {
                    queue[j]
                }
            &&& after == (Session {
                outgoing_unsub: after.outgoing_unsub,
                notices: session.notices.push((queue[i].1, NoticeResult::Success)),
                events: session.events.push(Event::Incoming(Packet::UnsubAck(unsuback))),
                ..session
            })
        }),
{
    lemma_first_with_id(session.outgoing_unsub, unsuback.pkid, i);
}

/// The ack of an unsubscription that none waits for is handed to the user, is not answered, and
/// changes nothing else.
pub proof fn unsolicited_unsuback_step(session: Session, unsuback: UnsubAck)
    requires
        forall|i: int|
            0 <= i < session.outgoing_unsub.len() ==> (#[trigger] session.outgoing_unsub[i]).0
                != unsuback.pkid,
    ensures
        session.incoming_reply(Packet::UnsubAck(unsuback)) == Ok::<Option<Packet>, StateError>(
            None,
        ),
        session.after_incoming(Packet::UnsubAck(unsuback)) == (Session {
            events: session.events.push(Event::Incoming(Packet::UnsubAck(unsuback))),
            ..session
        }),
{
    queued_ids(session.outgoing_unsub).index_of_first_ensures(unsuback.pkid);
}

/// The answer to a ping ends the wait for it and is handed to the user. Nothing else changes.
pub proof fn pingresp_step(session: Session)
    ensures
        session.incoming_reply(Packet::PingResp) == Ok::<Option<Packet>, StateError>(None),
        session.after_incoming(Packet::PingResp) == (Session {
            await_pingresp: false,
            events: session.events.push(Event::Incoming(Packet::PingResp)),
            ..session
        }),
{
}

/// A packet that a broker does not send to a connected client is refused and changes nothing.
pub proof fn wrong_packet_step(session: Session, packet: Packet)
    requires
        packet is Connect || packet is ConnAck || packet is Subscribe || packet is Unsubscribe
            || packet is PingReq || packet is Disconnect,
    ensures
        session.accepts_incoming(packet),
        session.incoming_reply(packet) == Err::<Option<Packet>, StateError>(
            StateError::WrongPacket,
        ),
        session.after_incoming(packet) == session,
{
}

// Requests and their acks

/// A subscription is settled by the ack with the packet id of the packet that was sent for it,
/// whatever other subscriptions, with other ids, were asked for before and after it.
pub proof fn sent_subscription_is_acked_by_its_id(
    session: Session,
    subscribe: Subscribe,
    tx: NoticeTx,
    later: Session,
    suback: SubAck,
    i: int,
)
    requires
        subscribe.filters@.len() > 0,
        session.last_pkid < session.max_inflight,
        session.request_reply(Request::Subscribe(subscribe)) matches Ok(
            Some(Packet::Subscribe(sent)),
        ) && suback.pkid == sent.pkid,
        later.max_inflight == session.max_inflight,
        first_with_id(later.outgoing_sub, suback.pkid, i),
        later.outgoing_sub[i] == session.after_request(
            tx,
            Request::Subscribe(subscribe),
        ).outgoing_sub.last(),
    ensures
        session.after_request(tx, Request::Subscribe(subscribe)).outgoing_sub.last() == (
            suback.pkid,
            tx,
        ),
        later.after_incoming(Packet::SubAck(suback)).notices.len() == later.notices.len() + 1,
        later.after_incoming(Packet::SubAck(suback)).notices.last().0 == tx,
        later.incoming_reply(Packet::SubAck(suback)) is Ok <==> (forall|j: int|
            0 <= j < suback.return_codes@.len() ==> suback.return_codes@[j] is Success),
{
    suback_step(later, suback, i);
}

/// An unsubscription is settled by the ack with the packet id of the packet that was sent for
/// it, whatever other unsubscriptions, with other ids, were asked for before and after it.
pub proof fn sent_unsubscription_is_acked_by_its_id(
    session: Session,
    unsubscribe: Unsubscribe,
    tx: NoticeTx,
    later: Session,
    unsuback: UnsubAck,
    i: int,
)
    requires
        session.last_pkid < 65535,
        session.request_reply(Request::Unsubscribe(unsubscribe)) matches Ok(
            Some(Packet::Unsubscribe(sent)),
        ) && unsuback.pkid == sent.pkid,
        first_with_id(later.outgoing_unsub, unsuback.pkid, i),
        later.outgoing_unsub[i] == session.after_request(
            tx,
            Request::Unsubscribe(unsubscribe),
        ).outgoing_unsub.last(),
    ensures
        session.after_request(tx, Request::Unsubscribe(unsubscribe)).outgoing_unsub.last() == (
            unsuback.pkid,
            tx,
        ),
        later.after_incoming(Packet::UnsubAck(unsuback)).notices == later.notices.push(
            (tx, NoticeResult::Success),
        ),
{
    unsuback_step(later, unsuback, i);
}

// Starting over

/// This many publishes of the queue go last when it is sent again: those up to the first with
/// the packet id that was acked last, or all where none has it.
pub open spec fn goes_last(queue: Seq<(Publish, NoticeTx)>, last_puback: u16, split: int) -> bool {
    ||| {
        &&& 0 < split <= queue.len()
        &&& queue[split - 1].0.pkid == last_puback
        &&& forall|j: int| 0 <= j < split - 1 ==> (#[trigger] queue[j]).0.pkid != last_puback
    }
    ||| split == queue.len() && !in_use(queue, last_puback as int)
}

proof fn lemma_goes_last(queue: Seq<(Publish, NoticeTx)>, last_puback: u16, split: int)
    requires
        goes_last(queue, last_puback, split),
    ensures
        resend_split(queue, last_puback) == split,
{
    let ids = publish_ids(queue);
    ids.index_of_first_ensures(last_puback);
    lemma_in_use(queue, last_puback);
    if 0 < split <= queue.len() && queue[split - 1].0.pkid == last_puback {
        assert(ids[split - 1] == last_puback);
        assert forall|j: int| 0 <= j < split - 1 implies ids[j] != last_puback by {
            assert(queue[j].0.pkid != last_puback);
        }
    }
}

/// `clean` hands back, with their notices, the QoS 1 publishes, then the QoS 2 publishes, then
/// the releases. Of the publishes of each QoS those that follow the one acked last come first,
/// in their order, and then the others, in theirs.
pub proof fn clean_hands_back_in_order(session: Session, split1: int, split2: int)
    requires
        goes_last(session.outgoing_pub1, session.last_puback, split1),
        goes_last(session.outgoing_pub2, session.last_puback, split2),
    ensures
        ({
            let one = session.outgoing_pub1;
            let two = session.outgoing_pub2;
            let rel = session.outgoing_rel;
            let n1 = one.len() as int;
            let n2 = two.len() as int;
            let pending = session.pending();
            let order1 = one.subrange(split1, n1) + one.subrange(0, split1);
            let order2 = two.subrange(split2, n2) + two.subrange(0, split2);
            &&& pending.len() == n1 + n2 + rel.len()
            &&& forall|j: int|
                0 <= j < n1 ==> #[trigger] pending[j] == (
                    order1[j].1,
                    Request::Publish(order1[j].0),
                )
            &&& forall|j: int|
                n1 <= j < n1 + n2 ==> #[trigger] pending[j] == (
                    order2[j - n1].1,
                    Request::Publish(order2[j - n1].0),
                )
            &&& forall|j: int|
                n1 + n2 <= j < n1 + n2 + rel.len() ==> #[trigger] pending[j] == (
                    rel[j - n1 - n2].1,
                    Request::PubRel(PubRel { pkid: rel[j - n1 - n2].0 }),
                )
        }),
{
    lemma_goes_last(session.outgoing_pub1, session.last_puback, split1);
    lemma_goes_last(session.outgoing_pub2, session.last_puback, split2);
    let one = session.outgoing_pub1;
    let two = session.outgoing_pub2;
    assert(resend_order(one, session.last_puback) =~= one.subrange(split1, one.len() as int)
        + one.subrange(0, split1));
    assert(resend_order(two, session.last_puback) =~= two.subrange(split2, two.len() as int)
        + two.subrange(0, split2));
}

/// `clean` empties every queue and every slot, drops the notices of subscriptions and then of
/// unsubscriptions, ends the wait for a ping and sets the counts back. The counter of packet
/// ids, the last ack, the settings, a publish that is set aside and the events stay.
pub proof fn clean_step(session: Session)
    ensures
        ({
            let after = session.after_clean();
            let sub = session.outgoing_sub;
            let unsub = session.outgoing_unsub;
            let n = session.notices.len() as int;
            &&& after.outgoing_pub1.len() == 0
            &&& after.outgoing_pub2.len() == 0
            &&& after.outgoing_rel.len() == 0
            &&& after.outgoing_sub.len() == 0
            &&& after.outgoing_unsub.len() == 0
            &&& after.incoming_pub.len() == session.incoming_pub.len()
            &&& forall|i: int|
                0 <= i < after.incoming_pub.len() ==> #[trigger] after.incoming_pub[i] is None
            &&& !after.await_pingresp
            &&& after.collision_ping_count == 0
            &&& after.inflight == 0
            &&& after.last_pkid == session.last_pkid
            &&& after.last_puback == session.last_puback
            &&& after.max_inflight == session.max_inflight
            &&& after.manual_acks == session.manual_acks
            &&& after.collision == session.collision
            &&& after.events == session.events
            &&& after.notices.len() == n + sub.len() + unsub.len()
            &&& forall|i: int| 0 <= i < n ==> #[trigger] after.notices[i] == session.notices[i]
            &&& forall|i: int|
                n <= i < n + sub.len() ==> #[trigger] after.notices[i] == (
                    sub[i - n].1,
                    NoticeResult::Dropped,
                )
            &&& forall|i: int|
                n + sub.len() <= i < n + sub.len() + unsub.len()
                    ==> #[trigger] after.notices[i] == (
                    unsub[i - n - sub.len()].1,
                    NoticeResult::Dropped,
                )
        }),
{
}

} // verus!
