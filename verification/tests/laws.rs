use rumqttc::mqttbytes::{
    self, ConnAck, Connect, Disconnect, Packet, PingReq, PingResp, PubAck, PubComp, PubRec,
    PubRel, Publish, QoS, SubAck, Subscribe, SubscribeFilter, SubscribeReasonCode, UnsubAck,
    Unsubscribe,
};
use rumqttc::{
    Event, MqttState, NoticeError, NoticeResult, NoticeTx, Outgoing, Request, StateError,
};
use std::time::Instant;

fn publish(qos: QoS, pkid: u16) -> Publish {
    let mut publish = Publish::new("a/b".to_string(), qos, vec![7, 8]);
    publish.pkid = pkid;
    publish
}

fn request(mqtt: &mut MqttState, id: u64, request: Request) -> Result<Option<Packet>, StateError> {
    assert!(mqtt.accepts_request(&request));
    mqtt.handle_outgoing_packet(NoticeTx::new(id), request)
}

fn incoming(mqtt: &mut MqttState, packet: Packet) -> Result<Option<Packet>, StateError> {
    assert!(mqtt.accepts_incoming(&packet));
    mqtt.handle_incoming_packet(packet)
}

fn outcomes(mqtt: &MqttState) -> Vec<(u64, NoticeResult)> {
    mqtt.notices.iter().map(|(tx, outcome)| (tx.id, *outcome)).collect()
}

fn outgoing_events(mqtt: &MqttState) -> Vec<Outgoing> {
    let mut events = Vec::new();
    for event in mqtt.events.iter() {
        if let Event::Outgoing(outgoing) = event {
            events.push(*outgoing);
        }
    }
    events
}

fn subscribe() -> Subscribe {
    let filter = SubscribeFilter { path: "a/#".to_string(), qos: QoS::AtLeastOnce };
    Subscribe { pkid: 0, filters: vec![filter] }
}

fn unsubscribe() -> Unsubscribe {
    Unsubscribe { pkid: 0, topics: vec!["a/#".to_string()] }
}

#[test]
fn new_state_is_empty() {
    let mqtt = MqttState::new(5, true);
    assert_eq!(mqtt.inflight(), 0);
    assert_eq!(mqtt.max_inflight, 5);
    assert!(mqtt.manual_acks);
    assert!(!mqtt.await_pingresp);
    assert_eq!(mqtt.incoming_pub.len(), 65536);
    assert!(mqtt.incoming_pub.iter().all(|slot| slot.is_none()));
    assert!(mqtt.events.is_empty() && mqtt.notices.is_empty() && mqtt.collision.is_none());
}

#[test]
fn packet_ids_start_over_at_the_limit() {
    let mut mqtt = MqttState::new(3, false);
    let ids: Vec<u16> = (0..7).map(|_| mqtt.next_pkid()).collect();
    assert_eq!(ids, vec![1, 2, 3, 1, 2, 3, 1]);
}

#[test]
fn packet_ids_never_pass_the_limit_of_one() {
    let mut mqtt = MqttState::new(1, false);
    assert_eq!(mqtt.next_pkid(), 1);
    assert_eq!(mqtt.next_pkid(), 1);
    assert_eq!(mqtt.last_pkid, 0);
}

#[test]
fn last_packet_id_without_limit_is_not_passed() {
    let mut mqtt = MqttState::new(0, false);
    mqtt.last_pkid = u16::MAX;
    assert!(!mqtt.accepts_request(&Request::Publish(publish(QoS::AtLeastOnce, 0))));
    assert!(mqtt.accepts_request(&Request::Publish(publish(QoS::AtLeastOnce, 4))));
    assert!(!mqtt.accepts_request(&Request::Unsubscribe(unsubscribe())));
    assert!(!mqtt.accepts_request(&Request::Subscribe(subscribe())));
    assert!(!mqtt.accepts_request(&Request::PubRel(PubRel::new(0))));
}

#[test]
fn requests_of_a_broker_are_not_accepted() {
    let mqtt = MqttState::new(10, false);
    assert!(!mqtt.accepts_request(&Request::PubComp(PubComp::new(1))));
    assert!(!mqtt.accepts_request(&Request::PingResp(PingResp)));
    assert!(!mqtt.accepts_request(&Request::SubAck(SubAck { pkid: 1, return_codes: vec![] })));
    assert!(!mqtt.accepts_request(&Request::UnsubAck(UnsubAck { pkid: 1 })));
}

#[test]
fn qos0_publish_is_settled_at_once() {
    let mut mqtt = MqttState::new(10, false);
    let reply = request(&mut mqtt, 4, Request::Publish(publish(QoS::AtMostOnce, 0)));
    match reply {
        Ok(Some(Packet::Publish(sent))) => {
            assert_eq!(sent.pkid, 0);
            assert_eq!(sent.topic, "a/b");
            assert_eq!(sent.payload, vec![7, 8]);
        }
        reply => panic!("{:?}", reply),
    }
    assert_eq!(outcomes(&mqtt), vec![(4, NoticeResult::Success)]);
    assert_eq!(outgoing_events(&mqtt), vec![Outgoing::Publish(0)]);
    assert!(mqtt.outgoing_pub1.is_empty() && mqtt.outgoing_pub2.is_empty());
}

#[test]
fn sent_publish_is_the_queued_message() {
    let mut mqtt = MqttState::new(10, false);
    let reply = request(&mut mqtt, 1, Request::Publish(publish(QoS::ExactlyOnce, 0)));
    let sent = match reply {
        Ok(Some(Packet::Publish(sent))) => sent,
        reply => panic!("{:?}", reply),
    };
    let (kept, tx) = &mqtt.outgoing_pub2[0];
    assert_eq!(tx.id, 1);
    assert_eq!((sent.pkid, sent.qos), (1, QoS::ExactlyOnce));
    assert_eq!((kept.pkid, kept.qos), (1, QoS::ExactlyOnce));
    assert_eq!(kept.topic, sent.topic);
    assert_eq!(kept.payload, sent.payload);
    assert_eq!(outgoing_events(&mqtt), vec![Outgoing::Publish(1)]);
}

#[test]
fn full_count_refuses_another_publish() {
    let mut mqtt = MqttState::new(10, false);
    mqtt.inflight = u16::MAX;
    assert!(!mqtt.accepts_request(&Request::Publish(publish(QoS::AtLeastOnce, 0))));
    assert!(mqtt.accepts_request(&Request::Publish(publish(QoS::AtMostOnce, 0))));
}

#[test]
fn acks_settle_publishes_in_order() {
    let mut mqtt = MqttState::new(10, false);
    for id in 1..=3 {
        request(&mut mqtt, id, Request::Publish(publish(QoS::AtLeastOnce, 0))).unwrap();
    }
    assert_eq!(mqtt.inflight(), 3);
    assert!(incoming(&mut mqtt, Packet::PubAck(PubAck::new(1))).unwrap().is_none());
    assert!(incoming(&mut mqtt, Packet::PubAck(PubAck::new(2))).unwrap().is_none());
    assert_eq!(
        outcomes(&mqtt),
        vec![(1, NoticeResult::Success), (2, NoticeResult::Success)]
    );
    assert_eq!(mqtt.last_puback, 2);
    assert_eq!(mqtt.inflight(), 1);
    assert_eq!(mqtt.outgoing_pub1[0].0.pkid, 3);
}

#[test]
fn ack_out_of_order_is_unsolicited() {
    let mut mqtt = MqttState::new(10, false);
    request(&mut mqtt, 1, Request::Publish(publish(QoS::AtLeastOnce, 0))).unwrap();
    request(&mut mqtt, 2, Request::Publish(publish(QoS::AtLeastOnce, 0))).unwrap();
    for pkid in [2, 5] {
        match incoming(&mut mqtt, Packet::PubAck(PubAck::new(pkid))) {
            Err(StateError::Unsolicited(unsolicited)) => assert_eq!(unsolicited, pkid),
            reply => panic!("{:?}", reply),
        }
    }
    assert!(mqtt.notices.is_empty());
    assert_eq!(mqtt.last_puback, 0);
    assert_eq!(mqtt.inflight(), 2);
    assert_eq!(mqtt.outgoing_pub1[0].0.pkid, 1);
    assert_eq!(mqtt.outgoing_pub1[1].0.pkid, 2);
}

#[test]
fn ack_without_publish_is_unsolicited() {
    let mut mqtt = MqttState::new(10, false);
    for packet in [
        Packet::PubAck(PubAck::new(10)),
        Packet::PubRec(PubRec::new(10)),
        Packet::PubComp(PubComp::new(10)),
        Packet::PubRel(PubRel::new(10)),
        Packet::SubAck(SubAck { pkid: 10, return_codes: vec![] }),
    ] {
        match incoming(&mut mqtt, packet) {
            Err(StateError::Unsolicited(pkid)) => assert_eq!(pkid, 10),
            reply => panic!("{:?}", reply),
        }
    }
    assert!(mqtt.events.is_empty());
}

#[test]
fn ack_above_limit_changes_nothing() {
    let mut mqtt = MqttState::new(10, false);
    request(&mut mqtt, 1, Request::Publish(publish(QoS::AtLeastOnce, 0))).unwrap();
    request(&mut mqtt, 2, Request::Publish(publish(QoS::ExactlyOnce, 0))).unwrap();
    request(&mut mqtt, 3, Request::Subscribe(subscribe())).unwrap();
    for packet in [
        Packet::PubAck(PubAck::new(11)),
        Packet::PubRec(PubRec::new(11)),
        Packet::PubComp(PubComp::new(11)),
        Packet::SubAck(SubAck { pkid: 11, return_codes: vec![] }),
    ] {
        match incoming(&mut mqtt, packet) {
            Err(StateError::Unsolicited(pkid)) => assert_eq!(pkid, 11),
            reply => panic!("{:?}", reply),
        }
    }
    assert_eq!(mqtt.outgoing_pub1.len(), 1);
    assert_eq!(mqtt.outgoing_pub2.len(), 1);
    assert_eq!(mqtt.outgoing_sub.len(), 1);
    assert!(mqtt.notices.is_empty());
}

#[test]
fn qos2_publish_is_released_and_completed() {
    let mut mqtt = MqttState::new(10, false);
    request(&mut mqtt, 9, Request::Publish(publish(QoS::ExactlyOnce, 0))).unwrap();
    match incoming(&mut mqtt, Packet::PubRec(PubRec::new(1))) {
        Ok(Some(Packet::PubRel(pubrel))) => assert_eq!(pubrel.pkid, 1),
        reply => panic!("{:?}", reply),
    }
    assert_eq!(mqtt.inflight(), 1);
    assert_eq!(mqtt.outgoing_rel[0].0, 1);
    assert!(incoming(&mut mqtt, Packet::PubComp(PubComp::new(1))).unwrap().is_none());
    assert_eq!(mqtt.inflight(), 0);
    assert!(mqtt.outgoing_rel.is_empty());
    assert_eq!(outcomes(&mqtt), vec![(9, NoticeResult::Success)]);
    assert_eq!(outgoing_events(&mqtt), vec![Outgoing::Publish(1), Outgoing::PubRel(1)]);
}

#[test]
fn receipt_out_of_order_keeps_the_publish() {
    let mut mqtt = MqttState::new(10, false);
    request(&mut mqtt, 1, Request::Publish(publish(QoS::ExactlyOnce, 0))).unwrap();
    match incoming(&mut mqtt, Packet::PubRec(PubRec::new(2))) {
        Err(StateError::Unsolicited(pkid)) => assert_eq!(pkid, 2),
        reply => panic!("{:?}", reply),
    }
    assert_eq!(mqtt.outgoing_pub2[0].0.pkid, 1);
    assert!(mqtt.outgoing_rel.is_empty());
    assert_eq!(mqtt.inflight(), 1);
    assert!(mqtt.notices.is_empty());
    assert_eq!(mqtt.clean().len(), 1);
}

#[test]
fn completion_out_of_order_keeps_the_release() {
    let mut mqtt = MqttState::new(10, false);
    request(&mut mqtt, 1, Request::Publish(publish(QoS::ExactlyOnce, 0))).unwrap();
    incoming(&mut mqtt, Packet::PubRec(PubRec::new(1))).unwrap();
    match incoming(&mut mqtt, Packet::PubComp(PubComp::new(2))) {
        Err(StateError::Unsolicited(pkid)) => assert_eq!(pkid, 2),
        reply => panic!("{:?}", reply),
    }
    assert_eq!(mqtt.outgoing_rel[0].0, 1);
    assert_eq!(mqtt.inflight(), 1);
    assert!(mqtt.notices.is_empty());
}

#[test]
fn release_on_request_is_not_counted() {
    let mut mqtt = MqttState::new(10, false);
    match request(&mut mqtt, 1, Request::PubRel(PubRel::new(0))) {
        Ok(Some(Packet::PubRel(pubrel))) => assert_eq!(pubrel.pkid, 1),
        reply => panic!("{:?}", reply),
    }
    match request(&mut mqtt, 2, Request::PubRel(PubRel::new(7))) {
        Ok(Some(Packet::PubRel(pubrel))) => assert_eq!(pubrel.pkid, 7),
        reply => panic!("{:?}", reply),
    }
    assert_eq!(mqtt.inflight(), 0);
    assert_eq!(mqtt.last_pkid, 1);
    assert_eq!(outgoing_events(&mqtt), vec![Outgoing::PubRel(1), Outgoing::PubRel(7)]);
    assert!(!mqtt.accepts_incoming(&Packet::PubComp(PubComp::new(1))));
    assert!(mqtt.accepts_incoming(&Packet::PubComp(PubComp::new(7))));
}

#[test]
fn subscription_is_settled_by_its_ack() {
    let mut mqtt = MqttState::new(10, false);
    match request(&mut mqtt, 1, Request::Subscribe(subscribe())) {
        Ok(Some(Packet::Subscribe(sent))) => {
            assert_eq!(sent.pkid, 1);
            assert_eq!(sent.filters[0].path, "a/#");
        }
        reply => panic!("{:?}", reply),
    }
    request(&mut mqtt, 2, Request::Subscribe(subscribe())).unwrap();
    let codes = vec![SubscribeReasonCode::Success(QoS::AtLeastOnce)];
    let suback = SubAck { pkid: 2, return_codes: codes };
    assert!(incoming(&mut mqtt, Packet::SubAck(suback)).unwrap().is_none());
    assert_eq!(outcomes(&mqtt), vec![(2, NoticeResult::Success)]);
    assert_eq!(mqtt.outgoing_sub.len(), 1);
    assert_eq!(mqtt.outgoing_sub[0].0, 1);
    assert_eq!(outgoing_events(&mqtt), vec![Outgoing::Subscribe(1), Outgoing::Subscribe(2)]);
}

#[test]
fn refused_subscription_fails() {
    let mut mqtt = MqttState::new(10, false);
    request(&mut mqtt, 1, Request::Subscribe(subscribe())).unwrap();
    let codes = vec![
        SubscribeReasonCode::Success(QoS::AtMostOnce),
        SubscribeReasonCode::Failure,
    ];
    match incoming(&mut mqtt, Packet::SubAck(SubAck { pkid: 1, return_codes: codes })) {
        Err(StateError::SubFail { reason }) => {
            assert_eq!(reason, SubscribeReasonCode::Failure)
        }
        reply => panic!("{:?}", reply),
    }
    let error = NoticeError::V4Subscribe(SubscribeReasonCode::Failure);
    assert_eq!(outcomes(&mqtt), vec![(1, NoticeResult::Error(error))]);
    assert!(mqtt.outgoing_sub.is_empty());
    assert_eq!(mqtt.events.len(), 1);
}

#[test]
fn empty_subscription_is_refused() {
    let mut mqtt = MqttState::new(10, false);
    let empty = Subscribe { pkid: 0, filters: vec![] };
    match request(&mut mqtt, 3, Request::Subscribe(empty)) {
        Err(StateError::EmptySubscription) => (),
        reply => panic!("{:?}", reply),
    }
    assert_eq!(mqtt.last_pkid, 0);
    assert_eq!(outcomes(&mqtt), vec![(3, NoticeResult::Dropped)]);
    assert!(mqtt.events.is_empty());
}

#[test]
fn unsubscription_is_settled_and_the_last_takes_its_place() {
    let mut mqtt = MqttState::new(10, false);
    for id in 1..=4 {
        request(&mut mqtt, id, Request::Unsubscribe(unsubscribe())).unwrap();
    }
    assert!(incoming(&mut mqtt, Packet::UnsubAck(UnsubAck { pkid: 2 })).unwrap().is_none());
    let left: Vec<(u16, u64)> =
        mqtt.outgoing_unsub.iter().map(|(pkid, tx)| (*pkid, tx.id)).collect();
    assert_eq!(left, vec![(1, 1), (4, 4), (3, 3)]);
    assert_eq!(outcomes(&mqtt), vec![(2, NoticeResult::Success)]);
}

#[test]
fn last_unsubscription_is_settled() {
    let mut mqtt = MqttState::new(10, false);
    request(&mut mqtt, 1, Request::Unsubscribe(unsubscribe())).unwrap();
    request(&mut mqtt, 2, Request::Unsubscribe(unsubscribe())).unwrap();
    incoming(&mut mqtt, Packet::UnsubAck(UnsubAck { pkid: 2 })).unwrap();
    assert_eq!(mqtt.outgoing_unsub.len(), 1);
    assert_eq!(mqtt.outgoing_unsub[0].0, 1);
    assert_eq!(outcomes(&mqtt), vec![(2, NoticeResult::Success)]);
}

#[test]
fn unsolicited_unsuback_is_ignored() {
    let mut mqtt = MqttState::new(10, false);
    request(&mut mqtt, 1, Request::Unsubscribe(unsubscribe())).unwrap();
    assert!(incoming(&mut mqtt, Packet::UnsubAck(UnsubAck { pkid: 99 })).unwrap().is_none());
    assert_eq!(mqtt.outgoing_unsub.len(), 1);
    assert!(mqtt.notices.is_empty());
    assert!(matches!(mqtt.events.back(), Some(Event::Incoming(Packet::UnsubAck(_)))));
}

#[test]
fn publish_with_used_id_waits_for_the_ack() {
    let mut mqtt = MqttState::new(10, false);
    request(&mut mqtt, 1, Request::Publish(publish(QoS::AtLeastOnce, 0))).unwrap();
    let reply = request(&mut mqtt, 2, Request::Publish(publish(QoS::AtLeastOnce, 1)));
    assert!(reply.unwrap().is_none());
    assert_eq!(outgoing_events(&mqtt), vec![Outgoing::Publish(1), Outgoing::AwaitAck(1)]);
    assert_eq!(mqtt.inflight(), 1);
    mqtt.outgoing_ping().unwrap();
    assert_eq!(mqtt.collision_ping_count, 1);

    match incoming(&mut mqtt, Packet::PubAck(PubAck::new(1))) {
        Ok(Some(Packet::Publish(sent))) => {
            assert_eq!(sent.pkid, 1);
            assert_eq!(sent.payload, vec![7, 8]);
        }
        reply => panic!("{:?}", reply),
    }
    assert!(mqtt.collision.is_none());
    assert_eq!(mqtt.collision_ping_count, 0);
    assert_eq!(mqtt.inflight(), 1);
    assert_eq!(mqtt.outgoing_pub1.len(), 1);
    assert_eq!(mqtt.outgoing_pub1[0].1.id, 2);
    assert_eq!(outcomes(&mqtt), vec![(1, NoticeResult::Success)]);
}

#[test]
fn publishes_of_different_qos_do_not_collide() {
    let mut mqtt = MqttState::new(10, false);
    request(&mut mqtt, 1, Request::Publish(publish(QoS::AtLeastOnce, 4))).unwrap();
    let reply = request(&mut mqtt, 2, Request::Publish(publish(QoS::ExactlyOnce, 4)));
    assert!(reply.unwrap().is_some());
    assert!(mqtt.collision.is_none());
}

#[test]
fn second_collision_gives_up_the_first() {
    let mut mqtt = MqttState::new(10, false);
    request(&mut mqtt, 1, Request::Publish(publish(QoS::AtLeastOnce, 1))).unwrap();
    request(&mut mqtt, 2, Request::Publish(publish(QoS::AtLeastOnce, 1))).unwrap();
    request(&mut mqtt, 3, Request::Publish(publish(QoS::AtLeastOnce, 1))).unwrap();
    assert_eq!(outcomes(&mqtt), vec![(2, NoticeResult::Dropped)]);
    assert_eq!(mqtt.collision.as_ref().unwrap().1.id, 3);
}

#[test]
fn resent_qos2_publish_is_queued_and_counted() {
    let mut mqtt = MqttState::new(10, false);
    request(&mut mqtt, 1, Request::Publish(publish(QoS::ExactlyOnce, 0))).unwrap();
    request(&mut mqtt, 2, Request::Publish(publish(QoS::ExactlyOnce, 1))).unwrap();
    incoming(&mut mqtt, Packet::PubRec(PubRec::new(1))).unwrap();
    match incoming(&mut mqtt, Packet::PubComp(PubComp::new(1))) {
        Ok(Some(Packet::Publish(sent))) => assert_eq!(sent.pkid, 1),
        reply => panic!("{:?}", reply),
    }
    assert!(mqtt.collision.is_none());
    assert_eq!(outgoing_events(&mqtt).last(), Some(&Outgoing::Publish(1)));
    assert_eq!(mqtt.outgoing_pub2.len(), 1);
    assert_eq!(mqtt.outgoing_pub2[0].0.pkid, 1);
    assert_eq!(mqtt.outgoing_pub2[0].1.id, 2);
    assert_eq!(mqtt.inflight(), 1);
    assert_eq!(outcomes(&mqtt), vec![(1, NoticeResult::Success)]);

    incoming(&mut mqtt, Packet::PubRec(PubRec::new(1))).unwrap();
    incoming(&mut mqtt, Packet::PubComp(PubComp::new(1))).unwrap();
    assert_eq!(mqtt.inflight(), 0);
    assert_eq!(
        outcomes(&mqtt),
        vec![(1, NoticeResult::Success), (2, NoticeResult::Success)]
    );
}

#[test]
fn qos1_publish_resent_at_a_completion_is_counted() {
    let mut mqtt = MqttState::new(10, false);
    request(&mut mqtt, 1, Request::Publish(publish(QoS::AtLeastOnce, 1))).unwrap();
    request(&mut mqtt, 2, Request::Publish(publish(QoS::AtLeastOnce, 1))).unwrap();
    request(&mut mqtt, 3, Request::Publish(publish(QoS::ExactlyOnce, 1))).unwrap();
    incoming(&mut mqtt, Packet::PubRec(PubRec::new(1))).unwrap();
    assert!(incoming(&mut mqtt, Packet::PubComp(PubComp::new(1))).unwrap().is_some());
    assert_eq!(mqtt.outgoing_pub1.len(), 2);
    assert_eq!(mqtt.inflight(), 2);
}

#[test]
fn qos0_publish_set_aside_is_settled_when_sent() {
    let mut mqtt = MqttState::new(10, false);
    request(&mut mqtt, 1, Request::Publish(publish(QoS::AtLeastOnce, 1))).unwrap();
    mqtt.collision = Some((publish(QoS::AtMostOnce, 1), NoticeTx::new(2)));
    assert!(incoming(&mut mqtt, Packet::PubAck(PubAck::new(1))).unwrap().is_some());
    assert_eq!(mqtt.inflight(), 0);
    assert_eq!(
        outcomes(&mqtt),
        vec![(1, NoticeResult::Success), (2, NoticeResult::Success)]
    );
}

#[test]
fn collision_times_out_at_the_second_ping() {
    let mut mqtt = MqttState::new(10, false);
    request(&mut mqtt, 1, Request::Publish(publish(QoS::AtLeastOnce, 1))).unwrap();
    request(&mut mqtt, 2, Request::Publish(publish(QoS::AtLeastOnce, 1))).unwrap();
    assert!(matches!(
        request(&mut mqtt, 3, Request::PingReq(PingReq)),
        Ok(Some(Packet::PingReq))
    ));
    incoming(&mut mqtt, Packet::PingResp).unwrap();
    assert!(matches!(
        request(&mut mqtt, 4, Request::PingReq(PingReq)),
        Err(StateError::CollisionTimeout)
    ));
}

#[test]
fn cleaned_state_can_be_resumed() {
    let mut mqtt = MqttState::new(10, false);
    for id in 1..=3 {
        request(&mut mqtt, id, Request::Publish(publish(QoS::AtLeastOnce, 0))).unwrap();
    }
    for id in 4..=5 {
        request(&mut mqtt, id, Request::Publish(publish(QoS::ExactlyOnce, 0))).unwrap();
    }
    incoming(&mut mqtt, Packet::PubRec(PubRec::new(4))).unwrap();
    incoming(&mut mqtt, Packet::Publish(publish(QoS::ExactlyOnce, 30))).unwrap();
    mqtt.outgoing_ping().unwrap();
    mqtt.last_puback = 2;

    let pending = mqtt.clean();
    assert_eq!(mqtt.inflight(), 0);
    assert!(!mqtt.await_pingresp);
    assert!(mqtt.incoming_pub[30].is_none());
    assert!(mqtt.clean().is_empty());

    let ids: Vec<u64> = pending.iter().map(|(tx, _)| tx.id).collect();
    assert_eq!(ids, vec![3, 1, 2, 5, 4]);
    for (tx, request) in pending {
        assert!(mqtt.accepts_request(&request));
        mqtt.handle_outgoing_packet(tx, request).unwrap();
    }
    let ids: Vec<u16> = mqtt.outgoing_pub1.iter().map(|(publish, _)| publish.pkid).collect();
    assert_eq!(ids, vec![3, 1, 2]);
    assert_eq!(mqtt.outgoing_pub2[0].0.pkid, 5);
    assert_eq!(mqtt.outgoing_rel[0].0, 4);
    assert_eq!(mqtt.inflight(), 4);
    assert_eq!(mqtt.last_pkid, 5);
}

#[test]
fn clean_gives_up_subscriptions() {
    let mut mqtt = MqttState::new(10, false);
    request(&mut mqtt, 1, Request::Publish(publish(QoS::AtLeastOnce, 1))).unwrap();
    request(&mut mqtt, 2, Request::Publish(publish(QoS::AtLeastOnce, 1))).unwrap();
    request(&mut mqtt, 3, Request::Unsubscribe(unsubscribe())).unwrap();
    request(&mut mqtt, 4, Request::Subscribe(subscribe())).unwrap();
    request(&mut mqtt, 5, Request::Subscribe(subscribe())).unwrap();
    assert_eq!(mqtt.clean().len(), 1);
    assert!(mqtt.outgoing_sub.is_empty());
    assert!(mqtt.outgoing_unsub.is_empty());
    assert_eq!(
        outcomes(&mqtt),
        vec![
            (4, NoticeResult::Dropped),
            (5, NoticeResult::Dropped),
            (3, NoticeResult::Dropped),
        ]
    );
    assert_eq!(mqtt.collision.as_ref().unwrap().1.id, 2);
}

#[test]
fn recycled_subscription_id_is_not_confused() {
    let mut mqtt = MqttState::new(1, false);
    request(&mut mqtt, 1, Request::Subscribe(subscribe())).unwrap();
    mqtt.clean();
    request(&mut mqtt, 2, Request::Subscribe(subscribe())).unwrap();
    let codes = vec![SubscribeReasonCode::Success(QoS::AtLeastOnce)];
    incoming(&mut mqtt, Packet::SubAck(SubAck { pkid: 1, return_codes: codes })).unwrap();
    assert_eq!(
        outcomes(&mqtt),
        vec![(1, NoticeResult::Dropped), (2, NoticeResult::Success)]
    );
}

#[test]
fn incoming_qos2_publish_is_released_once() {
    let mut mqtt = MqttState::new(10, false);
    incoming(&mut mqtt, Packet::Publish(publish(QoS::ExactlyOnce, 65535))).unwrap();
    incoming(&mut mqtt, Packet::Publish(publish(QoS::ExactlyOnce, 65535))).unwrap();
    match incoming(&mut mqtt, Packet::PubRel(PubRel::new(65535))) {
        Ok(Some(Packet::PubComp(pubcomp))) => assert_eq!(pubcomp.pkid, 65535),
        reply => panic!("{:?}", reply),
    }
    assert!(matches!(
        incoming(&mut mqtt, Packet::PubRel(PubRel::new(65535))),
        Err(StateError::Unsolicited(65535))
    ));
}

#[test]
fn missing_slot_is_not_accepted() {
    let mut mqtt = MqttState::new(10, false);
    mqtt.incoming_pub = Vec::new();
    assert!(!mqtt.accepts_incoming(&Packet::Publish(publish(QoS::ExactlyOnce, 1))));
    assert!(mqtt.accepts_incoming(&Packet::Publish(publish(QoS::AtLeastOnce, 1))));
    assert!(matches!(
        incoming(&mut mqtt, Packet::PubRel(PubRel::new(1))),
        Err(StateError::Unsolicited(1))
    ));
}

#[test]
fn manual_ack_is_the_automatic_one() {
    let mut manual = MqttState::new(10, true);
    let mut auto = MqttState::new(10, false);
    let reply = incoming(&mut manual, Packet::Publish(publish(QoS::AtLeastOnce, 6)));
    assert!(reply.unwrap().is_none());
    let by_user = request(&mut manual, 1, Request::PubAck(PubAck::new(6)));
    let by_itself = incoming(&mut auto, Packet::Publish(publish(QoS::AtLeastOnce, 6)));
    assert!(matches!(by_user, Ok(Some(Packet::PubAck(PubAck { pkid: 6 })))));
    assert!(matches!(by_itself, Ok(Some(Packet::PubAck(PubAck { pkid: 6 })))));
    let by_user = request(&mut manual, 2, Request::PubRec(PubRec::new(8)));
    assert!(matches!(by_user, Ok(Some(Packet::PubRec(PubRec { pkid: 8 })))));
    assert_eq!(
        outcomes(&manual),
        vec![(1, NoticeResult::Dropped), (2, NoticeResult::Dropped)]
    );
}

#[test]
fn events_tell_of_the_answer_and_the_packet() {
    let mut mqtt = MqttState::new(10, false);
    incoming(&mut mqtt, Packet::Publish(publish(QoS::ExactlyOnce, 2))).unwrap();
    assert_eq!(mqtt.events.len(), 2);
    assert!(matches!(mqtt.events[0], Event::Outgoing(Outgoing::PubRec(2))));
    assert!(matches!(mqtt.events[1], Event::Incoming(Packet::Publish(_))));
}

#[test]
fn disconnect_is_sent() {
    let mut mqtt = MqttState::new(10, false);
    let reply = request(&mut mqtt, 1, Request::Disconnect(Disconnect));
    assert!(matches!(reply, Ok(Some(Packet::Disconnect))));
    assert_eq!(outgoing_events(&mqtt), vec![Outgoing::Disconnect]);
    assert_eq!(outcomes(&mqtt), vec![(1, NoticeResult::Dropped)]);
}

#[test]
fn packets_of_a_client_are_wrong() {
    let mut mqtt = MqttState::new(10, false);
    let connect =
        Connect { client_id: "c".to_string(), keep_alive: 5, clean_session: true };
    for packet in [
        Packet::Connect(connect),
        Packet::ConnAck(ConnAck { session_present: false, code: 0 }),
        Packet::Subscribe(subscribe()),
        Packet::Unsubscribe(unsubscribe()),
        Packet::PingReq,
        Packet::Disconnect,
    ] {
        assert!(matches!(incoming(&mut mqtt, packet), Err(StateError::WrongPacket)));
    }
    assert!(mqtt.events.is_empty());
}

#[test]
fn times_are_recorded_unless_refused() {
    let start = Instant::now();
    let mut mqtt = MqttState::new(10, false);
    assert!(mqtt.last_incoming >= start && mqtt.last_outgoing >= start);
    let (first_in, first_out) = (mqtt.last_incoming, mqtt.last_outgoing);

    assert!(incoming(&mut mqtt, Packet::PingReq).is_err());
    assert_eq!(mqtt.last_incoming, first_in);
    let before = Instant::now();
    incoming(&mut mqtt, Packet::PingResp).unwrap();
    assert!(mqtt.last_incoming >= before);
    assert_eq!(mqtt.last_outgoing, first_out);

    let before = Instant::now();
    request(&mut mqtt, 1, Request::PingReq(PingReq)).unwrap();
    assert!(mqtt.last_outgoing >= before);
    let last = mqtt.last_outgoing;
    assert!(request(&mut mqtt, 2, Request::PingReq(PingReq)).is_err());
    assert_eq!(mqtt.last_outgoing, last);
}

#[test]
fn given_times_are_kept_unless_refused() {
    let mut mqtt = MqttState::new(10, false);
    let later = Instant::now() + std::time::Duration::from_secs(60);
    let latest = later + std::time::Duration::from_secs(60);
    assert!(mqtt.handle_incoming_packet_at(Packet::PingResp, later).is_ok());
    assert!(mqtt.handle_incoming_packet_at(Packet::PingReq, latest).is_err());
    assert_eq!(mqtt.last_incoming, later);
    let ping = Request::PingReq(PingReq);
    assert!(mqtt.handle_outgoing_packet_at(NoticeTx::new(1), ping, later).is_ok());
    let ping = Request::PingReq(PingReq);
    assert!(mqtt.handle_outgoing_packet_at(NoticeTx::new(2), ping, latest).is_err());
    assert_eq!(mqtt.last_outgoing, later);
}

#[test]
fn foreign_errors_are_wrapped() {
    let error = std::io::Error::new(std::io::ErrorKind::BrokenPipe, "gone");
    match StateError::from(error) {
        StateError::Io(error) => assert_eq!(error.kind(), std::io::ErrorKind::BrokenPipe),
        error => panic!("{:?}", error),
    }
    let error = mqttbytes::Error { reason: "short".to_string() };
    match StateError::from(error) {
        StateError::Deserialization(error) => assert_eq!(error.reason, "short"),
        error => panic!("{:?}", error),
    }
}
