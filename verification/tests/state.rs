use rumqttc::mqttbytes::{
    Packet, PubAck, PubComp, PubRec, PubRel, Publish, QoS,
};
use rumqttc::{Event, Incoming, MqttState, NoticeTx, Outgoing, Request, StateError};
use std::collections::VecDeque;

fn build_outgoing_publish(qos: QoS) -> Publish {
    let topic = "hello/world".to_owned();
    let payload = vec![1, 2, 3];

    let mut publish = Publish::new(topic, QoS::AtLeastOnce, payload);
    publish.qos = qos;
    publish
}

fn build_incoming_publish(qos: QoS, pkid: u16) -> Publish {
    let topic = "hello/world".to_owned();
    let payload = vec![1, 2, 3];

    let mut publish = Publish::new(topic, QoS::AtLeastOnce, payload);
    publish.pkid = pkid;
    publish.qos = qos;
    publish
}

fn build_mqttstate() -> MqttState {
    MqttState::new(100, false)
}

#[test]
fn next_pkid_increments_as_expected() {
    let mut mqtt = build_mqttstate();

    for i in 1..=100 {
        let pkid = mqtt.next_pkid();

        // loops between 0-99. % 100 == 0 implies border
        let expected = i % 100;
        if expected == 0 {
            break;
        }

        assert_eq!(expected, pkid);
    }
}

#[test]
fn outgoing_publish_should_set_pkid_and_add_publish_to_queue() {
    let mut mqtt = build_mqttstate();

    // QoS0 Publish
    let publish = build_outgoing_publish(QoS::AtMostOnce);

    // QoS 0 publish shouldn't be saved in queue
    let tx = NoticeTx::new(1);
    mqtt.outgoing_publish(publish, tx).unwrap();
    assert_eq!(mqtt.last_pkid, 0);
    assert_eq!(mqtt.inflight, 0);

    // QoS1 Publish
    let publish = build_outgoing_publish(QoS::AtLeastOnce);

    // Packet id should be set and publish should be saved in queue
    let tx = NoticeTx::new(2);
    mqtt.outgoing_publish(publish.clone(), tx).unwrap();
    assert_eq!(mqtt.last_pkid, 1);
    assert_eq!(mqtt.inflight, 1);

    // Packet id should be incremented and publish should be saved in queue
    let tx = NoticeTx::new(3);
    mqtt.outgoing_publish(publish, tx).unwrap();
    assert_eq!(mqtt.last_pkid, 2);
    assert_eq!(mqtt.inflight, 2);

    // QoS1 Publish
    let publish = build_outgoing_publish(QoS::ExactlyOnce);

    // Packet id should be set and publish should be saved in queue
    let tx = NoticeTx::new(4);
    mqtt.outgoing_publish(publish.clone(), tx).unwrap();
    assert_eq!(mqtt.last_pkid, 3);
    assert_eq!(mqtt.inflight, 3);

    // Packet id should be incremented and publish should be saved in queue
    let tx = NoticeTx::new(5);
    mqtt.outgoing_publish(publish, tx).unwrap();
    assert_eq!(mqtt.last_pkid, 4);
    assert_eq!(mqtt.inflight, 4);
}

#[test]
fn incoming_publish_should_be_added_to_queue_correctly() {
    let mut mqtt = build_mqttstate();

    // QoS0, 1, 2 Publishes
    let publish1 = build_incoming_publish(QoS::AtMostOnce, 1);
    let publish2 = build_incoming_publish(QoS::AtLeastOnce, 2);
    let publish3 = build_incoming_publish(QoS::ExactlyOnce, 3);

    mqtt.handle_incoming_publish(&publish1).unwrap();
    mqtt.handle_incoming_publish(&publish2).unwrap();
    mqtt.handle_incoming_publish(&publish3).unwrap();

    let pkid = mqtt.incoming_pub[3].unwrap();

    // only qos2 publish should be add to queue
    assert_eq!(pkid, 3);
}

#[test]
fn incoming_publish_should_be_acked() {
    let mut mqtt = build_mqttstate();

    // QoS0, 1, 2 Publishes
    let publish1 = build_incoming_publish(QoS::AtMostOnce, 1);
    let publish2 = build_incoming_publish(QoS::AtLeastOnce, 2);
    let publish3 = build_incoming_publish(QoS::ExactlyOnce, 3);

    mqtt.handle_incoming_publish(&publish1).unwrap();
    mqtt.handle_incoming_publish(&publish2).unwrap();
    mqtt.handle_incoming_publish(&publish3).unwrap();

    if let Event::Outgoing(Outgoing::PubAck(pkid)) = mqtt.events[0] {
        assert_eq!(pkid, 2);
    } else {
        panic!("missing puback");
    }

    if let Event::Outgoing(Outgoing::PubRec(pkid)) = mqtt.events[1] {
        assert_eq!(pkid, 3);
    } else {
        panic!("missing PubRec");
    }
}

#[test]
fn incoming_publish_should_not_be_acked_with_manual_acks() {
    let mut mqtt = build_mqttstate();
    mqtt.manual_acks = true;

    // QoS0, 1, 2 Publishes
    let publish1 = build_incoming_publish(QoS::AtMostOnce, 1);
    let publish2 = build_incoming_publish(QoS::AtLeastOnce, 2);
    let publish3 = build_incoming_publish(QoS::ExactlyOnce, 3);

    mqtt.handle_incoming_publish(&publish1).unwrap();
    mqtt.handle_incoming_publish(&publish2).unwrap();
    mqtt.handle_incoming_publish(&publish3).unwrap();

    let pkid = mqtt.incoming_pub[3].unwrap();
    assert_eq!(pkid, 3);

    assert!(mqtt.events.is_empty());
}

#[test]
fn incoming_qos2_publish_should_send_rec_to_network_and_publish_to_user() {
    let mut mqtt = build_mqttstate();
    let publish = build_incoming_publish(QoS::ExactlyOnce, 1);

    let packet = mqtt.handle_incoming_publish(&publish).unwrap().unwrap();
    match packet {
        Packet::PubRec(pubrec) => assert_eq!(pubrec.pkid, 1),
        _ => panic!("Invalid network request: {:?}", packet),
    }
}

#[test]
fn incoming_puback_should_remove_correct_publish_from_queue() {
    let mut mqtt = build_mqttstate();

    let publish1 = build_outgoing_publish(QoS::AtLeastOnce);
    let publish2 = build_outgoing_publish(QoS::ExactlyOnce);

    let tx = NoticeTx::new(1);
    mqtt.outgoing_publish(publish1, tx).unwrap();
    let tx = NoticeTx::new(2);
    mqtt.outgoing_publish(publish2, tx).unwrap();
    assert_eq!(mqtt.inflight, 2);

    mqtt.handle_incoming_puback(&PubAck::new(1)).unwrap();
    assert_eq!(mqtt.inflight, 1);

    mqtt.handle_incoming_pubrec(&PubRec::new(2)).unwrap();
    assert_eq!(mqtt.inflight, 1);

    let tx = NoticeTx::new(3);
    mqtt.outgoing_pubrel(PubRel::new(2), tx).unwrap();
    assert_eq!(mqtt.inflight, 1);

    mqtt.handle_incoming_pubcomp(&PubComp::new(2)).unwrap();
    assert_eq!(mqtt.inflight, 0);

    assert!(mqtt.outgoing_pub1.get(0).is_none());
    assert!(mqtt.outgoing_pub2.get(0).is_none());
}

#[test]
fn incoming_puback_with_pkid_greater_than_max_inflight_should_be_handled_gracefully() {
    let mut mqtt = build_mqttstate();

    let got = mqtt.handle_incoming_puback(&PubAck::new(101)).unwrap_err();

    match got {
        StateError::Unsolicited(pkid) => assert_eq!(pkid, 101),
        e => panic!("Unexpected error: {:?}", e),
    }
}

#[test]
fn incoming_pubrec_should_release_publish_from_queue_and_add_relid_to_rel_queue() {
    let mut mqtt = build_mqttstate();

    let publish1 = build_outgoing_publish(QoS::AtLeastOnce);
    let publish2 = build_outgoing_publish(QoS::ExactlyOnce);

    let tx = NoticeTx::new(1);
    let _publish_out = mqtt.outgoing_publish(publish1, tx);
    let tx = NoticeTx::new(2);
    let _publish_out = mqtt.outgoing_publish(publish2, tx);

    mqtt.handle_incoming_pubrec(&PubRec::new(2)).unwrap();
    assert_eq!(mqtt.inflight, 2);

    // check if the remaining element's pkid is 1
    let (backup, _) = mqtt.outgoing_pub1.get(0).unwrap();
    assert_eq!(backup.pkid, 1);

    // check if the qos2 element's release pkik has been set
    assert!(mqtt.outgoing_rel.get(0).is_some());
}

#[test]
fn incoming_pubrec_should_send_release_to_network_and_nothing_to_user() {
    let mut mqtt = build_mqttstate();

    let publish = build_outgoing_publish(QoS::ExactlyOnce);
    let tx = NoticeTx::new(1);
    let packet = mqtt.outgoing_publish(publish, tx).unwrap().unwrap();
    match packet {
        Packet::Publish(publish) => assert_eq!(publish.pkid, 1),
        packet => panic!("Invalid network request: {:?}", packet),
    }

    let packet = mqtt
        .handle_incoming_pubrec(&PubRec::new(1))
        .unwrap()
        .unwrap();
    match packet {
        Packet::PubRel(pubrel) => assert_eq!(pubrel.pkid, 1),
        packet => panic!("Invalid network request: {:?}", packet),
    }
}

#[test]
fn incoming_pubrel_should_send_comp_to_network_and_nothing_to_user() {
    let mut mqtt = build_mqttstate();
    let publish = build_incoming_publish(QoS::ExactlyOnce, 1);

    let packet = mqtt.handle_incoming_publish(&publish).unwrap().unwrap();
    match packet {
        Packet::PubRec(pubrec) => assert_eq!(pubrec.pkid, 1),
        packet => panic!("Invalid network request: {:?}", packet),
    }

    let packet = mqtt
        .handle_incoming_pubrel(&PubRel::new(1))
        .unwrap()
        .unwrap();
    match packet {
        Packet::PubComp(pubcomp) => assert_eq!(pubcomp.pkid, 1),
        packet => panic!("Invalid network request: {:?}", packet),
    }
}

#[test]
fn incoming_pubcomp_should_release_correct_pkid_from_release_queue() {
    let mut mqtt = build_mqttstate();
    let publish = build_outgoing_publish(QoS::ExactlyOnce);

    let tx = NoticeTx::new(1);
    mqtt.outgoing_publish(publish, tx).unwrap();
    mqtt.handle_incoming_pubrec(&PubRec::new(1)).unwrap();

    mqtt.handle_incoming_pubcomp(&PubComp::new(1)).unwrap();
    assert_eq!(mqtt.inflight, 0);
}

#[test]
fn outgoing_ping_handle_should_throw_errors_for_no_pingresp() {
    let mut mqtt = build_mqttstate();
    mqtt.outgoing_ping().unwrap();

    // network activity other than pingresp
    let publish = build_outgoing_publish(QoS::AtLeastOnce);
    let tx = NoticeTx::new(1);
    mqtt.handle_outgoing_packet(tx, Request::Publish(publish))
        .unwrap();
    mqtt.handle_incoming_packet(Incoming::PubAck(PubAck::new(1)))
        .unwrap();

    // should throw error because we didn't get pingresp for previous ping
    match mqtt.outgoing_ping() {
        Ok(_) => panic!("Should throw pingresp await error"),
        Err(StateError::AwaitPingResp) => (),
        Err(e) => panic!("Should throw pingresp await error. Error = {:?}", e),
    }
}

#[test]
fn outgoing_ping_handle_should_succeed_if_pingresp_is_received() {
    let mut mqtt = build_mqttstate();

    // should ping
    mqtt.outgoing_ping().unwrap();
    mqtt.handle_incoming_packet(Incoming::PingResp).unwrap();

    // should ping
    mqtt.outgoing_ping().unwrap();
}

fn build_outgoing_pub() -> VecDeque<(Publish, NoticeTx)> {
    let mut outgoing_pub = VecDeque::new();
    for pkid in [1, 2, 3, 6] {
        let tx = NoticeTx::new(pkid as u64);
        outgoing_pub.push_back((
            Publish {
                dup: false,
                qos: QoS::AtMostOnce,
                retain: false,
                topic: "test".to_string(),
                pkid,
                payload: "".into(),
            },
            tx,
        ));
    }
    outgoing_pub
}

#[test]
fn clean_is_calculating_pending_correctly() {
    let mut mqtt = build_mqttstate();

    mqtt.outgoing_pub1 = build_outgoing_pub();
    mqtt.last_puback = 3;
    let requests = mqtt.clean();
    let res = vec![6, 1, 2, 3];
    for ((_, req), idx) in requests.iter().zip(res) {
        if let Request::Publish(publish) = req {
            assert_eq!(publish.pkid, idx);
        } else {
            unreachable!()
        }
    }

    mqtt.outgoing_pub1 = build_outgoing_pub();
    mqtt.last_puback = 0;
    let requests = mqtt.clean();
    let res = vec![1, 2, 3, 6];
    for ((_, req), idx) in requests.iter().zip(res) {
        if let Request::Publish(publish) = req {
            assert_eq!(publish.pkid, idx);
        } else {
            unreachable!()
        }
    }

    mqtt.outgoing_pub1 = build_outgoing_pub();
    mqtt.last_puback = 6;
    let requests = mqtt.clean();
    let res = vec![1, 2, 3, 6];
    for ((_, req), idx) in requests.iter().zip(res) {
        if let Request::Publish(publish) = req {
            assert_eq!(publish.pkid, idx);
        } else {
            unreachable!()
        }
    }
}
