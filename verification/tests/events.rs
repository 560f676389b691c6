use bytes::Bytes;
use for_mqtt::data::common::QoS;
use for_mqtt::data::{AppEvent, EventBuilder, EventField, EventObject, SubscribeAck, SubscribeReasonCode};
use for_mqtt::mqtt::{to_app_event, MqttEvent, Publish, QoSWithPacketId};
use std::sync::Arc;

fn field<'a>(obj: &'a EventObject, name: &str) -> Option<&'a EventField> {
    obj.entries.iter().rev().find(|(k, _)| k == name).map(|(_, v)| v)
}

fn number(obj: &EventObject, name: &str) -> u64 {
    match field(obj, name) {
        Some(EventField::Number(n)) => *n,
        other => panic!("{} is {:?}", name, other),
    }
}

#[test]
fn builder_later_field_wins() {
    let obj = EventBuilder::default()
        .with_param("a", EventField::Number(1))
        .with_param("a", EventField::Bool(true))
        .build();
    assert!(matches!(field(&obj, "a"), Some(EventField::Bool(true))));
}

#[test]
fn connect_ack_event() {
    let (name, data) = AppEvent::ConnectAckSuccess { broker_id: 4, retain: true }.event().unwrap();
    let data = data.unwrap();
    assert_eq!(name, "ClientConnectAckSuccess");
    assert_eq!(number(&data, "broker_id"), 4);
    assert!(matches!(field(&data, "retain"), Some(EventField::Bool(true))));
}

#[test]
fn failure_events() {
    let (name, data) = AppEvent::ConnectAckFail(1, "refused".to_string()).event().unwrap();
    assert_eq!(name, "ClientConnectAckFail");
    assert!(matches!(field(&data.unwrap(), "msg"), Some(EventField::Text(t)) if t == "refused"));
    let (name, _) = AppEvent::ConnectedErr(1, "lost".to_string()).event().unwrap();
    assert_eq!(name, "ClientConnectedErr");
    let (name, data) = AppEvent::Disconnect(9).event().unwrap();
    assert_eq!(name, "ClientDisconnect");
    assert_eq!(number(&data.unwrap(), "broker_id"), 9);
    let (name, data) = AppEvent::PubAck(2, 77).event().unwrap();
    assert_eq!(name, "ClientPubAck");
    assert_eq!(number(&data.unwrap(), "trace_id"), 77);
}

#[test]
fn subscribe_ack_events() {
    let ack = SubscribeAck { id: 11, acks: vec![SubscribeReasonCode::NotAuthorized, SubscribeReasonCode::QoS1] };
    let (name, data) = AppEvent::SubAck { broker_id: 2, ack }.event().unwrap();
    let data = data.unwrap();
    assert_eq!(name, "ClientSubAck");
    assert_eq!(number(&data, "trace_id"), 11);
    assert!(matches!(field(&data, "success"), Some(EventField::Bool(true))));
    assert_eq!(number(&data, "qos"), 1);

    let ack = SubscribeAck { id: 12, acks: vec![SubscribeReasonCode::QoS1, SubscribeReasonCode::NotAuthorized] };
    let (_, data) = AppEvent::SubAck { broker_id: 2, ack }.event().unwrap();
    let data = data.unwrap();
    assert!(matches!(field(&data, "success"), Some(EventField::Bool(false))));
    assert!(matches!(field(&data, "msg"), Some(EventField::Text(t)) if t == "NotAuthorized"));

    let ack = SubscribeAck { id: 13, acks: vec![] };
    assert!(AppEvent::SubAck { broker_id: 2, ack }.event().is_none());
}

#[test]
fn received_publication_event() {
    let event = AppEvent::ReceivePublic {
        broker_id: 5,
        topic: Arc::new("sensors/1".to_string()),
        payload: Arc::new(Bytes::from(vec![1u8, 200, 3])),
        qos: QoS::ExactlyOnce,
    };
    let (name, data) = event.event().unwrap();
    let data = data.unwrap();
    assert_eq!(name, "ClientReceivePublic");
    assert!(matches!(field(&data, "topic"), Some(EventField::Text(t)) if t == "sensors/1"));
    assert!(matches!(field(&data, "payload"), Some(EventField::Numbers(v)) if v == &vec![1u8, 200, 3]));
    assert_eq!(number(&data, "qos"), 2);
}

#[test]
fn mqtt_events_map_to_app_events() {
    assert!(matches!(to_app_event(3, MqttEvent::ConnectSuccess(false)), Some(AppEvent::ConnectAckSuccess { broker_id: 3, retain: false })));
    assert!(matches!(to_app_event(3, MqttEvent::PublishSuccess(8)), Some(AppEvent::PubAck(3, 8))));
    assert!(to_app_event(3, MqttEvent::PublishFail("x".to_string())).is_none());
    assert!(to_app_event(3, MqttEvent::SubscribeFail("x".to_string())).is_none());
    assert!(to_app_event(3, MqttEvent::UnsubscribeFail("x".to_string())).is_none());
    assert!(matches!(to_app_event(3, MqttEvent::Disconnected), Some(AppEvent::Disconnect(3))));
    let publish = Publish {
        qos: QoSWithPacketId::AtLeastOnce(4),
        topic: Arc::new("t".to_string()),
        payload: Arc::new(Bytes::from(vec![9u8])),
    };
    match to_app_event(3, MqttEvent::Publish(publish)) {
        Some(AppEvent::ReceivePublic { broker_id, topic, payload, qos }) => {
            assert_eq!(broker_id, 3);
            assert_eq!(topic.as_str(), "t");
            assert_eq!(payload.to_vec(), vec![9u8]);
            assert_eq!(qos, QoS::AtLeastOnce);
        }
        other => panic!("unexpected {:?}", other),
    }
}
