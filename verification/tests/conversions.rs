use for_mqtt::command::error::Error;
use for_mqtt::command::view::{BrokerView, TlsView};
use for_mqtt::config::{AutoRetract, Config};
use for_mqtt::data::common::{Msg, PayloadTy, Protocol, PublicMsg, PublishHis, PublishInput, QoS, SubscribeHis, SubscribeInput, SubscribeTopic};
use for_mqtt::data::db::{BrokerDB, Credentials, DbKey, Tls};
use for_mqtt::data::localized::Locale;
use for_mqtt::mqtt::data::MqttSubscribeInput;
use for_mqtt::mqtt::QoSWithPacketId;
use for_mqtt::util::consts::QosToString;

fn view() -> BrokerView {
    BrokerView {
        id: 3,
        name: "n".to_string(),
        client_id: "c".to_string(),
        addr: "host".to_string(),
        port: 8883,
        auto_connect: true,
        credential: true,
        user_name: "user".to_string(),
        password: "secret".to_string(),
        version: Protocol::V4,
        tls: TlsView::Insecurity,
        self_signed_ca: "".to_string(),
        params: "{}".to_string(),
    }
}

#[test]
fn view_record_view_round_trip() {
    let v = view();
    let db = BrokerDB::from(v.clone());
    assert!(matches!(&db.credentials, Credentials::Credentials { user_name, password } if user_name == "user" && password == "secret"));
    assert!(matches!(db.tls, Tls::Insecurity));
    assert!(db.subscribe_his.is_empty() && db.publish_his.is_empty());
    let v2 = BrokerView::from(db);
    assert_eq!(v2.id, v.id);
    assert_eq!(v2.name, v.name);
    assert_eq!(v2.client_id, v.client_id);
    assert_eq!(v2.addr, v.addr);
    assert_eq!(v2.port, v.port);
    assert_eq!(v2.auto_connect, v.auto_connect);
    assert_eq!(v2.credential, v.credential);
    assert_eq!(v2.user_name, v.user_name);
    assert_eq!(v2.password, v.password);
    assert_eq!(v2.version, v.version);
    assert_eq!(v2.tls, v.tls);
    assert_eq!(v2.self_signed_ca, v.self_signed_ca);
    assert_eq!(v2.params, v.params);
}

#[test]
fn storing_drops_unused_fields() {
    let mut v = view();
    v.credential = false;
    v.tls = TlsView::Ca;
    v.self_signed_ca = "/unused".to_string();
    let db = BrokerDB::from(v);
    assert!(matches!(db.credentials, Credentials::NoCredentials));
    assert!(matches!(db.tls, Tls::Ca));
    let v2 = BrokerView::from(db);
    assert!(!v2.credential);
    assert_eq!(v2.user_name, "");
    assert_eq!(v2.password, "");
    assert_eq!(v2.self_signed_ca, "");
}

#[test]
fn tls_names() {
    assert_eq!(Tls::NoTls.to_string(), "none");
    assert_eq!(Tls::Ca.to_string(), "ca");
    assert_eq!(Tls::Insecurity.to_string(), "insecurity");
    assert_eq!(Tls::SelfSigned { self_signed_ca: "x".to_string() }.to_string(), "self signed");
}

#[test]
fn inputs_become_histories_and_subscriptions() {
    let input = SubscribeInput { broker_id: 1, trace_id: 5, topic: "t/+".to_string(), qos: QoS::ExactlyOnce, payload_ty: PayloadTy::Hex };
    let topic = SubscribeTopic::from(input.clone());
    assert_eq!(topic.broker_id, 1);
    assert_eq!(topic.trace_id, 5);
    assert_eq!(topic.topic, "t/+");
    let his_a = SubscribeHis::from(input);
    let his_b = SubscribeHis::from(topic.clone());
    assert_eq!(his_a, his_b);
    let mqtt = MqttSubscribeInput::from(topic);
    assert_eq!(mqtt.trace_id, 5);
    assert_eq!(mqtt.topic, "t/+");
    assert_eq!(mqtt.qos, QoS::ExactlyOnce);
    let p = PublishInput { broker_id: 1, topic: "x".to_string(), msg: "m".to_string(), qos: QoS::AtMostOnce, retain: true, trace_id: 3, payload_ty: PayloadTy::Text };
    let h = PublishHis::from(p);
    assert_eq!(h, PublishHis { topic: "x".to_string(), msg: "m".to_string(), qos: QoS::AtMostOnce, payload_ty: PayloadTy::Text, retain: true });
    let m = PublicMsg { trace_id: 1, topic: "a".to_string(), msg: "b".to_string(), qos: "0".to_string(), payload_ty: "T".to_string(), time: "12:00:00".to_string() };
    assert_eq!(Msg::from(m.clone()), Msg::Public(m));
}

#[test]
fn qos_with_packet_id() {
    assert_eq!(QoS::from(QoSWithPacketId::AtMostOnce), QoS::AtMostOnce);
    assert_eq!(QoS::from(QoSWithPacketId::AtLeastOnce(7)), QoS::AtLeastOnce);
    assert_eq!(QoS::from(QoSWithPacketId::ExactlyOnce(7)), QoS::ExactlyOnce);
    assert_eq!(QoSWithPacketId::ExactlyOnce(9).qos_to_string(), "2");
    assert_eq!(QoS::AtLeastOnce.qos_to_string(), "1");
}

#[test]
fn config_defaults() {
    assert_eq!(Config::init(Some(Config { debug: true })), (Config { debug: true }, false));
    assert_eq!(Config::init(None), (Config { debug: false }, true));
    assert_eq!(AutoRetract::default(), AutoRetract::Open(30));
}

#[test]
fn errors_carry_messages() {
    let r: Result<u8, Error> = Error::init_rs("bad".to_string());
    assert_eq!(r.unwrap_err().msg, "bad");
    assert_eq!(Error::init("worse".to_string()).msg, "worse");
    assert_eq!(Error::from("from".to_string()).msg, "from");
}

#[test]
fn keys_and_locales() {
    assert_eq!(DbKey::broker_key(4), DbKey::Broker(4));
    assert_eq!(Locale::default().copy_github, "copy github addr");
    assert_eq!(Locale::default_zh_cn().save, "保存");
}
