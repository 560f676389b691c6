use for_mqtt::command::view::{BrokerView, TlsView};
use for_mqtt::data::common::{PayloadTy, Protocol, PublishHis, PublishInput, QoS, SubscribeHis, SubscribeInput};
use for_mqtt::data::db::{BrokerDB, Credentials, Tls};
use for_mqtt::data::hierarchy::App;
use for_mqtt::util::db::{ArcDb, StoreOp};

fn record(id: usize, name: &str) -> BrokerDB {
    BrokerDB {
        id,
        protocol: Protocol::V5,
        client_id: format!("client{}", id),
        name: name.to_string(),
        addr: "127.0.0.1".to_string(),
        port: 1883,
        params: "{}".to_string(),
        credentials: Credentials::NoCredentials,
        auto_connect: false,
        tls: Tls::NoTls,
        subscribe_his: vec![],
        publish_his: vec![],
    }
}

fn app_with(ids: &[usize]) -> App {
    let mut db = ArcDb::init_db();
    let records: Vec<Option<BrokerDB>> = ids.iter().map(|id| Some(record(*id, "b"))).collect();
    db.read_app_data(Some(ids.to_vec()), records)
}

fn sub(broker_id: usize, topic: &str) -> SubscribeInput {
    SubscribeInput { broker_id, trace_id: 1, topic: topic.to_string(), qos: QoS::AtLeastOnce, payload_ty: PayloadTy::Json }
}

fn his(topic: &str) -> SubscribeHis {
    SubscribeHis { topic: topic.to_string(), qos: QoS::AtLeastOnce, payload_ty: PayloadTy::Json }
}

fn publish(broker_id: usize, msg: &str) -> PublishInput {
    PublishInput {
        broker_id,
        topic: "t".to_string(),
        msg: msg.to_string(),
        qos: QoS::ExactlyOnce,
        retain: false,
        trace_id: 2,
        payload_ty: PayloadTy::Text,
    }
}

#[test]
fn read_app_data_loads_listed_records() {
    let mut db = ArcDb::init_db();
    let mut stored = record(99, "second");
    stored.id = 99;
    let app = db.read_app_data(Some(vec![4, 7, 2]), vec![Some(record(0, "first")), None, Some(stored)]);
    assert_eq!(db.ids, vec![4, 7, 2]);
    assert_eq!(db.index, 7);
    assert_eq!(app.brokers.len(), 2);
    assert_eq!(app.brokers[0].data.id, 4);
    assert_eq!(app.brokers[0].data.name, "first");
    assert_eq!(app.brokers[1].data.id, 2);
    assert_eq!(app.brokers[1].data.name, "second");
    assert_eq!(app.db.ids, vec![4, 7, 2]);
    assert_eq!(app.hint, "");
}

#[test]
fn read_app_data_without_list() {
    let mut db = ArcDb::init_db();
    let app = db.read_app_data(None, vec![]);
    assert!(app.brokers.is_empty());
    assert!(db.ids.is_empty());
    assert_eq!(db.index, 0);
}

#[test]
fn save_new_broker_then_find_it() {
    let mut app = app_with(&[1]);
    let (ops, res) = app.save_broker(record(5, "new"));
    assert!(res.is_ok());
    assert_eq!(ops.len(), 2);
    assert!(matches!(&ops[0], StoreOp::PutIds(ids) if ids == &vec![1, 5]));
    assert!(matches!(&ops[1], StoreOp::PutBroker(b) if b.id == 5 && b.name == "new"));
    let found = app.connect_to_broker(5).unwrap();
    assert_eq!(found.data.name, "new");
    assert_eq!(app.db.ids, vec![1, 5]);
}

#[test]
fn save_known_broker_replaces_data() {
    let mut app = app_with(&[1, 2]);
    let (ops, res) = app.save_broker(record(2, "renamed"));
    assert!(res.is_ok());
    assert_eq!(ops.len(), 1);
    assert_eq!(app.brokers.len(), 2);
    assert_eq!(app.brokers[1].data.name, "renamed");
    assert_eq!(app.db.ids, vec![1, 2]);
}

#[test]
fn save_known_id_without_broker_fails() {
    let mut db = ArcDb::init_db();
    let mut app = db.read_app_data(Some(vec![3]), vec![None]);
    let (ops, res) = app.save_broker(record(3, "x"));
    assert_eq!(ops.len(), 1);
    assert_eq!(res.unwrap_err().msg, "could not find broker");
    assert!(app.brokers.is_empty());
}

#[test]
fn subscribe_history_is_kept_once() {
    let mut app = app_with(&[1]);
    let ops = app.update_subscribe_his(sub(1, "a/#")).unwrap();
    assert_eq!(ops.len(), 1);
    assert!(matches!(&ops[0], StoreOp::PutBroker(b) if b.subscribe_his.len() == 1));
    let ops = app.update_subscribe_his(sub(1, "a/#")).unwrap();
    assert!(ops.is_empty());
    assert_eq!(app.brokers[0].data.subscribe_his, vec![his("a/#")]);
}

#[test]
fn publish_history_is_kept_once() {
    let mut app = app_with(&[1]);
    let ops = app.update_publish_his(publish(1, "m")).unwrap();
    assert_eq!(ops.len(), 1);
    assert!(matches!(&ops[0], StoreOp::PutBroker(b) if b.publish_his.len() == 1));
    let ops = app.update_publish_his(publish(1, "m")).unwrap();
    assert!(ops.is_empty());
    assert_eq!(app.brokers[0].data.publish_his.len(), 1);
    let ops = app.update_publish_his(publish(1, "other")).unwrap();
    assert_eq!(ops.len(), 1);
    assert_eq!(app.brokers[0].data.publish_his.len(), 2);
}

#[test]
fn subscribe_history_of_unknown_broker_fails() {
    let mut app = app_with(&[1]);
    let err = app.update_subscribe_his(sub(42, "a")).unwrap_err();
    assert_eq!(err.msg, "could not find broker:42");
    let err = app.update_publish_his(publish(1234567, "m")).unwrap_err();
    assert_eq!(err.msg, "could not find broker:1234567");
}

#[test]
fn histories_come_back_newest_first() {
    let mut app = app_with(&[1]);
    app.update_subscribe_his(sub(1, "a")).unwrap();
    app.update_subscribe_his(sub(1, "b")).unwrap();
    app.update_publish_his(publish(1, "one")).unwrap();
    app.update_publish_his(publish(1, "two")).unwrap();
    let subs = app.subscribe_his(1);
    assert_eq!(subs, vec![his("b"), his("a")]);
    let pubs: Vec<String> = app.publish_his(1).into_iter().map(|h| h.msg).collect();
    assert_eq!(pubs, vec!["two".to_string(), "one".to_string()]);
    assert!(app.subscribe_his(9).is_empty());
    assert!(app.publish_his(9).is_empty());
}

#[test]
fn delete_undoes_update_of_history() {
    let mut app = app_with(&[1]);
    app.update_subscribe_his(sub(1, "keep")).unwrap();
    app.update_subscribe_his(sub(1, "gone")).unwrap();
    let ops = app.delete_subscribe_his(1, his("gone")).unwrap();
    assert_eq!(ops.len(), 1);
    assert_eq!(app.brokers[0].data.subscribe_his, vec![his("keep")]);
    let published = PublishHis {
        topic: "t".to_string(),
        msg: "one".to_string(),
        qos: QoS::ExactlyOnce,
        payload_ty: PayloadTy::Text,
        retain: false,
    };
    app.update_publish_his(publish(1, "one")).unwrap();
    app.delete_publish_his(1, published).unwrap();
    assert!(app.brokers[0].data.publish_his.is_empty());
}

#[test]
fn delete_history_errors() {
    let mut app = app_with(&[1]);
    let err = app.delete_subscribe_his(8, his("a")).unwrap_err();
    assert_eq!(err.msg, "not found broker 8");
    let err = app.delete_subscribe_his(1, his("a")).unwrap_err();
    assert_eq!(err.msg, "not found publish his");
    let published = PublishHis {
        topic: "t".to_string(),
        msg: "m".to_string(),
        qos: QoS::AtMostOnce,
        payload_ty: PayloadTy::Text,
        retain: true,
    };
    let err = app.delete_publish_his(1, published).unwrap_err();
    assert_eq!(err.msg, "not found publish his");
}

#[test]
fn delete_broker_forgets_it() {
    let mut app = app_with(&[1, 2, 3]);
    let ops = app.delete_broker(2);
    assert_eq!(ops.len(), 2);
    assert!(matches!(&ops[0], StoreOp::PutIds(ids) if ids == &vec![1, 3]));
    assert!(matches!(&ops[1], StoreOp::RemoveBroker(2)));
    let ids: Vec<usize> = app.brokers.iter().map(|b| b.data.id).collect();
    assert_eq!(ids, vec![1, 3]);
    assert_eq!(app.connect_to_broker(2).unwrap_err().msg, "not found broker 2");
    assert!(app.delete_broker(2).is_empty());
}

#[test]
fn broker_list_shows_every_broker() {
    let mut app = app_with(&[1]);
    let mut view = BrokerView::from(record(6, "secure"));
    view.credential = true;
    view.user_name = "u".to_string();
    view.password = "p".to_string();
    view.tls = TlsView::SelfSigned;
    view.self_signed_ca = "/ca.pem".to_string();
    app.save_broker(BrokerDB::from(view)).1.unwrap();
    let list = app.broker_list();
    assert_eq!(list.brokers.len(), 2);
    assert_eq!(list.brokers[0].id, 1);
    assert!(!list.brokers[0].credential);
    assert_eq!(list.brokers[0].tls, TlsView::NoTls);
    assert_eq!(list.brokers[1].id, 6);
    assert!(list.brokers[1].credential);
    assert_eq!(list.brokers[1].user_name, "u");
    assert_eq!(list.brokers[1].tls, TlsView::SelfSigned);
    assert_eq!(list.brokers[1].self_signed_ca, "/ca.pem");
}
