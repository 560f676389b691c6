use for_mqtt::data::common::Protocol;
use for_mqtt::data::db::{BrokerDB, Credentials, Tls};
use for_mqtt::util::db::{ArcDb, StoreOp};
use for_mqtt::util::push_decimal;

fn record(id: usize) -> BrokerDB {
    BrokerDB {
        id,
        protocol: Protocol::V4,
        client_id: "c".to_string(),
        name: "n".to_string(),
        addr: "a".to_string(),
        port: 1,
        params: "{}".to_string(),
        credentials: Credentials::NoCredentials,
        auto_connect: false,
        tls: Tls::NoTls,
        subscribe_his: vec![],
        publish_his: vec![],
    }
}

#[test]
fn save_known_id_writes_only_record() {
    let mut db = ArcDb::init_db();
    db.save_broker(&record(3));
    let ops = db.save_broker(&record(3));
    assert_eq!(ops.len(), 1);
    assert!(matches!(&ops[0], StoreOp::PutBroker(b) if b.id == 3));
    assert_eq!(db.ids, vec![3]);
}

#[test]
fn delete_undoes_save() {
    let mut db = ArcDb::init_db();
    db.save_broker(&record(1));
    db.save_broker(&record(2));
    let before = db.ids.clone();
    db.save_broker(&record(9));
    let ops = db.delete_broker(9);
    assert_eq!(db.ids, before);
    assert!(matches!(&ops[0], StoreOp::PutIds(ids) if ids == &before));
    assert!(matches!(&ops[1], StoreOp::RemoveBroker(9)));
    assert!(db.delete_broker(9).is_empty());
}

#[test]
fn next_broker_id_is_new() {
    let mut db = ArcDb::init_db();
    let _ = db.read_app_data(Some(vec![3, 12, 5]), vec![None, None, None]);
    let id = db.next_broker_id();
    assert_eq!(id, 13);
    assert!(!db.ids.contains(&id));
    assert_eq!(db.next_broker_id(), 14);
}

#[test]
fn decimal_text() {
    let mut s = "n=".to_string();
    push_decimal(&mut s, 0);
    push_decimal(&mut s, 1090);
    assert_eq!(s, "n=01090");
    let mut t = String::new();
    push_decimal(&mut t, usize::MAX);
    assert_eq!(t, usize::MAX.to_string());
}
