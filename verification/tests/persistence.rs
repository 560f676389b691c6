use for_mqtt::data::common::Protocol;
use for_mqtt::data::db::{BrokerDB, Credentials, Tls};
use for_mqtt::util::db::{ArcDb, StoreOp};
use std::collections::HashMap;

fn record(id: usize, name: &str) -> BrokerDB {
    BrokerDB {
        id,
        protocol: Protocol::V4,
        client_id: format!("client{}", id),
        name: name.to_string(),
        addr: "broker-cn.emqx.io".to_string(),
        port: 1883,
        params: "{}".to_string(),
        credentials: Credentials::NoCredentials,
        auto_connect: true,
        tls: Tls::NoTls,
        subscribe_his: vec![],
        publish_his: vec![],
    }
}

/// A store in memory: the id list, once written, and the records by id.
#[derive(Default)]
struct MemStore {
    ids: Option<Vec<usize>>,
    records: HashMap<usize, BrokerDB>,
}

impl MemStore {
    fn apply(&mut self, ops: Vec<StoreOp>) {
        for op in ops {
            match op {
                StoreOp::PutIds(v) => self.ids = Some(v),
                StoreOp::PutBroker(b) => {
                    self.records.insert(b.id, b);
                }
                StoreOp::RemoveBroker(id) => {
                    self.records.remove(&id);
                }
            }
        }
    }

    fn load(&self) -> Vec<BrokerDB> {
        let records: Vec<Option<BrokerDB>> = match &self.ids {
            Some(ids) => ids.iter().map(|id| self.records.get(id).cloned()).collect(),
            None => vec![],
        };
        let mut ledger = ArcDb::init_db();
        let app = ledger.read_app_data(self.ids.clone(), records);
        app.brokers.into_iter().map(|b| b.data).collect()
    }
}

#[test]
fn saved_broker_is_loaded_again() {
    let mut store = MemStore::default();
    let mut app = ArcDb::init_db().read_app_data(None, vec![]);
    let (ops, rs) = app.save_broker(record(1, "emq"));
    assert!(rs.is_ok());
    store.apply(ops);
    let (ops, rs) = app.save_broker(record(2, "mosquitto"));
    assert!(rs.is_ok());
    store.apply(ops);
    assert_eq!(store.ids, Some(vec![1, 2]));
    let loaded = store.load();
    assert_eq!(loaded.len(), 2);
    assert_eq!(loaded[0].name, "emq");
    assert_eq!(loaded[1].name, "mosquitto");
    assert_eq!(loaded[1].id, 2);
}

#[test]
fn resaved_broker_is_loaded_with_new_data() {
    let mut store = MemStore::default();
    let mut app = ArcDb::init_db().read_app_data(None, vec![]);
    let (ops, _) = app.save_broker(record(1, "emq"));
    store.apply(ops);
    let (ops, rs) = app.save_broker(record(1, "renamed"));
    assert!(rs.is_ok());
    assert_eq!(ops.len(), 1);
    store.apply(ops);
    let loaded = store.load();
    assert_eq!(loaded.len(), 1);
    assert_eq!(loaded[0].name, "renamed");
}

#[test]
fn deleted_broker_is_not_loaded_again() {
    let mut store = MemStore::default();
    let mut app = ArcDb::init_db().read_app_data(None, vec![]);
    for (id, name) in [(1, "a"), (2, "b"), (3, "c")] {
        let (ops, _) = app.save_broker(record(id, name));
        store.apply(ops);
    }
    let ops = app.delete_broker(2);
    assert_eq!(ops.len(), 2);
    store.apply(ops);
    assert_eq!(store.ids, Some(vec![1, 3]));
    assert!(!store.records.contains_key(&2));
    let loaded = store.load();
    assert_eq!(loaded.iter().map(|b| b.id).collect::<Vec<_>>(), vec![1, 3]);
    let ops = app.delete_broker(2);
    assert!(ops.is_empty());
}
