use for_mqtt::data::common::Protocol;
use for_mqtt::data::db::{BrokerDB, Credentials, Tls};
use for_mqtt::mqtt::SomeMqttOption;
use for_mqtt::util::db::{ArcDb, StoreOp};
use for_mqtt::util::{general_id, ID_CHARS};

#[test]
fn test() {
    println!("{}", u16::MAX);
    for _ in 0..3 {
        let id = general_id();
        println!("{}", id);
        assert_eq!(id.chars().count(), 8);
        assert!(id.chars().all(|c| ID_CHARS.contains(&c)));
    }
}

#[test]
fn test_option() {
    let option = SomeMqttOption::default();
    println!("{:?}", option);

    let option_str = r#"{
	"keep_alive": 60,
	"clean_session": true,
	"max_incoming_packet_size": 10240,
	"max_outgoing_packet_size": 10240,
	"inflight": 100,
	"conn_timeout": 5
}
        "#;
    let parsed: serde_json::Value = serde_json::from_str(option_str).unwrap();
    println!("{:?}", parsed);
    assert_eq!(parsed["keep_alive"].as_u64(), Some(option.keep_alive as u64));
    assert_eq!(parsed["clean_session"].as_bool(), Some(option.clean_session));
    assert_eq!(
        parsed["max_incoming_packet_size"].as_u64(),
        Some(option.max_incoming_packet_size as u64)
    );
    assert_eq!(
        parsed["max_outgoing_packet_size"].as_u64(),
        Some(option.max_outgoing_packet_size as u64)
    );
    assert_eq!(parsed["inflight"].as_u64(), Some(option.inflight as u64));
    assert_eq!(parsed["conn_timeout"].as_u64(), Some(option.conn_timeout));
}

#[test]
fn insert_broker() {
    let param = r#"
        {
	"keep_alive": 60,
	"clean_session": true,
	"max_incoming_packet_size": 10240,
	"max_outgoing_packet_size": 10240,
	"inflight": 100,
	"conn_timeout": 5
}
        "#;
    let mut db = ArcDb::init_db();
    let broker = BrokerDB {
        id: 1,
        protocol: Protocol::V4,
        client_id: "id_5678".to_string(),
        name: "emq".to_string(),
        addr: "broker-cn.emqx.io".to_string(),
        port: 1883,
        params: param.to_string(),
        credentials: Credentials::NoCredentials,
        auto_connect: true,
        tls: Tls::NoTls,
        subscribe_his: vec![],
        publish_his: vec![],
    };
    let ops = db.save_broker(&broker);
    assert_eq!(db.ids, vec![1]);
    assert_eq!(ops.len(), 2);
    match &ops[0] {
        StoreOp::PutIds(ids) => assert_eq!(ids, &vec![1]),
        other => panic!("unexpected write {:?}", other),
    }
    match &ops[1] {
        StoreOp::PutBroker(b) => {
            assert_eq!(b.id, 1);
            assert_eq!(b.client_id, "id_5678");
            assert_eq!(b.name, "emq");
            assert_eq!(b.addr, "broker-cn.emqx.io");
            assert_eq!(b.port, 1883);
            assert_eq!(b.params, param);
        }
        other => panic!("unexpected write {:?}", other),
    }
}
