use for_mqtt::data::common::Protocol;
use for_mqtt::data::db::{BrokerDB, Credentials, Tls};
use for_mqtt::mqtt::{connect_options, SomeMqttOption, TlsOption};

fn broker(credentials: Credentials, tls: Tls, auto_connect: bool) -> BrokerDB {
    BrokerDB {
        id: 3,
        protocol: Protocol::V5,
        client_id: "id_5678".to_string(),
        name: "emq".to_string(),
        addr: "broker-cn.emqx.io".to_string(),
        port: 8883,
        params: "{}".to_string(),
        credentials,
        auto_connect,
        tls,
        subscribe_his: vec![],
        publish_his: vec![],
    }
}

#[test]
fn connect_options_carry_broker_and_option_settings() {
    let some = SomeMqttOption {
        keep_alive: 30,
        clean_session: false,
        max_incoming_packet_size: 2048,
        max_outgoing_packet_size: 4096,
        inflight: 10,
        conn_timeout: 7,
    };
    let b = broker(
        Credentials::Credentials { user_name: "u".to_string(), password: "p".to_string() },
        Tls::SelfSigned { self_signed_ca: "/tmp/ca.pem".to_string() },
        true,
    );
    let o = connect_options(&b, some);
    assert_eq!(o.client_id, "id_5678");
    assert_eq!(o.addr, "broker-cn.emqx.io");
    assert_eq!(o.port, 8883);
    assert_eq!(o.credentials, Some(("u".to_string(), "p".to_string())));
    assert_eq!(o.keep_alive, 30);
    assert!(!o.clean_session);
    assert_eq!(o.max_incoming_packet_size, 2048);
    assert_eq!(o.max_outgoing_packet_size, 4096);
    assert!(matches!(o.tls, Some(TlsOption::SelfSigned { ref ca_file }) if ca_file == "/tmp/ca.pem"));
    assert!(o.auto_reconnect);
    assert_eq!(o.protocol, Protocol::V5);
}

#[test]
fn connect_options_plain_connection_without_credentials() {
    let b = broker(Credentials::NoCredentials, Tls::NoTls, false);
    let o = connect_options(&b, SomeMqttOption::default());
    assert_eq!(o.credentials, None);
    assert!(o.tls.is_none());
    assert!(!o.auto_reconnect);
    assert_eq!(o.keep_alive, 60);
    assert!(o.clean_session);
    let b = broker(Credentials::NoCredentials, Tls::Insecurity, false);
    assert!(matches!(connect_options(&b, SomeMqttOption::default()).tls, Some(TlsOption::Insecurity)));
    let b = broker(Credentials::NoCredentials, Tls::Ca, false);
    assert!(matches!(connect_options(&b, SomeMqttOption::default()).tls, Some(TlsOption::Ca)));
}
