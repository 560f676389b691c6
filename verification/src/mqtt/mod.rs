pub mod data;

use crate::data::common::{Protocol, QoS};
use crate::data::db::{BrokerDB, Credentials, Tls};
use crate::data::{AppEvent, SubscribeAck, UnsubscribeAck};
use bytes::Bytes;
use std::sync::Arc;
use vstd::prelude::*;

verus! {

/// The connection options a broker's record holds as JSON text.
#[derive(Debug, Clone, Copy, PartialEq, Eq, Structural)]
pub struct SomeMqttOption {
    /// Seconds.
    pub keep_alive: u16,
    pub clean_session: bool,
    pub max_incoming_packet_size: usize,
    pub max_outgoing_packet_size: usize,
    pub inflight: u16,
    /// Seconds.
    pub conn_timeout: u64,
}

impl Default for SomeMqttOption {
    fn default() -> (r: Self)
        ensures
            r == (SomeMqttOption {
                keep_alive: 60,
                clean_session: true,
                max_incoming_packet_size: 10240,
                max_outgoing_packet_size: 10240,
                inflight: 100,
                conn_timeout: 5,
            }),
    {
        Self {
            keep_alive: 60,
            clean_session: true,
            max_incoming_packet_size: 10 * 1024,
            max_outgoing_packet_size: 10 * 1024,
            inflight: 100,
            conn_timeout: 5,
        }
    }
}


/// The quality of service of a received publication, with its packet id.
#[derive(Debug, Clone, Copy, PartialEq, Eq, Structural)]
pub enum QoSWithPacketId {
    AtMostOnce,
    AtLeastOnce(u16),
    ExactlyOnce(u16),
}

/// A publication received from a broker.
#[derive(Debug, Clone)]
pub struct Publish {
    pub qos: QoSWithPacketId,
    pub topic: Arc<String>,
    pub payload: Arc<Bytes>,
}

/// What the MQTT client of a broker reports.
#[derive(Debug)]
pub enum MqttEvent {
    /// Whether the broker kept a session.
    ConnectSuccess(bool),
    /// The debug text of the connection error.
    ConnectFail(String),
    Publish(Publish),
    PublishSuccess(u32),
    PublishFail(String),
    SubscribeAck(SubscribeAck),
    SubscribeFail(String),
    UnsubscribeAck(UnsubscribeAck),
    UnsubscribeFail(String),
    ConnectedErr(String),
    Disconnected,
}

/// The event the user interface is told of when the client of broker `id`
/// reports `event`; `None` for the failures of a publication, subscription
/// or unsubscription, which are only logged.
pub open spec fn app_event_of(id: usize, event: MqttEvent) -> Option<AppEvent> {
    match event {
        MqttEvent::ConnectSuccess(retain) => Some(
            AppEvent::ConnectAckSuccess { broker_id: id, retain },
        ),
        MqttEvent::ConnectFail(err) => Some(AppEvent::ConnectAckFail(id, err)),
        MqttEvent::PublishSuccess(packet_id) => Some(AppEvent::PubAck(id, packet_id)),
        MqttEvent::SubscribeAck(packet) => Some(AppEvent::SubAck { broker_id: id, ack: packet }),
        MqttEvent::UnsubscribeAck(packet) => Some(AppEvent::UnSubAck(id, packet)),
        MqttEvent::Publish(msg) => Some(
            AppEvent::ReceivePublic {
                broker_id: id,
                topic: msg.topic,
                payload: msg.payload,
                qos: qos_of(msg.qos),
            },
        ),
        MqttEvent::PublishFail(_) => None,
        MqttEvent::SubscribeFail(_) => None,
        MqttEvent::ConnectedErr(reason) => Some(AppEvent::ConnectedErr(id, reason)),
        MqttEvent::UnsubscribeFail(_) => None,
        MqttEvent::Disconnected => Some(AppEvent::Disconnect(id)),
    }
}

/// The level of a quality of service with packet id.
pub open spec fn qos_of(q: QoSWithPacketId) -> QoS {
    match q {
        QoSWithPacketId::AtMostOnce => QoS::AtMostOnce,
        QoSWithPacketId::AtLeastOnce(_) => QoS::AtLeastOnce,
        QoSWithPacketId::ExactlyOnce(_) => QoS::ExactlyOnce,
    }
}

impl From<QoSWithPacketId> for QoS {
    fn from(qos: QoSWithPacketId) -> (r: Self) {
        match qos {
            QoSWithPacketId::AtLeastOnce(_) => Self::AtLeastOnce,
            QoSWithPacketId::AtMostOnce => Self::AtMostOnce,
            QoSWithPacketId::ExactlyOnce(_) => Self::ExactlyOnce,
        }
    }
}

impl vstd::std_specs::convert::FromSpecImpl<QoSWithPacketId> for QoS {
    open spec fn obeys_from_spec() -> bool {
        true
    }

    open spec fn from_spec(qos: QoSWithPacketId) -> Self {
        qos_of(qos)
    }
}

/// The event the user interface is told of when the client of broker `id`
/// reports `event`.
pub fn to_app_event(id: usize, event: MqttEvent) -> (r: Option<AppEvent>)
    ensures
        r == app_event_of(id, event),
{
    match event {
        MqttEvent::ConnectSuccess(retain) => Some(AppEvent::ConnectAckSuccess { broker_id: id, retain }),
        MqttEvent::ConnectFail(err) => Some(AppEvent::ConnectAckFail(id, err)),
        MqttEvent::PublishSuccess(packet_id) => Some(AppEvent::PubAck(id, packet_id)),
        MqttEvent::SubscribeAck(packet) => Some(AppEvent::SubAck { broker_id: id, ack: packet }),
        MqttEvent::UnsubscribeAck(packet) => Some(AppEvent::UnSubAck(id, packet)),
        MqttEvent::Publish(msg) => {
            let Publish { qos, topic, payload } = msg;
            Some(AppEvent::ReceivePublic { broker_id: id, topic, payload, qos: QoS::from(qos) })
        },
        MqttEvent::PublishFail(_) => None,
        MqttEvent::SubscribeFail(_) => None,
        MqttEvent::ConnectedErr(reason) => Some(AppEvent::ConnectedErr(id, reason)),
        MqttEvent::UnsubscribeFail(_) => None,
        MqttEvent::Disconnected => Some(AppEvent::Disconnect(id)),
    }
}

/// The TLS a connection is made with.
#[derive(Debug, Clone)]
pub enum TlsOption {
    /// The server is checked against the system's certificate authorities.
    Ca,
    /// The server is not checked.
    Insecurity,
    /// The server is checked against the CA certificate in this PEM file.
    SelfSigned { ca_file: String },
}

/// What a connection to a broker is set up with.
#[derive(Debug)]
pub struct ConnectOptions {
    pub client_id: String,
    pub addr: String,
    pub port: u16,
    /// User name and password, when the broker asks for them.
    pub credentials: Option<(String, String)>,
    pub keep_alive: u16,
    pub clean_session: bool,
    pub max_incoming_packet_size: usize,
    pub max_outgoing_packet_size: usize,
    /// `None` for a plain connection.
    pub tls: Option<TlsOption>,
    pub auto_reconnect: bool,
    pub protocol: Protocol,
}

/// The TLS a stored TLS setting asks for.
pub open spec fn tls_option_of(tls: Tls) -> Option<TlsOption> {
    match tls {
        Tls::NoTls => None,
        Tls::Ca => Some(TlsOption::Ca),
        Tls::Insecurity => Some(TlsOption::Insecurity),
        Tls::SelfSigned { self_signed_ca } => Some(TlsOption::SelfSigned { ca_file: self_signed_ca }),
    }
}

/// The credentials a stored setting gives.
pub open spec fn credentials_of(c: Credentials) -> Option<(String, String)> {
    match c {
        Credentials::NoCredentials => None,
        Credentials::Credentials { user_name, password } => Some((user_name, password)),
    }
}

/// The set-up of a connection to `broker` with the options `some` read
/// from its parameters: the broker's address, client id, credentials, TLS,
/// protocol and reconnection flag, and the session and size options of
/// `some`.
pub fn connect_options(broker: &BrokerDB, some: SomeMqttOption) -> (r: ConnectOptions)
    ensures
        r.client_id == broker.client_id,
        r.addr == broker.addr,
        r.port == broker.port,
        r.credentials == credentials_of(broker.credentials),
        r.keep_alive == some.keep_alive,
        r.clean_session == some.clean_session,
        r.max_incoming_packet_size == some.max_incoming_packet_size,
        r.max_outgoing_packet_size == some.max_outgoing_packet_size,
        r.tls == tls_option_of(broker.tls),
        r.auto_reconnect == broker.auto_connect,
        r.protocol == broker.protocol,
{
    let credentials = match &broker.credentials {
        Credentials::NoCredentials => None,
        Credentials::Credentials { user_name, password } => Some((user_name.clone(), password.clone())),
    };
    let tls = match &broker.tls {
        Tls::NoTls => None,
        Tls::Ca => Some(TlsOption::Ca),
        Tls::Insecurity => Some(TlsOption::Insecurity),
        Tls::SelfSigned { self_signed_ca } => Some(TlsOption::SelfSigned { ca_file: self_signed_ca.clone() }),
    };
    ConnectOptions {
        client_id: broker.client_id.clone(),
        addr: broker.addr.clone(),
        port: broker.port,
        credentials,
        keep_alive: some.keep_alive,
        clean_session: some.clean_session,
        max_incoming_packet_size: some.max_incoming_packet_size,
        max_outgoing_packet_size: some.max_outgoing_packet_size,
        tls,
        auto_reconnect: broker.auto_connect,
        protocol: broker.protocol,
    }
}

/// Only the failures of a publication, a subscription or an unsubscription
/// stay unreported; every other event of a broker's client reaches the user
/// interface as the matching event of that broker, carrying the event's data
/// unchanged (a received publication keeps its topic, payload and level).
pub proof fn law_client_events_reach_the_interface(id: usize, e: MqttEvent)
    ensures
        app_event_of(id, e) is None <==> (e is PublishFail || e is SubscribeFail
            || e is UnsubscribeFail),
        e matches MqttEvent::ConnectSuccess(retain) ==> app_event_of(id, e) == Some(
            AppEvent::ConnectAckSuccess { broker_id: id, retain },
        ),
        e matches MqttEvent::ConnectFail(err) ==> app_event_of(id, e) == Some(
            AppEvent::ConnectAckFail(id, err),
        ),
        e matches MqttEvent::ConnectedErr(reason) ==> app_event_of(id, e) == Some(
            AppEvent::ConnectedErr(id, reason),
        ),
        e is Disconnected ==> app_event_of(id, e) == Some(AppEvent::Disconnect(id)),
        e matches MqttEvent::PublishSuccess(p) ==> app_event_of(id, e) == Some(AppEvent::PubAck(id, p)),
        e matches MqttEvent::SubscribeAck(a) ==> app_event_of(id, e) == Some(
            AppEvent::SubAck { broker_id: id, ack: a },
        ),
        e matches MqttEvent::UnsubscribeAck(a) ==> app_event_of(id, e) == Some(
            AppEvent::UnSubAck(id, a),
        ),
        e matches MqttEvent::Publish(m) ==> app_event_of(id, e) matches Some(
            AppEvent::ReceivePublic { broker_id, topic, payload, qos },
        ) && broker_id == id && topic == m.topic && payload == m.payload && (m.qos
            is AtMostOnce ==> qos == QoS::AtMostOnce) && (m.qos is AtLeastOnce ==> qos
            == QoS::AtLeastOnce) && (m.qos is ExactlyOnce ==> qos == QoS::ExactlyOnce),
{
}

} // verus!
