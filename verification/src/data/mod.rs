pub mod click_ty;
pub mod common;
pub mod db;
pub mod hierarchy;
pub mod localized;

use crate::data::common::{qos_number, QoS};
use crate::util::buffer::{bytes_content, bytes_to_vec};
use bytes::Bytes;
use std::sync::Arc;
use vstd::prelude::*;

verus! {

/// The reason code a broker gives for one topic of a subscription.
#[derive(Debug, Clone, Copy, PartialEq, Eq, Structural)]
pub enum SubscribeReasonCode {
    QoS0,
    QoS1,
    QoS2,
    Failure,
    Unspecified,
    ImplementationSpecific,
    NotAuthorized,
    TopicFilterInvalid,
    PkidInUse,
    QuotaExceeded,
    SharedSubscriptionsNotSupported,
    SubscriptionIdNotSupported,
    WildcardSubscriptionsNotSupported,
}

/// The name of a reason code, as its debug text shows it.
pub open spec fn reason_name(r: SubscribeReasonCode) -> Seq<char> {
    match r {
        SubscribeReasonCode::QoS0 => "QoS0"@,
        SubscribeReasonCode::QoS1 => "QoS1"@,
        SubscribeReasonCode::QoS2 => "QoS2"@,
        SubscribeReasonCode::Failure => "Failure"@,
        SubscribeReasonCode::Unspecified => "Unspecified"@,
        SubscribeReasonCode::ImplementationSpecific => "ImplementationSpecific"@,
        SubscribeReasonCode::NotAuthorized => "NotAuthorized"@,
        SubscribeReasonCode::TopicFilterInvalid => "TopicFilterInvalid"@,
        SubscribeReasonCode::PkidInUse => "PkidInUse"@,
        SubscribeReasonCode::QuotaExceeded => "QuotaExceeded"@,
        SubscribeReasonCode::SharedSubscriptionsNotSupported => "SharedSubscriptionsNotSupported"@,
        SubscribeReasonCode::SubscriptionIdNotSupported => "SubscriptionIdNotSupported"@,
        SubscribeReasonCode::WildcardSubscriptionsNotSupported => "WildcardSubscriptionsNotSupported"@,
    }
}

impl SubscribeReasonCode {
    /// The name of the reason code.
    pub fn name(&self) -> (r: String)
        ensures
            r@ == reason_name(*self),
    {
        match self {
            SubscribeReasonCode::QoS0 => "QoS0".to_string(),
            SubscribeReasonCode::QoS1 => "QoS1".to_string(),
            SubscribeReasonCode::QoS2 => "QoS2".to_string(),
            SubscribeReasonCode::Failure => "Failure".to_string(),
            SubscribeReasonCode::Unspecified => "Unspecified".to_string(),
            SubscribeReasonCode::ImplementationSpecific => "ImplementationSpecific".to_string(),
            SubscribeReasonCode::NotAuthorized => "NotAuthorized".to_string(),
            SubscribeReasonCode::TopicFilterInvalid => "TopicFilterInvalid".to_string(),
            SubscribeReasonCode::PkidInUse => "PkidInUse".to_string(),
            SubscribeReasonCode::QuotaExceeded => "QuotaExceeded".to_string(),
            SubscribeReasonCode::SharedSubscriptionsNotSupported => "SharedSubscriptionsNotSupported".to_string(),
            SubscribeReasonCode::SubscriptionIdNotSupported => "SubscriptionIdNotSupported".to_string(),
            SubscribeReasonCode::WildcardSubscriptionsNotSupported => "WildcardSubscriptionsNotSupported".to_string(),
        }
    }
}

/// A broker's answer to a subscription: the id of the request and a reason
/// code per topic.
#[derive(Debug, Clone)]
pub struct SubscribeAck {
    pub id: u32,
    pub acks: Vec<SubscribeReasonCode>,
}

/// The reason code a broker gives for one topic of an unsubscription.
#[derive(Debug, Clone, Copy, PartialEq, Eq, Structural)]
pub enum UnsubAckReason {
    Success,
    NoSubscriptionExisted,
    UnspecifiedError,
    ImplementationSpecificError,
    NotAuthorized,
    TopicFilterInvalid,
    PacketIdentifierInUse,
}

/// A broker's answer to an unsubscription.
#[derive(Debug, Clone)]
pub struct UnsubscribeAck {
    pub id: u32,
    pub acks: Vec<UnsubAckReason>,
}

/// What the MQTT side of the program tells the user interface.
#[derive(Debug)]
pub enum AppEvent {
    ConnectAckSuccess { broker_id: usize, retain: bool },
    ConnectAckFail(usize, String),
    ConnectedErr(usize, String),
    Disconnect(usize),
    ReceivePublic { broker_id: usize, topic: Arc<String>, payload: Arc<Bytes>, qos: QoS },
    PubAck(usize, u32),
    SubAck { broker_id: usize, ack: SubscribeAck },
    UnSubAck(usize, UnsubscribeAck),
}

/// A value of an event's field.
#[derive(Debug, Clone)]
pub enum EventField {
    Bool(bool),
    Number(u64),
    Text(String),
    /// A list of numbers, one per byte.
    Numbers(Vec<u8>),
}

/// The abstract value of an event's field.
pub enum FieldView {
    Bool(bool),
    Number(u64),
    Text(Seq<char>),
    Numbers(Seq<u8>),
}

impl EventField {
    pub open spec fn view(self) -> FieldView {
        match self {
            EventField::Bool(b) => FieldView::Bool(b),
            EventField::Number(n) => FieldView::Number(n),
            EventField::Text(s) => FieldView::Text(s@),
            EventField::Numbers(v) => FieldView::Numbers(v@),
        }
    }
}

/// The object that a list of named fields makes: field by field, a later
/// field of the same name overriding an earlier one.
pub open spec fn fields_map(entries: Seq<(String, EventField)>) -> Map<Seq<char>, FieldView>
    decreases entries.len(),
{
    if entries.len() == 0 {
        Map::empty()
    } else {
        fields_map(entries.drop_last()).insert(entries.last().0@, entries.last().1.view())
    }
}

/// The data of an event: named fields, as a JSON object holds them.
#[derive(Debug, Clone)]
pub struct EventObject {
    pub entries: Vec<(String, EventField)>,
}

impl EventObject {
    pub open spec fn view(self) -> Map<Seq<char>, FieldView> {
        fields_map(self.entries@)
    }
}

/// Builds the data of an event field by field.
#[derive(Debug)]
pub struct EventBuilder {
    map: Vec<(String, EventField)>,
}

impl EventBuilder {
    pub closed spec fn view(self) -> Map<Seq<char>, FieldView> {
        fields_map(self.map@)
    }

    /// A builder with no fields yet.
    pub fn default() -> (r: Self)
        ensures
            r.view() == Map::<Seq<char>, FieldView>::empty(),
    {
        EventBuilder { map: Vec::new() }
    }

    /// Sets field `name` to `val`, replacing a field of that name.
    pub fn with_param(self, name: &str, val: EventField) -> (r: Self)
        ensures
            r.view() == self.view().insert(name@, val.view()),
    {
        let mut map = self.map;
        let ghost old_map = map@;
        map.push((name.to_string(), val));
        assert(map@.drop_last() =~= old_map);
        EventBuilder { map }
    }

    /// The object the fields make.
    pub fn build(self) -> (r: EventObject)
        ensures
            r.view() == self.view(),
    {
        EventObject { entries: self.map }
    }
}

/// The data of the answer to a subscription: success and the granted level
/// when the reason code grants one, else failure and the reason's name.
pub open spec fn subscribe_rs(
    ack: SubscribeReasonCode,
    fields: Map<Seq<char>, FieldView>,
) -> Map<Seq<char>, FieldView> {
    match ack {
        SubscribeReasonCode::QoS0 => fields.insert("success"@, FieldView::Bool(true)).insert(
            "qos"@,
            FieldView::Number(0),
        ),
        SubscribeReasonCode::QoS1 => fields.insert("success"@, FieldView::Bool(true)).insert(
            "qos"@,
            FieldView::Number(1),
        ),
        SubscribeReasonCode::QoS2 => fields.insert("success"@, FieldView::Bool(true)).insert(
            "qos"@,
            FieldView::Number(2),
        ),
        _ => fields.insert("success"@, FieldView::Bool(false)).insert(
            "msg"@,
            FieldView::Text(reason_name(ack)),
        ),
    }
}

fn get_subscribe_rs(ack: SubscribeReasonCode, builder: EventBuilder) -> (r: EventBuilder)
    ensures
        r.view() == subscribe_rs(ack, builder.view()),
{
    match ack {
        SubscribeReasonCode::QoS0 => builder.with_param("success", EventField::Bool(true)).with_param(
            "qos",
            EventField::Number(0),
        ),
        SubscribeReasonCode::QoS1 => builder.with_param("success", EventField::Bool(true)).with_param(
            "qos",
            EventField::Number(1),
        ),
        SubscribeReasonCode::QoS2 => builder.with_param("success", EventField::Bool(true)).with_param(
            "qos",
            EventField::Number(2),
        ),
        _ => builder.with_param("success", EventField::Bool(false)).with_param(
            "msg",
            EventField::Text(ack.name()),
        ),
    }
}

/// The name and data of the message that tells the user interface of an
/// event; `None` when there is none to send (an answer to a subscription
/// with no reason code, or an answer to an unsubscription).
pub open spec fn event_spec(e: AppEvent) -> Option<(Seq<char>, Map<Seq<char>, FieldView>)> {
    match e {
        AppEvent::ConnectAckSuccess { broker_id, retain } => Some(
            (
                "ClientConnectAckSuccess"@,
                map!["broker_id"@ => FieldView::Number(broker_id as u64), "retain"@ => FieldView::Bool(retain)],
            ),
        ),
        AppEvent::ConnectAckFail(id, msg) => Some(
            (
                "ClientConnectAckFail"@,
                map!["broker_id"@ => FieldView::Number(id as u64), "msg"@ => FieldView::Text(msg@)],
            ),
        ),
        AppEvent::PubAck(id, packet_id) => Some(
            (
                "ClientPubAck"@,
                map!["broker_id"@ => FieldView::Number(id as u64), "trace_id"@ => FieldView::Number(packet_id as u64)],
            ),
        ),
        AppEvent::SubAck { broker_id, ack } => if ack.acks@.len() == 0 {
            None
        } else {
            Some(
                (
                    "ClientSubAck"@,
                    subscribe_rs(
                        ack.acks@.last(),
                        map!["broker_id"@ => FieldView::Number(broker_id as u64), "trace_id"@ => FieldView::Number(ack.id as u64)],
                    ),
                ),
            )
        },
        AppEvent::UnSubAck(_, _) => None,
        AppEvent::ReceivePublic { broker_id, topic, payload, qos } => Some(
            (
                "ClientReceivePublic"@,
                map![
                    "broker_id"@ => FieldView::Number(broker_id as u64),
                    "topic"@ => FieldView::Text((*topic)@),
                    "payload"@ => FieldView::Numbers(bytes_content(*payload)),
                    "qos"@ => FieldView::Number(qos_number(qos) as u64)
                ],
            ),
        ),
        AppEvent::ConnectedErr(id, msg) => Some(
            (
                "ClientConnectedErr"@,
                map!["broker_id"@ => FieldView::Number(id as u64), "msg"@ => FieldView::Text(msg@)],
            ),
        ),
        AppEvent::Disconnect(broker_id) => Some(
            ("ClientDisconnect"@, map!["broker_id"@ => FieldView::Number(broker_id as u64)]),
        ),
    }
}

impl AppEvent {
    /// The name and data of the message that tells the user interface of the
    /// event, or `None` when there is none to send. The answer to an
    /// unsubscription has no message yet and is not accepted.
    pub fn event(self) -> (r: Option<(&'static str, Option<EventObject>)>)
        requires
            !(self is UnSubAck),
        ensures
            match event_spec(self) {
                None => r is None,
                Some((name, fields)) => r matches Some((n, Some(obj))) && n@ == name && obj.view()
                    == fields,
            },
    {
        match self {
            AppEvent::ConnectAckSuccess { broker_id, retain } => {
                let event = EventBuilder::default().with_param(
                    "broker_id",
                    EventField::Number(broker_id as u64),
                ).with_param("retain", EventField::Bool(retain)).build();
                Some(("ClientConnectAckSuccess", Some(event)))
            },
            AppEvent::ConnectAckFail(id, msg) => {
                let event = EventBuilder::default().with_param(
                    "broker_id",
                    EventField::Number(id as u64),
                ).with_param("msg", EventField::Text(msg)).build();
                Some(("ClientConnectAckFail", Some(event)))
            },
            AppEvent::PubAck(id, packet_id) => {
                let event = EventBuilder::default().with_param(
                    "broker_id",
                    EventField::Number(id as u64),
                ).with_param("trace_id", EventField::Number(packet_id as u64)).build();
                Some(("ClientPubAck", Some(event)))
            },
            AppEvent::SubAck { broker_id, ack } => {
                let mut ack = ack;
                let reason = match ack.acks.pop() {
                    Some(reason) => reason,
                    None => {
                        return None;
                    },
                };
                let event = get_subscribe_rs(
                    reason,
                    EventBuilder::default().with_param(
                        "broker_id",
                        EventField::Number(broker_id as u64),
                    ).with_param("trace_id", EventField::Number(ack.id as u64)),
                ).build();
                Some(("ClientSubAck", Some(event)))
            },
            AppEvent::ReceivePublic { broker_id, topic, payload, qos } => {
                let payload = bytes_to_vec(&*payload);
                let topic: String = (*topic).clone();
                let event = EventBuilder::default().with_param(
                    "broker_id",
                    EventField::Number(broker_id as u64),
                ).with_param("topic", EventField::Text(topic)).with_param(
                    "payload",
                    EventField::Numbers(payload),
                ).with_param("qos", EventField::Number(qos.to_u8() as u64)).build();
                Some(("ClientReceivePublic", Some(event)))
            },
            AppEvent::ConnectedErr(id, msg) => {
                let event = EventBuilder::default().with_param(
                    "broker_id",
                    EventField::Number(id as u64),
                ).with_param("msg", EventField::Text(msg)).build();
                Some(("ClientConnectedErr", Some(event)))
            },
            AppEvent::Disconnect(broker_id) => {
                let event = EventBuilder::default().with_param(
                    "broker_id",
                    EventField::Number(broker_id as u64),
                ).build();
                Some(("ClientDisconnect", Some(event)))
            },
            AppEvent::UnSubAck(_, _) => None,
        }
    }
}

/// The unsubscription of a topic, as it is tracked.
#[derive(Debug, Clone)]
pub struct EventUnSubscribe {
    pub broke_id: usize,
    pub subscribe_pk_id: u32,
    pub topic: String,
}

/// The answer to a subscription reports its last reason code: when that code
/// grants a level (QoS0, QoS1, QoS2) the message says success with the
/// level's number and no failure text; for any other code it says failure
/// with the code's name and no level. The broker id and the request's id are
/// always reported.
pub proof fn law_subscribe_ack_reports_granted_level(broker_id: usize, ack: SubscribeAck)
    requires
        ack.acks@.len() > 0,
    ensures
        ({
            let last = ack.acks@.last();
            let level: int = match last {
                SubscribeReasonCode::QoS0 => 0,
                SubscribeReasonCode::QoS1 => 1,
                SubscribeReasonCode::QoS2 => 2,
                _ => -1,
            };
            event_spec(AppEvent::SubAck { broker_id, ack }) matches Some((name, f)) && {
                &&& name == "ClientSubAck"@
                &&& f.dom().contains("broker_id"@) && f["broker_id"@] == FieldView::Number(broker_id as u64)
                &&& f.dom().contains("trace_id"@) && f["trace_id"@] == FieldView::Number(ack.id as u64)
                &&& f.dom().contains("success"@)
                &&& level >= 0 ==> {
                    &&& f["success"@] == FieldView::Bool(true)
                    &&& f.dom().contains("qos"@) && f["qos"@] == FieldView::Number(level as u64)
                    &&& !f.dom().contains("msg"@)
                }
                &&& level < 0 ==> {
                    &&& f["success"@] == FieldView::Bool(false)
                    &&& f.dom().contains("msg"@) && f["msg"@] == FieldView::Text(reason_name(last))
                    &&& !f.dom().contains("qos"@)
                }
            }
        }),
{
    reveal_strlit("broker_id");
    reveal_strlit("trace_id");
    reveal_strlit("success");
    reveal_strlit("qos");
    reveal_strlit("msg");
    reveal_strlit("ClientSubAck");
    assert("broker_id"@[0] == 'b' && "trace_id"@[0] == 't' && "success"@[0] == 's');
    assert("qos"@[0] == 'q' && "msg"@[0] == 'm');
    assert("broker_id"@ != "trace_id"@);
    assert("broker_id"@ != "success"@);
    assert("broker_id"@ != "qos"@);
    assert("broker_id"@ != "msg"@);
    assert("trace_id"@ != "success"@);
    assert("trace_id"@ != "qos"@);
    assert("trace_id"@ != "msg"@);
    assert("success"@ != "qos"@);
    assert("success"@ != "msg"@);
    assert("qos"@ != "msg"@);
}

/// Every event other than the answers to a subscription or unsubscription
/// is sent under its own name, with the id of its broker and its own data:
/// the retain flag of an accepted connection, the text of a refused or
/// broken one, the packet id of an acknowledged publication, and the topic,
/// payload bytes and level number (0, 1 or 2) of a received publication.
pub proof fn law_event_messages(e: AppEvent)
    requires
        !(e is SubAck),
        !(e is UnSubAck),
    ensures
        event_spec(e) matches Some((name, f)) && {
            &&& f.dom().contains("broker_id"@)
            &&& e matches AppEvent::ConnectAckSuccess { broker_id, retain } ==> {
                &&& name == "ClientConnectAckSuccess"@
                &&& f["broker_id"@] == FieldView::Number(broker_id as u64)
                &&& f.dom().contains("retain"@) && f["retain"@] == FieldView::Bool(retain)
            }
            &&& e matches AppEvent::ConnectAckFail(id, msg) ==> {
                &&& name == "ClientConnectAckFail"@
                &&& f["broker_id"@] == FieldView::Number(id as u64)
                &&& f.dom().contains("msg"@) && f["msg"@] == FieldView::Text(msg@)
            }
            &&& e matches AppEvent::ConnectedErr(id, msg) ==> {
                &&& name == "ClientConnectedErr"@
                &&& f["broker_id"@] == FieldView::Number(id as u64)
                &&& f.dom().contains("msg"@) && f["msg"@] == FieldView::Text(msg@)
            }
            &&& e matches AppEvent::Disconnect(id) ==> {
                &&& name == "ClientDisconnect"@
                &&& f["broker_id"@] == FieldView::Number(id as u64)
                &&& f.dom().len() == 1
            }
            &&& e matches AppEvent::PubAck(id, packet_id) ==> {
                &&& name == "ClientPubAck"@
                &&& f["broker_id"@] == FieldView::Number(id as u64)
                &&& f.dom().contains("trace_id"@) && f["trace_id"@] == FieldView::Number(
                    packet_id as u64,
                )
            }
            &&& e matches AppEvent::ReceivePublic { broker_id, topic, payload, qos } ==> {
                &&& name == "ClientReceivePublic"@
                &&& f["broker_id"@] == FieldView::Number(broker_id as u64)
                &&& f.dom().contains("topic"@) && f["topic"@] == FieldView::Text((*topic)@)
                &&& f.dom().contains("payload"@) && f["payload"@] == FieldView::Numbers(
                    bytes_content(*payload),
                )
                &&& f.dom().contains("qos"@)
                &&& qos is AtMostOnce ==> f["qos"@] == FieldView::Number(0)
                &&& qos is AtLeastOnce ==> f["qos"@] == FieldView::Number(1)
                &&& qos is ExactlyOnce ==> f["qos"@] == FieldView::Number(2)
            }
        },
{
    reveal_strlit("broker_id");
    reveal_strlit("retain");
    reveal_strlit("msg");
    reveal_strlit("trace_id");
    reveal_strlit("topic");
    reveal_strlit("payload");
    reveal_strlit("qos");
    assert("broker_id"@[0] == 'b' && "retain"@[0] == 'r' && "msg"@[0] == 'm');
    assert("trace_id"@[0] == 't' && "topic"@[0] == 't' && "payload"@[0] == 'p' && "qos"@[0] == 'q');
    assert("trace_id"@[1] == 'r' && "topic"@[1] == 'o');
    assert("broker_id"@ != "retain"@);
    assert("broker_id"@ != "msg"@);
    assert("broker_id"@ != "trace_id"@);
    assert("broker_id"@ != "topic"@);
    assert("broker_id"@ != "payload"@);
    assert("broker_id"@ != "qos"@);
    assert("topic"@ != "payload"@);
    assert("topic"@ != "qos"@);
    assert("payload"@ != "qos"@);
    match e {
        AppEvent::Disconnect(id) => {
            let m = map!["broker_id"@ => FieldView::Number(id as u64)];
            assert(m.dom() =~= set!["broker_id"@]);
        },
        _ => {},
    }
}

} // verus!
