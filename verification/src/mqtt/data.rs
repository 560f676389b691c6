use crate::data::common::{
    hex_digits, payload_of, pretty_json, PayloadError, PayloadTy, PublishInput, QoS, SubscribeTopic,
};
use crate::util::buffer::bytes_content;
use bytes::Bytes;
use std::sync::Arc;
use vstd::prelude::*;
use vstd::std_specs::convert::FromSpecImpl;

verus! {

/// A publication as it is handed to the MQTT client.
#[derive(Debug)]
pub struct MqttPublicInput {
    pub broker_id: usize,
    pub trace_id: u32,
    pub topic: Arc<String>,
    pub msg: Bytes,
    pub qos: QoS,
    pub retain: bool,
}

/// A subscription as it is handed to the MQTT client.
#[derive(Debug)]
pub struct MqttSubscribeInput {
    pub trace_id: u32,
    pub topic: String,
    pub qos: QoS,
}

impl MqttPublicInput {
    /// The publication a user's request asks for: its message turned into
    /// payload bytes by its payload type; fails when the message cannot be.
    pub fn try_from(val: PublishInput) -> (r: Result<Self, PayloadError>)
        ensures
            match payload_of(val.payload_ty, val.msg@) {
                None => r is Err,
                Some((bytes, _)) => r matches Ok(m) && m.broker_id == val.broker_id && m.trace_id
                    == val.trace_id && *m.topic == val.topic && bytes_content(m.msg) == bytes
                    && m.qos == val.qos && m.retain == val.retain,
            },
            (val.payload_ty == PayloadTy::Hex && hex_digits(val.msg@).len() % 2 == 1) ==> r matches Err(
                PayloadError::OddHexDigits,
            ),
            (val.payload_ty == PayloadTy::Json && pretty_json(val.msg@) is None) ==> r matches Err(
                PayloadError::InvalidJson(_),
            ),
    {
        let msg = match val.payload_ty.to_bytes(&val.msg) {
            Ok(m) => m,
            Err(e) => {
                return Err(e);
            },
        };
        Ok(Self {
            broker_id: val.broker_id,
            trace_id: val.trace_id,
            topic: Arc::new(val.topic),
            msg: msg.0,
            qos: val.qos,
            retain: val.retain,
        })
    }
}

impl From<SubscribeTopic> for MqttSubscribeInput {
    fn from(val: SubscribeTopic) -> (r: Self) {
        Self { trace_id: val.trace_id, topic: val.topic, qos: val.qos }
    }
}

impl FromSpecImpl<SubscribeTopic> for MqttSubscribeInput {
    open spec fn obeys_from_spec() -> bool {
        true
    }

    open spec fn from_spec(val: SubscribeTopic) -> Self {
        MqttSubscribeInput { trace_id: val.trace_id, topic: val.topic, qos: val.qos }
    }
}

} // verus!
