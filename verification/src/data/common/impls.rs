use crate::data::common::{Msg, PublicMsg, SubscribeHis, SubscribeInput, SubscribeMsg, SubscribeTopic};
use vstd::prelude::*;
use vstd::std_specs::convert::FromSpecImpl;

verus! {

impl SubscribeTopic {
    /// The subscription a user's request asks for.
    pub fn from(val: SubscribeInput) -> (r: Self)
        ensures
            r.broker_id == val.broker_id,
            r.trace_id == val.trace_id,
            r.topic == val.topic,
            r.qos == val.qos,
            r.payload_ty == val.payload_ty,
    {
        Self {
            broker_id: val.broker_id,
            trace_id: val.trace_id,
            topic: val.topic,
            qos: val.qos,
            payload_ty: val.payload_ty,
        }
    }
}

impl From<SubscribeInput> for SubscribeHis {
    fn from(val: SubscribeInput) -> (r: Self) {
        Self { topic: val.topic, qos: val.qos, payload_ty: val.payload_ty }
    }
}

impl FromSpecImpl<SubscribeInput> for SubscribeHis {
    open spec fn obeys_from_spec() -> bool {
        true
    }

    open spec fn from_spec(val: SubscribeInput) -> Self {
        SubscribeHis { topic: val.topic, qos: val.qos, payload_ty: val.payload_ty }
    }
}

impl From<SubscribeTopic> for SubscribeHis {
    fn from(val: SubscribeTopic) -> (r: Self) {
        Self { topic: val.topic, qos: val.qos, payload_ty: val.payload_ty }
    }
}

impl FromSpecImpl<SubscribeTopic> for SubscribeHis {
    open spec fn obeys_from_spec() -> bool {
        true
    }

    open spec fn from_spec(val: SubscribeTopic) -> Self {
        SubscribeHis { topic: val.topic, qos: val.qos, payload_ty: val.payload_ty }
    }
}

impl From<PublicMsg> for Msg {
    fn from(val: PublicMsg) -> (r: Self) {
        Self::Public(val)
    }
}

impl FromSpecImpl<PublicMsg> for Msg {
    open spec fn obeys_from_spec() -> bool {
        true
    }

    open spec fn from_spec(val: PublicMsg) -> Self {
        Msg::Public(val)
    }
}

impl From<SubscribeMsg> for Msg {
    fn from(val: SubscribeMsg) -> (r: Self) {
        Self::Subscribe(val)
    }
}

impl FromSpecImpl<SubscribeMsg> for Msg {
    open spec fn obeys_from_spec() -> bool {
        true
    }

    open spec fn from_spec(val: SubscribeMsg) -> Self {
        Msg::Subscribe(val)
    }
}

} // verus!
