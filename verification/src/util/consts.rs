use crate::data::common::{qos_number, QoS};
use crate::mqtt::{qos_of, QoSWithPacketId};
use crate::util::digit_char;
use vstd::prelude::*;

verus! {

/// The text of a quality of service level: "0", "1" or "2".
pub trait QosToString {
    fn qos_to_string(&self) -> String;
}

impl QosToString for QoS {
    fn qos_to_string(&self) -> (r: String)
        ensures
            r@ == seq![digit_char(qos_number(*self) as nat)],
    {
        self.to_string()
    }
}

impl QosToString for QoSWithPacketId {
    fn qos_to_string(&self) -> (r: String)
        ensures
            r@ == seq![digit_char(qos_number(qos_of(*self)) as nat)],
    {
        QoS::from(*self).to_string()
    }
}

/// Where the program's source is published.
pub const GITHUB_ADDR: &'static str = "https://github.com/jm-observer/for-mqtt";

} // verus!
