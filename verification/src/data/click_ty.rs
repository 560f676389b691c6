use crate::data::common::SubscribeHis;
use vstd::prelude::*;

verus! {

/// What the user double-clicked.
#[derive(Debug, Clone, Eq, PartialEq)]
pub enum ClickTy {
    Broker(usize),
    SubscribeTopic(usize, u32),
    SubscribeHis(SubscribeHis),
    ConnectTab(usize),
}

} // verus!
