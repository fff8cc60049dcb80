//! What a service publishes on the output topic for each handled event.
use vstd::prelude::*;
use crate::common::events::push_notification::PushNotification;
use crate::common::events::push_result::{PushResult, ResponseAction};
use crate::common::events::push_result_type;

verus! {

/// A result to publish: the routing key, the metrics label to count (if
/// any), and the result event.
pub struct Publication {
    pub key: Option<Vec<u8>>,
    pub counter_label: Option<String>,
    pub result: PushResult,
}

/// Whether `p` publishes the answer `action` to `event` under `key`, counted
/// under `label` (`None`: not counted).
pub open spec fn publishes(
    p: Publication,
    key: Option<Vec<u8>>,
    event: PushNotification,
    action: ResponseAction,
    label: Option<Seq<char>>,
) -> bool {
    &&& p.key == key
    &&& (match p.counter_label { Some(l) => Some(l@), None => None }) == label
    &&& p.result.header.field_type@ == push_result_type()
    &&& p.result.header.request == event.header
    &&& p.result.response_action == action
}

} // verus!
