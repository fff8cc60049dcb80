//! The answer sent back for a push notification.
use vstd::prelude::*;
use super::rpc::Response;

verus! {

/// What the sender of a notification should do next.
#[derive(Debug, Clone, Copy, PartialEq, Eq, Structural)]
pub enum ResponseAction {
    NoAction,
    Retry,
    UnsubscribeEntity,
}

/// The result of sending one push notification.
#[derive(Debug, Clone, PartialEq, Eq)]
pub struct PushResult {
    pub header: Response,
    pub response_action: ResponseAction,
}

} // verus!
