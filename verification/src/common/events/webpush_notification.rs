//! The web-push part of a push notification.
use vstd::prelude::*;

verus! {

/// A web-push notification: the subscription keys and an optional payload.
#[derive(Debug, Clone, PartialEq, Eq)]
pub struct WebPushNotification {
    pub auth: String,
    pub p256dh: String,
    pub payload: Option<String>,
    pub ttl: Option<u32>,
}

} // verus!
