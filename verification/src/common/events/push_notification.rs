//! A request to send a push notification.
use vstd::prelude::*;
use super::rpc::Request;
use super::apple_notification::AppleNotification;
use super::google_notification::GoogleNotification;
use super::webpush_notification::WebPushNotification;

verus! {

/// A push notification for one device of one application (`universe`).
#[derive(Debug, Clone, PartialEq, Eq)]
pub struct PushNotification {
    pub header: Request,
    pub universe: String,
    pub device_token: String,
    pub correlation_id: Option<String>,
    pub apple: Option<AppleNotification>,
    pub google: Option<GoogleNotification>,
    pub web: Option<WebPushNotification>,
}

} // verus!
