//! The Apple part of a push notification.
use vstd::prelude::*;

verus! {

/// APNs request headers set by the sender.
#[derive(Debug, Clone, PartialEq, Eq)]
pub struct AppleHeaders {
    pub apns_priority: Option<i32>,
    pub apns_expiration: Option<u64>,
    pub apns_topic: Option<String>,
}

/// A localized alert.
#[derive(Debug, Clone, PartialEq, Eq)]
pub struct LocalizedAlert {
    pub title: String,
    pub body: String,
    pub title_loc_key: Option<String>,
    pub title_loc_args: Vec<String>,
    pub action_loc_key: Option<String>,
    pub launch_image: Option<String>,
    pub loc_key: Option<String>,
    pub loc_args: Vec<String>,
    pub mutable_content: Option<bool>,
}

/// Custom data: a key and a JSON body.
#[derive(Debug, Clone, PartialEq, Eq)]
pub struct CustomData {
    pub key: String,
    pub body: String,
}

/// An Apple notification: localized, silent or plain text.
#[derive(Debug, Clone, PartialEq, Eq)]
pub struct AppleNotification {
    pub headers: AppleHeaders,
    pub localized: Option<LocalizedAlert>,
    /// Set, to either value, to ask for a silent notification.
    pub silent: Option<bool>,
    pub plain: String,
    pub badge: Option<u32>,
    pub sound: Option<String>,
    pub category: Option<String>,
    pub custom_data: Option<CustomData>,
}

} // verus!
