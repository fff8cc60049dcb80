//! The Google (FCM) part of a push notification.
use vstd::prelude::*;

verus! {

/// Delivery priority.
#[derive(Debug, Clone, Copy, PartialEq, Eq, Structural)]
pub enum GooglePriority {
    Normal,
    High,
}

/// A key/value pair of custom data.
#[derive(Debug, Clone, PartialEq, Eq)]
pub struct KeyValue {
    pub key: String,
    pub value: String,
}

/// A notification shown by the device.
#[derive(Debug, Clone, PartialEq, Eq)]
pub struct Localized {
    pub title: Option<String>,
    pub tag: Option<String>,
    pub body: Option<String>,
    pub icon: Option<String>,
    pub sound: Option<String>,
    pub badge: Option<String>,
    pub color: Option<String>,
    pub click_action: Option<String>,
    pub body_loc_key: Option<String>,
    pub title_loc_key: Option<String>,
    pub title_loc_args: Vec<String>,
    pub body_loc_args: Vec<String>,
    pub data: Vec<KeyValue>,
}

/// A data-only message.
#[derive(Debug, Clone, PartialEq, Eq)]
pub struct DataMessage {
    pub data: Vec<KeyValue>,
}

/// A Google notification.
#[derive(Debug, Clone, PartialEq, Eq)]
pub struct GoogleNotification {
    pub localized: Option<Localized>,
    pub message: DataMessage,
    pub registration_ids: Vec<String>,
    pub collapse_key: Option<String>,
    pub priority: GooglePriority,
    pub content_available: Option<bool>,
    pub delay_while_idle: Option<bool>,
    pub time_to_live: Option<u32>,
    pub restricted_package_name: Option<String>,
    pub dry_run: Option<bool>,
}

} // verus!
