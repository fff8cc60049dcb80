//! Events of the legacy APNs service, as plain values.
use vstd::prelude::*;

verus! {

/// Header of a legacy event.
#[derive(Debug, Clone, PartialEq, Eq)]
pub struct Header {
    pub created_at: i64,
    pub source: String,
    pub recipient_id: String,
    pub field_type: String,
}

/// Status of an APNs response.
#[derive(Debug, Clone, Copy, PartialEq, Eq, Structural)]
pub enum ApnsResultStatus {
    Success,
    BadRequest,
    Forbidden,
    MethodNotAllowed,
    Unregistered,
    PayloadTooLarge,
    TooManyRequests,
    Error,
    Timeout,
    Unknown,
}

/// Reason of an APNs refusal.
#[derive(Debug, Clone, Copy, PartialEq, Eq, Structural)]
pub enum ApnsResultReason {
    PayloadEmpty,
    BadTopic,
    TopicDisallowed,
    BadMessageId,
    BadExpirationDate,
    BadPriority,
    MissingDeviceToken,
    BadDeviceToken,
    DeviceTokenNotForTopic,
    DuplicateHeaders,
    BadCertificateEnvironment,
    BadCertificate,
    BadPath,
    IdleTimeout,
    Shutdown,
    InternalServerError,
    ServiceUnavailable,
    MissingTopic,
    InvalidProviderToken,
    MissingProviderToken,
    ExpiredProviderToken,
    Nothing,
}

/// What APNs answered for a notification.
#[derive(Debug, Clone, PartialEq, Eq)]
pub struct ApnsResult {
    pub successful: bool,
    pub status: ApnsResultStatus,
    pub reason: Option<ApnsResultReason>,
    pub timestamp: Option<i64>,
}

/// The Apple part of a legacy notification.
#[derive(Debug, Clone, PartialEq, Eq)]
pub struct AppleNotification {
    pub result: Option<ApnsResult>,
}

/// The web-push part of a legacy notification.
#[derive(Debug, Clone, PartialEq, Eq)]
pub struct WebNotification {
    pub auth: String,
    pub p256dh: String,
    pub payload: Option<String>,
    pub ttl: Option<i64>,
}

/// A legacy push notification.
#[derive(Debug, Clone, PartialEq, Eq)]
pub struct PushNotification {
    pub header: Header,
    pub universe: String,
    pub correlation_id: String,
    pub device_token: String,
    pub application_id: String,
    pub campaign_id: String,
    pub exchange: Option<String>,
    pub response_recipient_id: Option<String>,
    pub retry_count: Option<u32>,
    pub retry_after: Option<u32>,
    pub apple: AppleNotification,
    pub web: WebNotification,
}

/// Why a notification failed, for its sender.
#[derive(Debug, Clone, Copy, PartialEq, Eq, Structural)]
pub enum NotificationResultError {
    Unsubscribed,
    Other,
}

/// The answer sent to the system that asked for a notification.
#[derive(Debug, Clone, PartialEq, Eq)]
pub struct NotificationResult {
    pub header: Header,
    pub universe: String,
    pub correlation_id: String,
    pub delete_user: bool,
    pub successful: bool,
    pub error: Option<NotificationResultError>,
    pub reason: Option<String>,
}

/// Which APNs environment to use.
#[derive(Debug, Clone, Copy, PartialEq, Eq, Structural)]
pub enum ConnectionEndpoint {
    Production,
    Sandbox,
}

/// Token-based connection details.
#[derive(Debug, Clone, PartialEq, Eq)]
pub struct Token {
    pub pkcs8: Vec<u8>,
    pub key_id: String,
    pub team_id: String,
}

/// Certificate-based connection details.
#[derive(Debug, Clone, PartialEq, Eq)]
pub struct Certificate {
    pub pkcs12: Vec<u8>,
    pub password: String,
}

/// The APNs configuration of one application.
#[derive(Debug, Clone, PartialEq, Eq)]
pub struct AppleConfig {
    pub application_id: String,
    pub endpoint: ConnectionEndpoint,
    pub apns_topic: String,
    pub token: Option<Token>,
    pub certificate: Option<Certificate>,
}

} // verus!
