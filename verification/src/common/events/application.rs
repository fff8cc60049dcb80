//! Tenant configuration: how to reach each push service for an application.
use vstd::prelude::*;

verus! {

/// Which APNs environment to use.
#[derive(Debug, Clone, Copy, PartialEq, Eq, Structural)]
pub enum ConnectionEndpoint {
    Production,
    Sandbox,
}

/// Certificate-based APNs connection details.
#[derive(Debug, Clone, PartialEq, Eq)]
pub struct IosCertificate {
    pub pkcs12: Vec<u8>,
    pub password: String,
    pub apns_topic: String,
    pub endpoint: ConnectionEndpoint,
}

/// Token-based APNs connection details.
#[derive(Debug, Clone, PartialEq, Eq)]
pub struct IosToken {
    pub pkcs8: Vec<u8>,
    pub key_id: String,
    pub team_id: String,
    pub apns_topic: String,
    pub endpoint: ConnectionEndpoint,
}

/// iOS configuration of an application.
#[derive(Debug, Clone, PartialEq, Eq)]
pub struct IosConfig {
    pub enabled: bool,
    pub token: Option<IosToken>,
    pub certificate: Option<IosCertificate>,
}

/// Android configuration of an application.
#[derive(Debug, Clone, PartialEq, Eq)]
pub struct AndroidConfig {
    pub enabled: bool,
    pub fcm_api_key: Option<String>,
}

/// Web-push configuration of an application.
#[derive(Debug, Clone, PartialEq, Eq)]
pub struct WebConfig {
    pub enabled: bool,
    pub fcm_api_key: Option<String>,
}

/// An application (tenant) and its per-platform configuration.
#[derive(Debug, Clone, PartialEq, Eq)]
pub struct Application {
    pub id: String,
    pub organization: Option<String>,
    pub ios_config: Option<IosConfig>,
    pub android_config: Option<AndroidConfig>,
    pub web_config: Option<WebConfig>,
}

} // verus!
