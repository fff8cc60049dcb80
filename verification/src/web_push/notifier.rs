//! The web push message a notification turns into.
use vstd::prelude::*;
use crate::common::events::push_notification::PushNotification;

verus! {

/// How the payload is encrypted.
#[derive(Debug, Clone, Copy, PartialEq, Eq, Structural)]
pub enum ContentEncoding {
    AesGcm,
    Aes128Gcm,
}

/// Everything a web push message is built from: the subscription, the
/// payload with its encoding, the time to live, and whether the
/// application's VAPID signature is attached.
#[derive(Debug, Clone, PartialEq, Eq)]
pub struct MessagePlan {
    pub endpoint: String,
    pub auth: String,
    pub p256dh: String,
    pub payload: Option<(ContentEncoding, String)>,
    pub ttl: Option<u32>,
    pub with_signature: bool,
}

/// Whether `m` is the message for `pn`, signed when `signed`: the device
/// token is the endpoint; a payload is encrypted with aes128gcm.
pub open spec fn message_plan_of(pn: PushNotification, signed: bool, m: MessagePlan) -> bool {
    &&& m.endpoint@ == pn.device_token@
    &&& m.with_signature == signed
    &&& match pn.web {
        Some(w) => {
            &&& m.auth@ == w.auth@
            &&& m.p256dh@ == w.p256dh@
            &&& (match m.payload { Some((e, p)) => Some((e, p@)), None => None })
                == (match w.payload { Some(p) => Some((ContentEncoding::Aes128Gcm, p@)), None => None })
            &&& m.ttl == w.ttl
        },
        None => m.auth@ == Seq::<char>::empty() && m.p256dh@ == Seq::<char>::empty() && m.payload is None && m.ttl is None,
    }
}

/// Builds web push messages from notifications.
pub struct Notifier;

impl Notifier {
    /// A message builder.
    pub fn new() -> Notifier {
        Notifier
    }

    /// The message for `pn`, with the VAPID signature attached when `signed`.
    pub fn build_message(pn: &PushNotification, signed: bool) -> (m: MessagePlan)
        ensures
            message_plan_of(*pn, signed, m),
    {
        match &pn.web {
            Some(w) => MessagePlan {
                endpoint: pn.device_token.clone(),
                auth: w.auth.clone(),
                p256dh: w.p256dh.clone(),
                payload: match &w.payload {
                    Some(p) => Some((ContentEncoding::Aes128Gcm, p.clone())),
                    None => None,
                },
                ttl: w.ttl,
                with_signature: signed,
            },
            None => MessagePlan {
                endpoint: pn.device_token.clone(),
                auth: String::new(),
                p256dh: String::new(),
                payload: None,
                ttl: None,
                with_signature: signed,
            },
        }
    }
}

/// A web push message goes to the device token as endpoint, with the
/// subscription's auth secret and public key each in its own place, its
/// payload (when it has one) encrypted with aes128gcm, its time to live, and
/// the signature exactly when asked for.
pub proof fn web_message_carries_its_fields(pn: PushNotification, signed: bool, m: MessagePlan)
    requires
        message_plan_of(pn, signed, m),
        pn.web is Some,
    ensures
        ({
            let w = pn.web->Some_0;
            &&& m.endpoint@ == pn.device_token@
            &&& m.auth@ == w.auth@
            &&& m.p256dh@ == w.p256dh@
            &&& m.ttl == w.ttl
            &&& m.with_signature == signed
            &&& (w.payload is None ==> m.payload is None)
            &&& (w.payload is Some ==> (m.payload matches Some((e, p)) && e == ContentEncoding::Aes128Gcm
                && p@ == w.payload->Some_0@))
        }),
{
}

} // verus!
