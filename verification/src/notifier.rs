//! The legacy web push notifier: from a notification and the application's
//! GCM key to the message that the web push client sends.
use vstd::prelude::*;
use crate::events::PushNotification;
use crate::web_push::notifier::ContentEncoding;
use crate::common::text::{opt_view, clone_opt};

verus! {

/// What `base64` decodes `s` to with its standard alphabet and padding, or
/// `None` when `s` is not such an encoding.
pub uninterp spec fn base64_standard_decoding(s: Seq<char>) -> Option<Seq<u8>>;

/// Calls `base64::Engine::decode` on the `STANDARD` engine of
/// `base64::engine::general_purpose`, which decodes standard base64 with
/// padding. The result is tied to the input by the name
/// `base64_standard_decoding`; the decoding itself is not restated.
#[verifier::external_body]
fn base64_decode(s: &str) -> (r: Option<Vec<u8>>)
    ensures
        match r {
            Some(v) => base64_standard_decoding(s@) == Some(v@),
            None => base64_standard_decoding(s@) is None,
        },
{
    base64::Engine::decode(&base64::engine::general_purpose::STANDARD, s.as_bytes()).ok()
}

/// Everything a web push message is built from: the endpoint, the decoded
/// subscription keys, the payload with its encoding, the time to live and
/// the GCM key.
#[derive(Debug, Clone, PartialEq, Eq)]
pub struct LegacyMessagePlan {
    pub endpoint: String,
    pub auth: Vec<u8>,
    pub p256dh: Vec<u8>,
    pub payload: Option<(ContentEncoding, String)>,
    pub ttl: Option<u32>,
    pub gcm_key: Option<String>,
}

/// Whether both subscription keys of `pn` are standard base64.
pub open spec fn keys_decodable(pn: PushNotification) -> bool {
    &&& base64_standard_decoding(pn.web.auth@) is Some
    &&& base64_standard_decoding(pn.web.p256dh@) is Some
}

/// Whether `m` is the message for `pn` with `gcm_api_key`: the device token
/// is the endpoint, the keys are decoded, a payload is encrypted with
/// aesgcm, the time to live is cut to 32 bits.
pub open spec fn legacy_plan_of(pn: PushNotification, gcm_api_key: Option<Seq<char>>, m: LegacyMessagePlan) -> bool {
    &&& m.endpoint@ == pn.device_token@
    &&& Some(m.auth@) == base64_standard_decoding(pn.web.auth@)
    &&& Some(m.p256dh@) == base64_standard_decoding(pn.web.p256dh@)
    &&& (match m.payload { Some((e, p)) => Some((e, p@)), None => None })
        == (match pn.web.payload { Some(p) => Some((ContentEncoding::AesGcm, p@)), None => None })
    &&& m.ttl == (match pn.web.ttl { Some(t) => Some(t as u32), None => None })
    &&& opt_view(m.gcm_key) == gcm_api_key
}

/// What the notifier does with a notification and the outcome of looking up
/// its application.
#[derive(Debug, Clone, PartialEq, Eq)]
pub enum NotifierAction {
    /// Send this message.
    Send(LegacyMessagePlan),
    /// The application is unknown: answer without a result.
    Skip,
}

/// Builds legacy web push messages.
pub struct Notifier {}

impl Notifier {
    /// A message builder.
    pub fn new() -> Notifier {
        Notifier {}
    }

    /// The message for `pn`, with `gcm_api_key` attached when there is one.
    pub fn build_message(pn: &PushNotification, gcm_api_key: Option<String>) -> (m: LegacyMessagePlan)
        requires
            keys_decodable(*pn),
        ensures
            legacy_plan_of(*pn, opt_view(gcm_api_key), m),
    {
        let auth = base64_decode(pn.web.auth.as_str()).unwrap();
        let p256dh = base64_decode(pn.web.p256dh.as_str()).unwrap();
        let payload = match &pn.web.payload {
            Some(p) => Some((ContentEncoding::AesGcm, p.clone())),
            None => None,
        };
        let ttl: Option<u32> = match pn.web.ttl {
            Some(t) => Some(t as u32),
            None => None,
        };
        LegacyMessagePlan {
            endpoint: pn.device_token.clone(),
            auth,
            p256dh,
            payload,
            ttl,
            gcm_key: gcm_api_key,
        }
    }

    /// The message for `pn`, or `None` when a subscription key of `pn` is
    /// not standard base64.
    pub fn try_build_message(pn: &PushNotification, gcm_api_key: Option<String>) -> (r: Option<LegacyMessagePlan>)
        ensures
            r is Some <==> keys_decodable(*pn),
            r matches Some(m) ==> legacy_plan_of(*pn, opt_view(gcm_api_key), m),
    {
        let auth = base64_decode(pn.web.auth.as_str());
        let p256dh = base64_decode(pn.web.p256dh.as_str());
        if auth.is_some() && p256dh.is_some() {
            Some(Self::build_message(pn, gcm_api_key))
        } else {
            None
        }
    }

    /// The action for `pn` given the lookup of its application's key: an
    /// unknown application is skipped, a known one gets its message; `None`
    /// when a subscription key is not standard base64.
    pub fn next_action(api: &Result<Option<String>, ()>, pn: &PushNotification) -> (r: Option<NotifierAction>)
        ensures
            match api {
                Err(_) => r == Some(NotifierAction::Skip),
                Ok(k) => (r is Some <==> keys_decodable(*pn))
                    && (r matches Some(a) ==> (a matches NotifierAction::Send(m)
                        && legacy_plan_of(*pn, opt_view(*k), m))),
            },
    {
        match api {
            Err(_) => Some(NotifierAction::Skip),
            Ok(k) => match Self::try_build_message(pn, clone_opt(k)) {
                Some(m) => Some(NotifierAction::Send(m)),
                None => None,
            },
        }
    }
}

/// A legacy web push message goes to the device token as endpoint, with the
/// auth secret and the public key each decoded from its own field, its
/// payload (when it has one) encrypted with aesgcm, its time to live cut to
/// 32 bits, and the application's GCM key when it has one.
pub proof fn legacy_message_carries_its_fields(pn: PushNotification, gcm_api_key: Option<Seq<char>>, m: LegacyMessagePlan)
    requires
        legacy_plan_of(pn, gcm_api_key, m),
    ensures
        m.endpoint@ == pn.device_token@,
        base64_standard_decoding(pn.web.auth@) == Some(m.auth@),
        base64_standard_decoding(pn.web.p256dh@) == Some(m.p256dh@),
        pn.web.payload is None ==> m.payload is None,
        pn.web.payload is Some ==> (m.payload matches Some((e, p)) && e == ContentEncoding::AesGcm
            && p@ == pn.web.payload->Some_0@),
        pn.web.ttl is None ==> m.ttl is None,
        pn.web.ttl is Some ==> m.ttl == Some(pn.web.ttl->Some_0 as u32),
        gcm_api_key is None ==> m.gcm_key is None,
        gcm_api_key is Some ==> (m.gcm_key matches Some(k) && k@ == gcm_api_key->Some_0),
{
}

} // verus!
