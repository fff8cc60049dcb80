//! The APNs payload a notification turns into: the request options and the
//! alert, decided from the notification's Apple part.
use vstd::prelude::*;
use crate::common::events::apple_notification::{AppleNotification, AppleHeaders, CustomData, LocalizedAlert};
use crate::common::events::push_notification::PushNotification;
use crate::common::text::{opt_view, clone_opt, clone_strings};

verus! {

/// APNs delivery priority.
#[derive(Debug, Clone, Copy, PartialEq, Eq, Structural)]
pub enum Priority {
    High,
    Normal,
}

/// The APNs request options.
#[derive(Debug, Clone, PartialEq, Eq)]
pub struct NotificationOptions {
    pub apns_id: Option<String>,
    pub apns_expiration: Option<u64>,
    pub apns_priority: Option<Priority>,
    pub apns_topic: Option<String>,
}

/// A localized alert to build.
#[derive(Debug, Clone, PartialEq, Eq)]
pub struct LocalizedPlan {
    pub title: String,
    pub body: String,
    pub title_loc_key: Option<String>,
    pub title_loc_args: Option<Vec<String>>,
    pub action_loc_key: Option<String>,
    pub launch_image: Option<String>,
    pub loc_key: Option<String>,
    pub loc_args: Option<Vec<String>>,
    pub badge: Option<u32>,
    pub sound: Option<String>,
    pub category: Option<String>,
    pub mutable_content: bool,
}

/// A plain-text alert to build.
#[derive(Debug, Clone, PartialEq, Eq)]
pub struct PlainPlan {
    pub text: String,
    pub badge: Option<u32>,
    pub sound: Option<String>,
    pub category: Option<String>,
}

/// Which kind of notification to build.
#[derive(Debug, Clone, PartialEq, Eq)]
pub enum PayloadBody {
    Localized(LocalizedPlan),
    Silent,
    Plain(PlainPlan),
}

/// Everything the APNs payload of a notification is built from.
#[derive(Debug, Clone, PartialEq, Eq)]
pub struct PayloadPlan {
    pub device_token: String,
    pub options: NotificationOptions,
    pub body: PayloadBody,
    /// Key and JSON body of custom data to attach; only a body that is JSON
    /// is attached.
    pub custom_data: Option<CustomData>,
}

/// The Apple part of a notification, or an empty one when it has none.
pub open spec fn apple_or_default(apple: Option<AppleNotification>) -> AppleNotification {
    match apple {
        Some(a) => a,
        None => AppleNotification {
            headers: AppleHeaders { apns_priority: None, apns_expiration: None, apns_topic: None },
            localized: None,
            silent: None,
            plain: arbitrary(),
            badge: None,
            sound: None,
            category: None,
            custom_data: None,
        },
    }
}

/// The text of the plain alert: the Apple part's, empty when there is none.
pub open spec fn plain_text(apple: Option<AppleNotification>) -> Seq<char> {
    match apple {
        Some(a) => a.plain@,
        None => seq![],
    }
}

/// Optional arguments: present only when there is at least one.
pub open spec fn args_view(args: Seq<String>) -> Option<Seq<String>> {
    if args.len() > 0 { Some(args) } else { None }
}

/// The view of optional arguments.
pub open spec fn opt_args_view(o: Option<Vec<String>>) -> Option<Seq<String>> {
    match o {
        Some(v) => Some(v@),
        None => None,
    }
}

/// Whether `o` are the options for `event`: priority 10 is high and any
/// other given priority normal; the message id is the correlation id; the
/// topic is the requested one, else the connection's `topic`.
pub open spec fn options_of(event: PushNotification, topic: Seq<char>, o: NotificationOptions) -> bool {
    let h = apple_or_default(event.apple).headers;
    &&& o.apns_priority == (match h.apns_priority {
        Some(p) => Some(if p == 10 { Priority::High } else { Priority::Normal }),
        None => None,
    })
    &&& opt_view(o.apns_id) == opt_view(event.correlation_id)
    &&& o.apns_expiration == h.apns_expiration
    &&& opt_view(o.apns_topic) == Some(match h.apns_topic { Some(t) => t@, None => topic })
}

/// Whether `l` is the localized alert for `alert` with the Apple part's badge,
/// sound and category.
pub open spec fn localized_of(apple: AppleNotification, alert: LocalizedAlert, l: LocalizedPlan) -> bool {
    &&& l.title@ == alert.title@
    &&& l.body@ == alert.body@
    &&& opt_view(l.title_loc_key) == opt_view(alert.title_loc_key)
    &&& opt_args_view(l.title_loc_args) == args_view(alert.title_loc_args@)
    &&& opt_view(l.action_loc_key) == opt_view(alert.action_loc_key)
    &&& opt_view(l.launch_image) == opt_view(alert.launch_image)
    &&& opt_view(l.loc_key) == opt_view(alert.loc_key)
    &&& opt_args_view(l.loc_args) == args_view(alert.loc_args@)
    &&& l.badge == apple.badge
    &&& opt_view(l.sound) == opt_view(apple.sound)
    &&& opt_view(l.category) == opt_view(apple.category)
    &&& l.mutable_content == (alert.mutable_content == Some(true))
}

/// Whether `p` is the payload plan of `event` on a connection for `topic`:
/// localized when the Apple part has an alert, else silent when its `silent`
/// field is set at all (to either value), else plain text; custom data is
/// attached when its body is JSON.
pub open spec fn payload_plan_of(event: PushNotification, topic: Seq<char>, p: PayloadPlan) -> bool {
    let apple = apple_or_default(event.apple);
    &&& p.device_token@ == event.device_token@
    &&& options_of(event, topic, p.options)
    &&& p.custom_data == attached_custom_data(apple.custom_data)
    &&& match apple.localized {
        Some(alert) => p.body matches PayloadBody::Localized(l) && localized_of(apple, alert, l),
        None => if apple.silent is Some {
            p.body == PayloadBody::Silent
        } else {
            p.body matches PayloadBody::Plain(pl)
                && pl.text@ == plain_text(event.apple)
                && pl.badge == apple.badge
                && opt_view(pl.sound) == opt_view(apple.sound)
                && opt_view(pl.category) == opt_view(apple.category)
        },
    }
}

fn optional_args(args: &Vec<String>) -> (r: Option<Vec<String>>)
    ensures
        opt_args_view(r) == args_view(args@),
{
    if args.len() > 0 { Some(clone_strings(args)) } else { None }
}

/// Whether `serde_json` parses `s` as a JSON value.
pub uninterp spec fn parses_as_json(s: Seq<char>) -> bool;

/// Calls `serde_json::from_str::<serde_json::Value>` and keeps whether it
/// succeeded; the result is tied to the text by the name `parses_as_json`,
/// the JSON grammar is not restated.
#[verifier::external_body]
fn is_json(s: &str) -> (r: bool)
    ensures
        r == parses_as_json(s@),
{
    serde_json::from_str::<serde_json::Value>(s).is_ok()
}

/// The custom data attached to a payload: the given one when its body is
/// JSON, none otherwise.
pub open spec fn attached_custom_data(c: Option<CustomData>) -> Option<CustomData> {
    match c {
        Some(d) => if parses_as_json(d.body@) { Some(d) } else { None },
        None => None,
    }
}

fn custom_to_attach(c: &Option<CustomData>) -> (r: Option<CustomData>)
    ensures
        r == attached_custom_data(*c),
{
    match c {
        Some(d) => if is_json(d.body.as_str()) {
            Some(CustomData { key: d.key.clone(), body: d.body.clone() })
        } else {
            None
        },
        None => None,
    }
}

/// The options for `event` on a connection for `topic`.
fn gen_options(event: &PushNotification, topic: &str) -> (o: NotificationOptions)
    ensures
        options_of(*event, topic@, o),
{
    let (priority, expiration, requested_topic) = match &event.apple {
        Some(a) => (a.headers.apns_priority, a.headers.apns_expiration, clone_opt(&a.headers.apns_topic)),
        None => (None, None, None),
    };
    let apns_priority = match priority {
        Some(p) => Some(if p == 10 { Priority::High } else { Priority::Normal }),
        None => None,
    };
    let apns_topic = match requested_topic {
        Some(t) => Some(t),
        None => Some(String::from_str(topic)),
    };
    NotificationOptions {
        apns_id: clone_opt(&event.correlation_id),
        apns_expiration: expiration,
        apns_priority,
        apns_topic,
    }
}

/// The payload plan for `event` on a connection for `topic`.
pub fn gen_payload(event: &PushNotification, topic: &str) -> (r: PayloadPlan)
    ensures
        payload_plan_of(*event, topic@, r),
{
    let options = gen_options(event, topic);
    let device_token = event.device_token.clone();
    match &event.apple {
        None => PayloadPlan {
            device_token,
            options,
            body: PayloadBody::Plain(PlainPlan { text: String::new(), badge: None, sound: None, category: None }),
            custom_data: None,
        },
        Some(apple) => {
            let body = match &apple.localized {
                Some(alert) => PayloadBody::Localized(LocalizedPlan {
                    title: alert.title.clone(),
                    body: alert.body.clone(),
                    title_loc_key: clone_opt(&alert.title_loc_key),
                    title_loc_args: optional_args(&alert.title_loc_args),
                    action_loc_key: clone_opt(&alert.action_loc_key),
                    launch_image: clone_opt(&alert.launch_image),
                    loc_key: clone_opt(&alert.loc_key),
                    loc_args: optional_args(&alert.loc_args),
                    badge: apple.badge,
                    sound: clone_opt(&apple.sound),
                    category: clone_opt(&apple.category),
                    mutable_content: match alert.mutable_content { Some(m) => m, None => false },
                }),
                None => if apple.silent.is_some() {
                    PayloadBody::Silent
                } else {
                    PayloadBody::Plain(PlainPlan {
                        text: apple.plain.clone(),
                        badge: apple.badge,
                        sound: clone_opt(&apple.sound),
                        category: clone_opt(&apple.category),
                    })
                },
            };
            PayloadPlan { device_token, options, body, custom_data: custom_to_attach(&apple.custom_data) }
        },
    }
}

/// A plain alert (an Apple part with neither a localized alert nor the silent
/// flag) carries the Apple part's text, badge, sound and category, each in
/// its own place.
pub proof fn plain_alert_carries_its_fields(event: PushNotification, topic: Seq<char>, p: PayloadPlan)
    requires
        payload_plan_of(event, topic, p),
        event.apple matches Some(a) && a.localized is None && a.silent is None,
    ensures
        p.body matches PayloadBody::Plain(pl) && {
            let a = event.apple->Some_0;
            &&& pl.text@ == a.plain@
            &&& pl.badge == a.badge
            &&& opt_view(pl.sound) == opt_view(a.sound)
            &&& opt_view(pl.category) == opt_view(a.category)
        },
{
}

/// A localized alert carries its title, body, keys, arguments (when there are
/// any) and mutable-content flag, with the Apple part's badge, sound and
/// category, each in its own place.
pub proof fn localized_alert_carries_its_fields(event: PushNotification, topic: Seq<char>, p: PayloadPlan)
    requires
        payload_plan_of(event, topic, p),
        event.apple matches Some(a) && a.localized is Some,
    ensures
        p.body matches PayloadBody::Localized(l) && {
            let a = event.apple->Some_0;
            let alert = a.localized->Some_0;
            &&& l.title@ == alert.title@
            &&& l.body@ == alert.body@
            &&& opt_view(l.title_loc_key) == opt_view(alert.title_loc_key)
            &&& opt_view(l.action_loc_key) == opt_view(alert.action_loc_key)
            &&& opt_view(l.launch_image) == opt_view(alert.launch_image)
            &&& opt_view(l.loc_key) == opt_view(alert.loc_key)
            &&& (alert.title_loc_args@.len() > 0 ==> (l.title_loc_args matches Some(v) && v@ == alert.title_loc_args@))
            &&& (alert.title_loc_args@.len() == 0 ==> l.title_loc_args is None)
            &&& (alert.loc_args@.len() > 0 ==> (l.loc_args matches Some(v) && v@ == alert.loc_args@))
            &&& (alert.loc_args@.len() == 0 ==> l.loc_args is None)
            &&& l.badge == a.badge
            &&& opt_view(l.sound) == opt_view(a.sound)
            &&& opt_view(l.category) == opt_view(a.category)
            &&& (l.mutable_content <==> alert.mutable_content == Some(true))
        },
{
}

/// Without a localized alert, a set silent flag (to either value) asks for a
/// silent notification; with one, the alert wins.
pub proof fn silent_flag_asks_for_silence(event: PushNotification, topic: Seq<char>, p: PayloadPlan)
    requires
        payload_plan_of(event, topic, p),
    ensures
        (event.apple matches Some(a) && a.localized is None && a.silent is Some) ==> p.body == PayloadBody::Silent,
        p.body == PayloadBody::Silent ==> (event.apple matches Some(a) && a.localized is None && a.silent is Some),
{
}

/// The request goes to the notification's device with its correlation id as
/// message id, its expiration, priority 10 as high and any other given
/// priority as normal, and its own topic or else the connection's; custom
/// data is attached exactly when it is given with a JSON body.
pub proof fn payload_options_follow_the_notification(event: PushNotification, topic: Seq<char>, p: PayloadPlan)
    requires
        payload_plan_of(event, topic, p),
        event.apple is Some,
    ensures
        ({
            let a = event.apple->Some_0;
            &&& p.device_token@ == event.device_token@
            &&& opt_view(p.options.apns_id) == opt_view(event.correlation_id)
            &&& p.options.apns_expiration == a.headers.apns_expiration
            &&& (a.headers.apns_priority == Some(10i32) ==> p.options.apns_priority == Some(Priority::High))
            &&& ((a.headers.apns_priority matches Some(n) && n != 10) ==> p.options.apns_priority == Some(Priority::Normal))
            &&& (a.headers.apns_priority is None ==> p.options.apns_priority is None)
            &&& (a.headers.apns_topic is Some ==> opt_view(p.options.apns_topic) == Some(a.headers.apns_topic->Some_0@))
            &&& (a.headers.apns_topic is None ==> opt_view(p.options.apns_topic) == Some(topic))
            &&& (p.custom_data is Some <==> (a.custom_data is Some && parses_as_json(a.custom_data->Some_0.body@)))
            &&& (p.custom_data is Some ==> p.custom_data == a.custom_data)
        }),
{
}

} // verus!
