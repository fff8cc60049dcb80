//! The FCM message a notification turns into, decided from its Google part.
use vstd::prelude::*;
use crate::common::events::google_notification::{GoogleNotification, GooglePriority, KeyValue, Localized, DataMessage};
use crate::common::events::push_notification::PushNotification;
use crate::common::text::{opt_view, clone_opt, clone_strings};

verus! {

/// The notification part of an FCM message.
#[derive(Debug, Clone, PartialEq, Eq)]
pub struct NotificationPlan {
    pub title: Option<String>,
    pub tag: Option<String>,
    pub body: Option<String>,
    pub icon: Option<String>,
    pub sound: Option<String>,
    pub badge: Option<String>,
    pub color: Option<String>,
    pub click_action: Option<String>,
    pub body_loc_key: Option<String>,
    pub title_loc_key: Option<String>,
    pub title_loc_args: Option<Vec<String>>,
    pub body_loc_args: Option<Vec<String>>,
}

/// Everything an FCM message is built from. `data` holds key/value pairs in
/// order; a later pair overrides an earlier one with the same key.
#[derive(Debug, Clone, PartialEq, Eq)]
pub struct MessagePlan {
    pub api_key: String,
    pub to: String,
    pub data: Option<Vec<(String, String)>>,
    pub notification: Option<NotificationPlan>,
    pub registration_ids: Option<Vec<String>>,
    pub collapse_key: Option<String>,
    pub priority: GooglePriority,
    pub content_available: Option<bool>,
    pub delay_while_idle: Option<bool>,
    pub time_to_live: Option<u32>,
    pub restricted_package_name: Option<String>,
    pub dry_run: Option<bool>,
}

/// The Google part of a notification, or an empty one when it has none.
pub open spec fn google_or_default(google: Option<GoogleNotification>) -> GoogleNotification {
    match google {
        Some(g) => g,
        None => GoogleNotification {
            localized: None,
            message: DataMessage { data: arbitrary() },
            registration_ids: arbitrary(),
            collapse_key: None,
            priority: GooglePriority::Normal,
            content_available: None,
            delay_while_idle: None,
            time_to_live: None,
            restricted_package_name: None,
            dry_run: None,
        },
    }
}

/// The data pairs of a notification's data message (none without a Google part).
pub open spec fn message_data(google: Option<GoogleNotification>) -> Seq<(Seq<char>, Seq<char>)> {
    match google {
        Some(g) => kv_view(g.message.data@),
        None => seq![],
    }
}

/// The registration ids of a notification (none without a Google part).
pub open spec fn registration_ids(google: Option<GoogleNotification>) -> Seq<String> {
    match google {
        Some(g) => g.registration_ids@,
        None => seq![],
    }
}

/// Views of key/value pairs.
pub open spec fn kv_view(kvs: Seq<KeyValue>) -> Seq<(Seq<char>, Seq<char>)> {
    kvs.map_values(|kv: KeyValue| (kv.key@, kv.value@))
}

/// Views of string pairs.
pub open spec fn pair_view(ps: Seq<(String, String)>) -> Seq<(Seq<char>, Seq<char>)> {
    ps.map_values(|p: (String, String)| (p.0@, p.1@))
}

/// Optional arguments: present only when there is at least one.
pub open spec fn args_view(args: Seq<String>) -> Option<Seq<String>> {
    if args.len() > 0 { Some(args) } else { None }
}

/// The view of optional arguments.
pub open spec fn opt_args_view(o: Option<Vec<String>>) -> Option<Seq<String>> {
    match o {
        Some(v) => Some(v@),
        None => None,
    }
}

/// Whether `n` carries the fields of `l`; argument lists only when non-empty.
pub open spec fn notification_of(l: Localized, n: NotificationPlan) -> bool {
    &&& opt_view(n.title) == opt_view(l.title)
    &&& opt_view(n.tag) == opt_view(l.tag)
    &&& opt_view(n.body) == opt_view(l.body)
    &&& opt_view(n.icon) == opt_view(l.icon)
    &&& opt_view(n.sound) == opt_view(l.sound)
    &&& opt_view(n.badge) == opt_view(l.badge)
    &&& opt_view(n.color) == opt_view(l.color)
    &&& opt_view(n.click_action) == opt_view(l.click_action)
    &&& opt_view(n.body_loc_key) == opt_view(l.body_loc_key)
    &&& opt_view(n.title_loc_key) == opt_view(l.title_loc_key)
    &&& opt_args_view(n.title_loc_args) == args_view(l.title_loc_args@)
    &&& opt_args_view(n.body_loc_args) == args_view(l.body_loc_args@)
}

/// Whether `m` is the message for `event` sent with `api_key`: a localized
/// notification carries its data only when there is some; a data message
/// always carries its data; registration ids only when there are some.
pub open spec fn message_plan_of(event: PushNotification, api_key: Seq<char>, m: MessagePlan) -> bool {
    let g = google_or_default(event.google);
    &&& m.api_key@ == api_key
    &&& m.to@ == event.device_token@
    &&& match g.localized {
        Some(l) => (m.notification matches Some(n) && notification_of(l, n))
            && (match m.data {
                Some(d) => l.data@.len() > 0 && pair_view(d@) == kv_view(l.data@),
                None => l.data@.len() == 0,
            }),
        None => m.notification is None && (m.data matches Some(d) && pair_view(d@) == message_data(event.google)),
    }
    &&& opt_args_view(m.registration_ids) == args_view(registration_ids(event.google))
    &&& opt_view(m.collapse_key) == opt_view(g.collapse_key)
    &&& m.priority == g.priority
    &&& m.content_available == g.content_available
    &&& m.delay_while_idle == g.delay_while_idle
    &&& m.time_to_live == g.time_to_live
    &&& opt_view(m.restricted_package_name) == opt_view(g.restricted_package_name)
    &&& m.dry_run == g.dry_run
}

fn optional_args(args: &Vec<String>) -> (r: Option<Vec<String>>)
    ensures
        opt_args_view(r) == args_view(args@),
{
    if args.len() > 0 { Some(clone_strings(args)) } else { None }
}

fn data_pairs(kvs: &Vec<KeyValue>) -> (r: Vec<(String, String)>)
    ensures
        pair_view(r@) == kv_view(kvs@),
{
    let mut r: Vec<(String, String)> = Vec::new();
    let mut i: usize = 0;
    while i < kvs.len()
        invariant
            i <= kvs@.len(),
            r@.len() == i,
            pair_view(r@) == kv_view(kvs@.take(i as int)),
        decreases kvs@.len() - i,
    {
        let ghost old_r = r@;
        let k = kvs[i].key.clone();
        let v = kvs[i].value.clone();
        r.push((k, v));
        assert forall|j: int| 0 <= j < i + 1 implies #[trigger] pair_view(r@)[j] == kv_view(kvs@.take(i + 1))[j] by {
            if j < i {
                assert(pair_view(old_r)[j] == kv_view(kvs@.take(i as int))[j]);
                assert(r@[j] == old_r[j]);
            }
        }
        assert(pair_view(r@) =~= kv_view(kvs@.take(i + 1)));
        i = i + 1;
    }
    assert(kvs@.take(kvs@.len() as int) =~= kvs@);
    r
}

fn notification_plan(l: &Localized) -> (n: NotificationPlan)
    ensures
        notification_of(*l, n),
{
    NotificationPlan {
        title: clone_opt(&l.title),
        tag: clone_opt(&l.tag),
        body: clone_opt(&l.body),
        icon: clone_opt(&l.icon),
        sound: clone_opt(&l.sound),
        badge: clone_opt(&l.badge),
        color: clone_opt(&l.color),
        click_action: clone_opt(&l.click_action),
        body_loc_key: clone_opt(&l.body_loc_key),
        title_loc_key: clone_opt(&l.title_loc_key),
        title_loc_args: optional_args(&l.title_loc_args),
        body_loc_args: optional_args(&l.body_loc_args),
    }
}

/// Builds FCM messages from notifications.
pub struct Notifier;

impl Notifier {
    /// A message builder.
    pub fn new() -> Notifier {
        Notifier
    }

    /// The message for `pn`, sent with `api_key`.
    pub fn gen_payload(pn: &PushNotification, api_key: &str) -> (m: MessagePlan)
        ensures
            message_plan_of(*pn, api_key@, m),
    {
        match &pn.google {
            None => {
                let m = MessagePlan {
                    api_key: String::from_str(api_key),
                    to: pn.device_token.clone(),
                    data: Some(Vec::new()),
                    notification: None,
                    registration_ids: None,
                    collapse_key: None,
                    priority: GooglePriority::Normal,
                    content_available: None,
                    delay_while_idle: None,
                    time_to_live: None,
                    restricted_package_name: None,
                    dry_run: None,
                };
                assert(pair_view(Seq::<(String, String)>::empty()) =~= Seq::<(Seq<char>, Seq<char>)>::empty());
                m
            },
            Some(g) => {
                let (notification, data) = match &g.localized {
                    Some(l) => {
                        let data = if l.data.len() > 0 { Some(data_pairs(&l.data)) } else { None };
                        (Some(notification_plan(l)), data)
                    },
                    None => (None, Some(data_pairs(&g.message.data))),
                };
                MessagePlan {
                    api_key: String::from_str(api_key),
                    to: pn.device_token.clone(),
                    data,
                    notification,
                    registration_ids: optional_args(&g.registration_ids),
                    collapse_key: clone_opt(&g.collapse_key),
                    priority: g.priority,
                    content_available: g.content_available,
                    delay_while_idle: g.delay_while_idle,
                    time_to_live: g.time_to_live,
                    restricted_package_name: clone_opt(&g.restricted_package_name),
                    dry_run: g.dry_run,
                }
            },
        }
    }
}

/// Whether the string pairs `d` are the key/value pairs `kvs`, one for one
/// and in order.
pub open spec fn same_pairs(d: Seq<(String, String)>, kvs: Seq<KeyValue>) -> bool {
    &&& d.len() == kvs.len()
    &&& forall|i: int| 0 <= i < d.len() ==> (#[trigger] d[i]).0@ == kvs[i].key@ && d[i].1@ == kvs[i].value@
}

proof fn lemma_same_pairs(d: Seq<(String, String)>, kvs: Seq<KeyValue>)
    requires
        pair_view(d) == kv_view(kvs),
    ensures
        same_pairs(d, kvs),
{
    assert(pair_view(d).len() == d.len());
    assert(kv_view(kvs).len() == kvs.len());
    assert forall|i: int| 0 <= i < d.len() implies (#[trigger] d[i]).0@ == kvs[i].key@ && d[i].1@ == kvs[i].value@ by {
        assert(pair_view(d)[i] == (d[i].0@, d[i].1@));
        assert(kv_view(kvs)[i] == (kvs[i].key@, kvs[i].value@));
        assert(pair_view(d)[i] == kv_view(kvs)[i]);
    }
}

/// A localized notification carries its custom data exactly when it has
/// some: then the message's data are its key/value pairs in order; without
/// any the message has no data.
pub proof fn localized_message_carries_its_data(event: PushNotification, api_key: Seq<char>, m: MessagePlan)
    requires
        message_plan_of(event, api_key, m),
        event.google matches Some(g) && g.localized is Some,
    ensures
        ({
            let l = event.google->Some_0.localized->Some_0;
            &&& (l.data@.len() > 0 ==> (m.data is Some && same_pairs(m.data->Some_0@, l.data@)))
            &&& (l.data@.len() == 0 ==> m.data is None)
        }),
{
    let l = event.google->Some_0.localized->Some_0;
    if m.data is Some {
        lemma_same_pairs(m.data->Some_0@, l.data@);
    }
}

/// A localized notification becomes the message's notification, each field
/// in its own place; argument lists only when they are not empty.
pub proof fn localized_message_carries_its_fields(event: PushNotification, api_key: Seq<char>, m: MessagePlan)
    requires
        message_plan_of(event, api_key, m),
        event.google matches Some(g) && g.localized is Some,
    ensures
        m.notification matches Some(n) && {
            let l = event.google->Some_0.localized->Some_0;
            &&& opt_view(n.title) == opt_view(l.title)
            &&& opt_view(n.tag) == opt_view(l.tag)
            &&& opt_view(n.body) == opt_view(l.body)
            &&& opt_view(n.icon) == opt_view(l.icon)
            &&& opt_view(n.sound) == opt_view(l.sound)
            &&& opt_view(n.badge) == opt_view(l.badge)
            &&& opt_view(n.color) == opt_view(l.color)
            &&& opt_view(n.click_action) == opt_view(l.click_action)
            &&& opt_view(n.body_loc_key) == opt_view(l.body_loc_key)
            &&& opt_view(n.title_loc_key) == opt_view(l.title_loc_key)
            &&& (l.title_loc_args@.len() > 0 ==> (n.title_loc_args matches Some(v) && v@ == l.title_loc_args@))
            &&& (l.title_loc_args@.len() == 0 ==> n.title_loc_args is None)
            &&& (l.body_loc_args@.len() > 0 ==> (n.body_loc_args matches Some(v) && v@ == l.body_loc_args@))
            &&& (l.body_loc_args@.len() == 0 ==> n.body_loc_args is None)
        },
{
}

/// Without a localized notification the message is a data message: no
/// notification, and the data message's key/value pairs in order.
pub proof fn data_message_carries_its_data(event: PushNotification, api_key: Seq<char>, m: MessagePlan)
    requires
        message_plan_of(event, api_key, m),
        event.google matches Some(g) && g.localized is None,
    ensures
        m.notification is None,
        m.data is Some && same_pairs(m.data->Some_0@, event.google->Some_0.message.data@),
{
    lemma_same_pairs(m.data->Some_0@, event.google->Some_0.message.data@);
}

/// The message goes to the notification's device with the given key and the
/// Google part's options; registration ids only when there are some.
pub proof fn message_options_follow_the_notification(event: PushNotification, api_key: Seq<char>, m: MessagePlan)
    requires
        message_plan_of(event, api_key, m),
        event.google is Some,
    ensures
        ({
            let g = event.google->Some_0;
            &&& m.api_key@ == api_key
            &&& m.to@ == event.device_token@
            &&& (g.registration_ids@.len() > 0 ==> (m.registration_ids matches Some(v) && v@ == g.registration_ids@))
            &&& (g.registration_ids@.len() == 0 ==> m.registration_ids is None)
            &&& opt_view(m.collapse_key) == opt_view(g.collapse_key)
            &&& m.priority == g.priority
            &&& m.content_available == g.content_available
            &&& m.delay_while_idle == g.delay_while_idle
            &&& m.time_to_live == g.time_to_live
            &&& opt_view(m.restricted_package_name) == opt_view(g.restricted_package_name)
            &&& m.dry_run == g.dry_run
        }),
{
}

} // verus!
