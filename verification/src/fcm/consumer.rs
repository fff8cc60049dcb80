//! The FCM service's state: the FCM server key of each application, kept in
//! step with the tenant configuration.
use vstd::prelude::*;
use crate::common::events::application::Application;
use crate::common::events::push_notification::PushNotification;
use crate::common::registry::Registry;
use crate::fcm::producer::{FcmProducer, FcmError, ErrorReason, first_error, reason_name};
use crate::common::events::push_result::ResponseAction;
use crate::common::kafka::response_producer::{Publication, publishes};

verus! {

/// What a configuration asks of the FCM service.
#[derive(Debug, Clone, PartialEq, Eq)]
pub enum AndroidConfigAction {
    /// Forget the key of this application.
    Remove(String),
    /// Keep this key for this application.
    Store { application_id: String, api_key: String },
}

/// The action for a configuration message with id `id`: no configuration,
/// no Android part, a disabled one or one without a key removes the
/// application; otherwise its key is stored.
pub open spec fn android_config_action(id: Seq<char>, application: Option<Application>, r: AndroidConfigAction) -> bool {
    match application {
        None => r matches AndroidConfigAction::Remove(x) && x@ == id,
        Some(app) => match app.android_config {
            None => r == AndroidConfigAction::Remove(app.id),
            Some(android) => if !android.enabled {
                r == AndroidConfigAction::Remove(app.id)
            } else {
                match android.fcm_api_key {
                    Some(k) => r == (AndroidConfigAction::Store { application_id: app.id, api_key: k }),
                    None => r == AndroidConfigAction::Remove(app.id),
                }
            },
        },
    }
}

/// Whether `after` is the table of keys `before` once `r` took effect: a
/// removal forgets the application's key, a store sets it.
pub open spec fn android_config_applied(before: Map<Seq<char>, String>, after: Map<Seq<char>, String>, r: AndroidConfigAction) -> bool {
    match r {
        AndroidConfigAction::Remove(x) => after == before.remove(x@),
        AndroidConfigAction::Store { application_id, api_key } => after == before.insert(application_id@, api_key),
    }
}

/// How to handle a notification.
#[derive(Debug, Clone, PartialEq, Eq)]
pub enum NotificationRoute {
    /// Send with this server key; the answer is published under `response_key`.
    Send { api_key: String, response_key: Option<Vec<u8>> },
    /// The application has no key; the answer is published under `response_key`.
    NoCertificate { response_key: Option<Vec<u8>> },
}

/// Whether `r` is the way to handle a notification of `universe` read with
/// Kafka key `key`, given the table `keys`: with the application's key when
/// it has one, else as having none; either way the answer goes out under
/// `key`, the routing key of the request.
pub open spec fn routes(keys: Map<Seq<char>, String>, key: Option<Vec<u8>>, universe: Seq<char>, r: NotificationRoute) -> bool {
    if keys.contains_key(universe) {
        r == (NotificationRoute::Send { api_key: keys[universe], response_key: key })
    } else {
        r == (NotificationRoute::NoCertificate { response_key: key })
    }
}

/// The FCM service: its answers and the server key of each application.
pub struct FcmHandler {
    pub producer: FcmProducer,
    api_keys: Registry<String>,
}

impl FcmHandler {
    /// The server keys, by application id.
    pub closed spec fn api_keys(&self) -> Map<Seq<char>, String> {
        self.api_keys@
    }

    /// The table of keys is well formed.
    pub closed spec fn wf(&self) -> bool {
        self.api_keys.wf()
    }

    /// A service that knows no keys.
    pub fn new() -> (r: FcmHandler)
        ensures
            r.wf(),
            r.api_keys() == Map::<Seq<char>, String>::empty(),
    {
        FcmHandler { producer: FcmProducer::new(), api_keys: Registry::new() }
    }

    /// Whether the service takes a notification: it must have a Google part.
    pub fn accepts(&self, event: &PushNotification) -> (r: bool)
        ensures
            r == event.google is Some,
    {
        event.google.is_some()
    }

    /// Decides what a configuration message asks for.
    pub fn config_action(id: &str, application: Option<Application>) -> (r: AndroidConfigAction)
        ensures
            android_config_action(id@, application, r),
    {
        match application {
            None => AndroidConfigAction::Remove(String::from_str(id)),
            Some(app) => {
                let Application { id: app_id, organization: _, ios_config: _, android_config, web_config: _ } = app;
                match android_config {
                    None => AndroidConfigAction::Remove(app_id),
                    Some(android) => {
                        if !android.enabled {
                            AndroidConfigAction::Remove(app_id)
                        } else {
                            match android.fcm_api_key {
                                Some(k) => AndroidConfigAction::Store { application_id: app_id, api_key: k },
                                None => AndroidConfigAction::Remove(app_id),
                            }
                        }
                    },
                }
            },
        }
    }

    /// Applies a configuration message to the table of keys.
    pub fn handle_config(&mut self, id: &str, application: Option<Application>) -> (r: AndroidConfigAction)
        requires
            old(self).wf(),
        ensures
            final(self).wf(),
            android_config_action(id@, application, r),
            android_config_applied(old(self).api_keys(), final(self).api_keys(), r),
    {
        let action = Self::config_action(id, application);
        match &action {
            AndroidConfigAction::Remove(x) => {
                self.delete_key(x.as_str());
            },
            AndroidConfigAction::Store { application_id, api_key } => {
                self.api_keys.insert(application_id.clone(), api_key.clone());
            },
        }
        action
    }

    /// Forgets the key of `id`; says whether there was one.
    pub fn delete_key(&mut self, id: &str) -> (r: bool)
        requires
            old(self).wf(),
        ensures
            final(self).wf(),
            final(self).api_keys() == old(self).api_keys().remove(id@),
            r == old(self).api_keys().contains_key(id@),
    {
        self.api_keys.remove(id).is_some()
    }

    /// Number of applications with a key.
    pub fn application_count(&self) -> (r: usize)
        requires
            self.wf(),
        ensures
            r == self.api_keys().len(),
    {
        self.api_keys.len()
    }

    /// The answer to a send whose outcome was `outcome`: the per-device
    /// errors of a response, or a failed request.
    pub fn answer(&self, key: Option<Vec<u8>>, event: PushNotification, outcome: Result<Option<Vec<Option<ErrorReason>>>, FcmError>) -> (r: Publication)
        ensures
            match outcome {
                Ok(results) => {
                    let first = first_error(match results { Some(v) => Some(v@), None => None });
                    publishes(r, key, event,
                        if first == Some(ErrorReason::NotRegistered) { ResponseAction::UnsubscribeEntity } else { ResponseAction::NoAction },
                        match first { Some(e) => Some(reason_name(e)), None => None })
                },
                Err(e) => publishes(r, key, event,
                    if e == FcmError::ServerError { ResponseAction::Retry } else { ResponseAction::NoAction },
                    Some(match e {
                        FcmError::ServerError => "server_error"@,
                        FcmError::Unauthorized => "unauthorized"@,
                        FcmError::InvalidMessage => "invalid_message"@,
                    })),
            },
    {
        match outcome {
            Ok(results) => self.producer.handle_response(key, event, results),
            Err(e) => self.producer.handle_error(key, event, e),
        }
    }

    /// How to handle `event`, read with Kafka key `key`: with the key of its
    /// application, or as having none; the answer goes out under `key`.
    pub fn notification_route(&self, key: Option<Vec<u8>>, event: &PushNotification) -> (r: NotificationRoute)
        requires
            self.wf(),
        ensures
            routes(self.api_keys(), key, event.universe@, r),
    {
        match self.api_keys.get(event.universe.as_str()) {
            Some(api_key) => NotificationRoute::Send { api_key: api_key.clone(), response_key: key },
            None => NotificationRoute::NoCertificate { response_key: key },
        }
    }
}

/// Configuring an application with an enabled Android part that carries a
/// key makes the service send that application's notifications with that
/// key, answering under the request's own routing key.
pub proof fn enabled_key_is_used(
    before: Map<Seq<char>, String>,
    after: Map<Seq<char>, String>,
    id: Seq<char>,
    app: Application,
    r: AndroidConfigAction,
    key: Option<Vec<u8>>,
    route: NotificationRoute,
)
    requires
        android_config_action(id, Some(app), r),
        android_config_applied(before, after, r),
        app.android_config matches Some(a) && a.enabled && a.fcm_api_key is Some,
        routes(after, key, app.id@, route),
    ensures
        route == (NotificationRoute::Send { api_key: app.android_config->0.fcm_api_key->0, response_key: key }),
{
}

/// A configuration that removes an application (none at all, no Android
/// part, a disabled one or one without a key) makes the service answer that
/// application's notifications as having no key, under their own Kafka key.
pub proof fn removed_application_has_no_key(
    before: Map<Seq<char>, String>,
    after: Map<Seq<char>, String>,
    id: Seq<char>,
    application: Option<Application>,
    r: AndroidConfigAction,
    key: Option<Vec<u8>>,
    route: NotificationRoute,
)
    requires
        android_config_action(id, application, r),
        android_config_applied(before, after, r),
        r is Remove,
        routes(after, key, r->Remove_0@, route),
    ensures
        route == (NotificationRoute::NoCertificate { response_key: key }),
        application matches Some(app) ==> r->Remove_0@ == app.id@,
        application is None ==> r->Remove_0@ == id,
{
}

/// A configuration message changes the key of its own application only:
/// every other application keeps its key, or its absence.
pub proof fn configuration_is_per_application(
    before: Map<Seq<char>, String>,
    after: Map<Seq<char>, String>,
    id: Seq<char>,
    application: Option<Application>,
    r: AndroidConfigAction,
    other: Seq<char>,
)
    requires
        android_config_action(id, application, r),
        android_config_applied(before, after, r),
        other != (match application { Some(app) => app.id@, None => id }),
    ensures
        after.contains_key(other) == before.contains_key(other),
        before.contains_key(other) ==> after[other] == before[other],
{
}

} // verus!
