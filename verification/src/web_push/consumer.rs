//! The web push service's state: which applications are configured, with
//! their VAPID signature when they have one.
use vstd::prelude::*;
use crate::common::events::application::Application;
use crate::common::events::push_notification::PushNotification;
use crate::common::kafka::response_producer::Publication;
use crate::common::registry::Registry;
use crate::web_push::producer::{WebPushError, WebPushProducer};

verus! {

/// The signing material of an application: `S` is a VAPID signature.
pub struct ApiKey<S> {
    pub fcm_api_key: Option<S>,
}

/// What a configuration asks of the web push service.
#[derive(Debug, Clone, PartialEq, Eq)]
pub enum WebConfigAction {
    /// Forget this application.
    Remove(String),
    /// Build a VAPID signature from this key and keep it for this application.
    StoreWithKey { application_id: String, fcm_api_key: String },
    /// Keep this application, without a signature.
    StoreWithoutKey { application_id: String },
}

/// The action for a configuration message with id `id`: no configuration,
/// no web part or a disabled one removes the application; otherwise it is
/// kept, with a signature when it has a key.
pub open spec fn web_config_action(id: Seq<char>, application: Option<Application>, r: WebConfigAction) -> bool {
    match application {
        None => r matches WebConfigAction::Remove(x) && x@ == id,
        Some(app) => match app.web_config {
            None => r == WebConfigAction::Remove(app.id),
            Some(web) => if !web.enabled {
                r == WebConfigAction::Remove(app.id)
            } else {
                match web.fcm_api_key {
                    Some(k) => r == (WebConfigAction::StoreWithKey { application_id: app.id, fcm_api_key: k }),
                    None => r == (WebConfigAction::StoreWithoutKey { application_id: app.id }),
                }
            },
        },
    }
}

/// Whether `after` is the table `before` once `r` took effect: a removal
/// forgets the application, an application without a key is kept without a
/// signature, and one with a key is left for `store_key`.
pub open spec fn web_config_applied<S>(before: Map<Seq<char>, ApiKey<S>>, after: Map<Seq<char>, ApiKey<S>>, r: WebConfigAction) -> bool {
    match r {
        WebConfigAction::Remove(x) => after == before.remove(x@),
        WebConfigAction::StoreWithoutKey { application_id } => after == before.insert(application_id@, ApiKey { fcm_api_key: None }),
        WebConfigAction::StoreWithKey { .. } => after == before,
    }
}

/// The web push service: its answers and the configured applications.
pub struct WebPushHandler<S> {
    pub producer: WebPushProducer,
    fcm_api_keys: Registry<ApiKey<S>>,
}

impl<S> WebPushHandler<S> {
    /// The configured applications, by id.
    pub closed spec fn api_keys(&self) -> Map<Seq<char>, ApiKey<S>> {
        self.fcm_api_keys@
    }

    /// The table is well formed.
    pub closed spec fn wf(&self) -> bool {
        self.fcm_api_keys.wf()
    }

    /// A service with no configured application.
    pub fn new() -> (r: WebPushHandler<S>)
        ensures
            r.wf(),
            r.api_keys() == Map::<Seq<char>, ApiKey<S>>::empty(),
    {
        WebPushHandler { producer: WebPushProducer::new(), fcm_api_keys: Registry::new() }
    }

    /// Whether the service takes a notification: it must have a web part.
    pub fn accepts(&self, event: &PushNotification) -> (r: bool)
        ensures
            r == event.web is Some,
    {
        event.web.is_some()
    }

    /// Decides what a configuration message asks for.
    pub fn config_action(id: &str, application: Option<Application>) -> (r: WebConfigAction)
        ensures
            web_config_action(id@, application, r),
    {
        match application {
            None => WebConfigAction::Remove(String::from_str(id)),
            Some(app) => {
                let Application { id: app_id, organization: _, ios_config: _, android_config: _, web_config } = app;
                match web_config {
                    None => WebConfigAction::Remove(app_id),
                    Some(web) => {
                        if !web.enabled {
                            WebConfigAction::Remove(app_id)
                        } else {
                            match web.fcm_api_key {
                                Some(k) => WebConfigAction::StoreWithKey { application_id: app_id, fcm_api_key: k },
                                None => WebConfigAction::StoreWithoutKey { application_id: app_id },
                            }
                        }
                    },
                }
            },
        }
    }

    /// Applies a configuration message: removals and applications without a
    /// key take effect here; for a key the caller builds the signature and
    /// hands it to `store_key`.
    pub fn handle_config(&mut self, id: &str, application: Option<Application>) -> (r: WebConfigAction)
        requires
            old(self).wf(),
        ensures
            final(self).wf(),
            web_config_action(id@, application, r),
            web_config_applied(old(self).api_keys(), final(self).api_keys(), r),
    {
        let action = Self::config_action(id, application);
        match &action {
            WebConfigAction::Remove(x) => {
                self.delete_key(x.as_str());
            },
            WebConfigAction::StoreWithoutKey { application_id } => {
                self.store_key(application_id.clone(), None);
            },
            WebConfigAction::StoreWithKey { .. } => {},
        }
        action
    }

    /// Keeps `application_id` configured with `signature`.
    pub fn store_key(&mut self, application_id: String, signature: Option<S>)
        requires
            old(self).wf(),
        ensures
            final(self).wf(),
            final(self).api_keys() == old(self).api_keys().insert(application_id@, ApiKey { fcm_api_key: signature }),
    {
        self.fcm_api_keys.insert(application_id, ApiKey { fcm_api_key: signature });
    }

    /// Forgets `id`; says whether it was configured.
    pub fn delete_key(&mut self, id: &str) -> (r: bool)
        requires
            old(self).wf(),
        ensures
            final(self).wf(),
            final(self).api_keys() == old(self).api_keys().remove(id@),
            r == old(self).api_keys().contains_key(id@),
    {
        self.fcm_api_keys.remove(id).is_some()
    }

    /// Number of configured applications.
    pub fn application_count(&self) -> (r: usize)
        requires
            self.wf(),
        ensures
            r == self.api_keys().len(),
    {
        self.fcm_api_keys.len()
    }

    /// The configuration to send `event` with: that of its application.
    pub fn entity_for(&self, event: &PushNotification) -> (r: Option<&ApiKey<S>>)
        requires
            self.wf(),
        ensures
            r is Some <==> self.api_keys().contains_key(event.universe@),
            r matches Some(e) ==> *e == self.api_keys()[event.universe@],
    {
        self.fcm_api_keys.get(event.universe.as_str())
    }

    /// The answer to a push whose outcome was `outcome`: success, a failure
    /// with its error, or a failure without one (taken as a server error).
    pub fn answer(&self, key: Option<Vec<u8>>, event: PushNotification, outcome: Result<(), Option<WebPushError>>) -> (r: Publication)
        ensures
            match outcome {
                Ok(()) => crate::common::kafka::response_producer::publishes(r, key, event,
                    crate::common::events::push_result::ResponseAction::NoAction, Some("success"@)),
                Err(e) => {
                    let err = match e { Some(x) => x, None => WebPushError::ServerError };
                    crate::common::kafka::response_producer::publishes(r, key, event,
                        crate::web_push::producer::error_action(err),
                        Some(crate::web_push::producer::short_description(err)))
                },
            },
    {
        match outcome {
            Ok(()) => self.producer.handle_ok(key, event),
            Err(e) => {
                let err = match e { Some(x) => x, None => WebPushError::ServerError };
                self.producer.handle_error(key, event, &err)
            },
        }
    }
}

/// An application configured with an enabled web part and a key is sent
/// with the signature built from that key and stored with `store_key`;
/// without a key, it is sent unsigned.
pub proof fn configured_application_is_sent<S>(
    before: Map<Seq<char>, ApiKey<S>>,
    mid: Map<Seq<char>, ApiKey<S>>,
    after: Map<Seq<char>, ApiKey<S>>,
    id: Seq<char>,
    app: Application,
    r: WebConfigAction,
    signature: S,
)
    requires
        web_config_action(id, Some(app), r),
        web_config_applied(before, mid, r),
        app.web_config matches Some(w) && w.enabled,
        r matches WebConfigAction::StoreWithKey { application_id, .. } ==>
            after == mid.insert(application_id@, ApiKey { fcm_api_key: Some(signature) }),
        r is StoreWithoutKey ==> after == mid,
    ensures
        after.contains_key(app.id@),
        app.web_config->0.fcm_api_key is Some ==> after[app.id@] == (ApiKey { fcm_api_key: Some(signature) }),
        app.web_config->0.fcm_api_key is None ==> after[app.id@] == (ApiKey::<S> { fcm_api_key: None }),
{
}

/// A configuration that removes an application (none at all, no web part or
/// a disabled one) leaves the service with no entry for it, so that its
/// notifications are answered as having no configuration.
pub proof fn removed_application_is_unknown<S>(
    before: Map<Seq<char>, ApiKey<S>>,
    after: Map<Seq<char>, ApiKey<S>>,
    id: Seq<char>,
    application: Option<Application>,
    r: WebConfigAction,
)
    requires
        web_config_action(id, application, r),
        web_config_applied(before, after, r),
        r is Remove,
    ensures
        !after.contains_key(r->Remove_0@),
        r->Remove_0@ == (match application { Some(app) => app.id@, None => id }),
{
}

/// A configuration message changes the entry of its own application only.
pub proof fn web_configuration_is_per_application<S>(
    before: Map<Seq<char>, ApiKey<S>>,
    after: Map<Seq<char>, ApiKey<S>>,
    id: Seq<char>,
    application: Option<Application>,
    r: WebConfigAction,
    other: Seq<char>,
)
    requires
        web_config_action(id, application, r),
        web_config_applied(before, after, r),
        other != (match application { Some(app) => app.id@, None => id }),
    ensures
        after.contains_key(other) == before.contains_key(other),
        before.contains_key(other) ==> after[other] == before[other],
{
}

} // verus!
