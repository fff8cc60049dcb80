//! The APNs service's state: one connection per application, kept in step
//! with the tenant configuration.
use vstd::prelude::*;
use crate::common::events::application::{Application, IosCertificate, IosToken};
use crate::common::events::push_notification::PushNotification;
use crate::common::registry::Registry;
use crate::apns2::producer::{ApnsProducer, ErrorKind, error_action};
use crate::common::events::push_result::ResponseAction;
use crate::common::kafka::response_producer::{Publication, publishes};
use crate::common::text::snake_case;

verus! {

/// What a configuration asks of the APNs service.
#[derive(Debug, Clone, PartialEq, Eq)]
pub enum IosConfigAction {
    /// Drop the connection of this application, if any.
    Remove(String),
    /// Connect with a signing key and keep the connection for this application.
    ConnectWithToken { application_id: String, token: IosToken },
    /// Connect with a client certificate and keep the connection for this application.
    ConnectWithCertificate { application_id: String, certificate: IosCertificate },
}

/// The action for a configuration message with id `id`: no configuration,
/// no iOS part, a disabled one or one without connection details removes the
/// application; otherwise a token takes precedence over a certificate.
pub open spec fn ios_config_action(id: Seq<char>, application: Option<Application>, r: IosConfigAction) -> bool {
    match application {
        None => r matches IosConfigAction::Remove(x) && x@ == id,
        Some(app) => match app.ios_config {
            None => r == IosConfigAction::Remove(app.id),
            Some(ios) => if !ios.enabled {
                r == IosConfigAction::Remove(app.id)
            } else if ios.token is Some {
                r == (IosConfigAction::ConnectWithToken { application_id: app.id, token: ios.token->0 })
            } else if ios.certificate is Some {
                r == (IosConfigAction::ConnectWithCertificate { application_id: app.id, certificate: ios.certificate->0 })
            } else {
                r == IosConfigAction::Remove(app.id)
            },
        },
    }
}

/// Whether `after` is the table of connections `before` once `r` took
/// effect here: a removal drops the application's connection; a connect
/// action leaves the table for `add_notifier`.
pub open spec fn ios_config_applied<N>(before: Map<Seq<char>, N>, after: Map<Seq<char>, N>, r: IosConfigAction) -> bool {
    match r {
        IosConfigAction::Remove(x) => after == before.remove(x@),
        _ => after == before,
    }
}

/// The APNs service: its answers and a connection `N` per application.
pub struct ApnsHandler<N> {
    pub producer: ApnsProducer,
    notifiers: Registry<N>,
}

impl<N> ApnsHandler<N> {
    /// The connections, by application id.
    pub closed spec fn notifiers(&self) -> Map<Seq<char>, N> {
        self.notifiers@
    }

    /// The table of connections is well formed.
    pub closed spec fn wf(&self) -> bool {
        self.notifiers.wf()
    }

    /// A service with no connections.
    pub fn new() -> (r: ApnsHandler<N>)
        ensures
            r.wf(),
            r.notifiers() == Map::<Seq<char>, N>::empty(),
    {
        ApnsHandler { producer: ApnsProducer::new(), notifiers: Registry::new() }
    }

    /// Whether the service takes a notification: it must have an Apple part.
    pub fn accepts(&self, event: &PushNotification) -> (r: bool)
        ensures
            r == event.apple is Some,
    {
        event.apple.is_some()
    }

    /// Decides what a configuration message asks for.
    pub fn config_action(id: &str, application: Option<Application>) -> (r: IosConfigAction)
        ensures
            ios_config_action(id@, application, r),
    {
        match application {
            None => IosConfigAction::Remove(String::from_str(id)),
            Some(app) => {
                let Application { id: app_id, organization: _, ios_config, android_config: _, web_config: _ } = app;
                match ios_config {
                    None => IosConfigAction::Remove(app_id),
                    Some(ios) => {
                        if !ios.enabled {
                            IosConfigAction::Remove(app_id)
                        } else {
                            match ios.token {
                                Some(token) => IosConfigAction::ConnectWithToken { application_id: app_id, token },
                                None => match ios.certificate {
                                    Some(certificate) => IosConfigAction::ConnectWithCertificate {
                                        application_id: app_id,
                                        certificate,
                                    },
                                    None => IosConfigAction::Remove(app_id),
                                },
                            }
                        }
                    },
                }
            },
        }
    }

    /// Handles a configuration message: removals take effect here; a connect
    /// action is returned for the caller to open the connection and hand it
    /// to `add_notifier`.
    pub fn handle_config(&mut self, id: &str, application: Option<Application>) -> (r: IosConfigAction)
        requires
            old(self).wf(),
        ensures
            final(self).wf(),
            ios_config_action(id@, application, r),
            ios_config_applied(old(self).notifiers(), final(self).notifiers(), r),
    {
        let action = Self::config_action(id, application);
        match &action {
            IosConfigAction::Remove(x) => {
                let _ = self.delete_notifier(x.as_str());
            },
            _ => {},
        }
        action
    }

    /// Keeps `notifier` as the connection of `application_id`.
    pub fn add_notifier(&mut self, application_id: String, notifier: N)
        requires
            old(self).wf(),
        ensures
            final(self).wf(),
            final(self).notifiers() == old(self).notifiers().insert(application_id@, notifier),
    {
        self.notifiers.insert(application_id, notifier);
    }

    /// Drops the connection of `id`; says whether there was one.
    pub fn delete_notifier(&mut self, id: &str) -> (r: bool)
        requires
            old(self).wf(),
        ensures
            final(self).wf(),
            final(self).notifiers() == old(self).notifiers().remove(id@),
            r == old(self).notifiers().contains_key(id@),
    {
        self.notifiers.remove(id).is_some()
    }

    /// Number of applications with a connection.
    pub fn application_count(&self) -> (r: usize)
        requires
            self.wf(),
        ensures
            r == self.notifiers().len(),
    {
        self.notifiers.len()
    }

    /// The answer to a send whose outcome was `outcome`: success, or a failure
    /// of some kind with its debug form. APNs refusals are answered by kind;
    /// any other failure, like a missing connection, as fatal.
    pub fn answer(&self, key: Option<Vec<u8>>, event: PushNotification, outcome: Result<(), (ErrorKind, String)>) -> (r: Publication)
        ensures
            match outcome {
                Ok(()) => publishes(r, key, event, ResponseAction::NoAction, Some("success"@)),
                Err((ErrorKind::ResponseError, d)) =>
                    publishes(r, key, event, error_action(ErrorKind::ResponseError), Some(snake_case(d@))),
                Err(_) => publishes(r, key, event, ResponseAction::Retry, Some(snake_case("timeout"@))),
            },
    {
        match outcome {
            Ok(()) => self.producer.handle_ok(key, event),
            Err((ErrorKind::ResponseError, d)) => self.producer.handle_err(key, event, ErrorKind::ResponseError, d.as_str()),
            Err(_) => self.producer.handle_fatal(key, event),
        }
    }

    /// The connection to send `event` through: that of its application.
    pub fn notifier_for(&self, event: &PushNotification) -> (r: Option<&N>)
        requires
            self.wf(),
        ensures
            r is Some <==> self.notifiers().contains_key(event.universe@),
            r matches Some(n) ==> *n == self.notifiers()[event.universe@],
    {
        self.notifiers.get(event.universe.as_str())
    }
}

/// An application configured with an enabled iOS part that has a signing
/// key or a certificate is connected, the signing key first; once that
/// connection is stored with `add_notifier`, its notifications go through it.
pub proof fn configured_application_is_connected<N>(
    before: Map<Seq<char>, N>,
    mid: Map<Seq<char>, N>,
    after: Map<Seq<char>, N>,
    id: Seq<char>,
    app: Application,
    r: IosConfigAction,
    connection: N,
)
    requires
        ios_config_action(id, Some(app), r),
        ios_config_applied(before, mid, r),
        app.ios_config matches Some(ios) && ios.enabled && (ios.token is Some || ios.certificate is Some),
        after == mid.insert(app.id@, connection),
    ensures
        app.ios_config->0.token matches Some(t) ==>
            r == (IosConfigAction::ConnectWithToken { application_id: app.id, token: t }),
        app.ios_config->0.token is None ==>
            r == (IosConfigAction::ConnectWithCertificate { application_id: app.id, certificate: app.ios_config->0.certificate->0 }),
        after.contains_key(app.id@) && after[app.id@] == connection,
{
}

/// A configuration that removes an application (none at all, no iOS part, a
/// disabled one or one without connection details) leaves it without a
/// connection.
pub proof fn removed_application_is_disconnected<N>(
    before: Map<Seq<char>, N>,
    after: Map<Seq<char>, N>,
    id: Seq<char>,
    application: Option<Application>,
    r: IosConfigAction,
)
    requires
        ios_config_action(id, application, r),
        ios_config_applied(before, after, r),
        r is Remove,
    ensures
        !after.contains_key(r->Remove_0@),
        r->Remove_0@ == (match application { Some(app) => app.id@, None => id }),
{
}

/// A configuration message changes the connection of its own application
/// only.
pub proof fn ios_configuration_is_per_application<N>(
    before: Map<Seq<char>, N>,
    after: Map<Seq<char>, N>,
    id: Seq<char>,
    application: Option<Application>,
    r: IosConfigAction,
    other: Seq<char>,
)
    requires
        ios_config_action(id, application, r),
        ios_config_applied(before, after, r),
        other != (match application { Some(app) => app.id@, None => id }),
    ensures
        after.contains_key(other) == before.contains_key(other),
        before.contains_key(other) ==> after[other] == before[other],
{
}

} // verus!
