//! Choosing the connection for an application: a token connection when one
//! is ready, else a certificate connection.
use vstd::prelude::*;
use crate::pool::notifier_pool::{NotifierPool, Notifier};
use crate::pool::token_pool::{TokenPool, Token};

verus! {

/// A ready connection and the topic to send to.
pub enum ApnsConnection<'a, N, T, M> {
    WithCertificate { notifier: &'a N, topic: &'a str },
    WithToken { notifier: &'a M, token: &'a T, topic: &'a str },
}

/// Both caches of connections.
pub struct ConnectionPool<N, T, M> {
    pub notifier_pool: NotifierPool<N>,
    pub token_pool: TokenPool<T, M>,
}

impl<N, T, M> ConnectionPool<N, T, M> {
    /// Both caches are well formed.
    pub open spec fn wf(&self) -> bool {
        self.notifier_pool.wf() && self.token_pool.wf()
    }

    /// Empty caches.
    pub fn new() -> (r: ConnectionPool<N, T, M>)
        ensures
            r.wf(),
            r.notifier_pool.entries() == Map::<Seq<char>, Notifier<N>>::empty(),
            r.token_pool.entries() == Map::<Seq<char>, Token<T, M>>::empty(),
    {
        ConnectionPool { notifier_pool: NotifierPool::new(), token_pool: TokenPool::new() }
    }

    /// The connection for `application_id`: its token connection when that
    /// has both a connection and a signing token; otherwise its certificate
    /// connection when there is one; otherwise none.
    pub fn get(&self, application_id: &str) -> (r: Option<ApnsConnection<'_, N, T, M>>)
        requires
            self.wf(),
        ensures
            ({
                let tokens = self.token_pool.entries();
                let certs = self.notifier_pool.entries();
                let id = application_id@;
                if tokens.contains_key(id) && tokens[id].apns is Some && tokens[id].notifier is Some {
                    r matches Some(ApnsConnection::WithToken { notifier, token, topic })
                        && *notifier == tokens[id].notifier->0 && *token == tokens[id].apns->0
                        && topic@ == tokens[id].topic@
                } else if certs.contains_key(id) && certs[id].apns is Some {
                    r matches Some(ApnsConnection::WithCertificate { notifier, topic })
                        && *notifier == certs[id].apns->0 && topic@ == certs[id].topic@
                } else {
                    r is None
                }
            }),
    {
        match self.token_pool.get(application_id) {
            Some(Token { apns: Some(token), notifier: Some(notifier), topic, .. }) => {
                return Some(ApnsConnection::WithToken { notifier, token, topic: topic.as_str() });
            },
            _ => {},
        }
        match self.notifier_pool.get(application_id) {
            Some(Notifier { apns: Some(notifier), topic, .. }) => Some(ApnsConnection::WithCertificate {
                notifier,
                topic: topic.as_str(),
            }),
            _ => None,
        }
    }
}

} // verus!
