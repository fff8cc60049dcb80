//! The cache of token-based connections.
use vstd::prelude::*;
use crate::common::registry::Registry;
use crate::producer::Timespec;
use crate::pool::notifier_pool::{ExpiredPlan, is_expired_spec, expired_plan, expired_plan_spec};

verus! {

/// How a token cache entry is refreshed.
#[derive(Debug, Clone, Copy, PartialEq, Eq, Structural)]
pub enum TokenUpdate {
    /// The entry is recent enough.
    Nothing,
    /// The signing token expired: renew it and do nothing else.
    RenewToken,
    /// The entry is old: look at the registry again (`update_existing`).
    UpdateExisting,
    /// There is no entry: create one from the registry (`create_new`).
    CreateNew,
}

/// How the entry of `id` in `entries` is to be refreshed at `now`, with
/// `token_expired` telling whether its signing token expired: made when
/// missing; an expired token is renewed first; an old entry is looked at
/// again; otherwise it is left alone.
pub open spec fn token_update_spec<T, M>(entries: Map<Seq<char>, Token<T, M>>, ttl: u64, id: Seq<char>, now: u64, token_expired: bool) -> TokenUpdate {
    if !entries.contains_key(id) {
        TokenUpdate::CreateNew
    } else if entries[id].apns is Some && token_expired {
        TokenUpdate::RenewToken
    } else if is_expired_spec(entries[id].timestamp, now, ttl) {
        TokenUpdate::UpdateExisting
    } else {
        TokenUpdate::Nothing
    }
}

/// What the registry holds for a token connection.
#[derive(Debug, Clone, PartialEq, Eq)]
pub struct TokenData {
    pub private_key: Vec<u8>,
    pub key_id: String,
    pub team_id: String,
    pub apns_topic: String,
    pub is_sandbox: bool,
    pub updated_at: Option<Timespec>,
}

/// The update time of what the registry gave, `Err` when it failed.
pub open spec fn token_version(fetched: Result<TokenData, ()>) -> Result<Option<Timespec>, ()> {
    match fetched {
        Ok(d) => Ok(d.updated_at),
        Err(()) => Err(()),
    }
}

/// A cached token connection: the connection (`M`) and its signing token
/// (`T`), with its topic, the update time of its details and when it was
/// made (milliseconds).
pub struct Token<T, M> {
    pub notifier: Option<M>,
    pub apns: Option<T>,
    pub topic: String,
    pub updated_at: Option<Timespec>,
    pub timestamp: u64,
}

/// Seconds for which a signing token made for a new or changed entry is
/// valid.
pub const TOKEN_VALIDITY_SECS: u64 = 1200;

/// Seconds of validity for the signing token that replaces the one of an
/// entry last updated at `last_update`, given the update time the registry
/// gave (`Err` when it failed): the full validity when the details changed;
/// none when they did not (the entry is replaced only because its
/// connection failed to answer, and the token is to be made anew at once).
pub open spec fn replacement_token_validity(last_update: Option<Timespec>, fetched: Result<Option<Timespec>, ()>) -> u64 {
    match fetched {
        Ok(updated_at) => if updated_at != last_update { TOKEN_VALIDITY_SECS } else { 0 },
        Err(()) => 0,
    }
}

/// Milliseconds after which a token connection is checked again.
pub const TOKEN_CACHE_TTL_MS: u64 = 60_000;

/// Token-based connections by application id.
pub struct TokenPool<T, M> {
    tokens: Registry<Token<T, M>>,
    cache_ttl: u64,
}

impl<T, M> TokenPool<T, M> {
    /// The entries, by application id.
    pub closed spec fn entries(&self) -> Map<Seq<char>, Token<T, M>> {
        self.tokens@
    }

    /// Age after which an entry is old.
    pub closed spec fn ttl(&self) -> u64 {
        self.cache_ttl
    }

    /// The table is well formed.
    pub closed spec fn wf(&self) -> bool {
        self.tokens.wf()
    }

    /// An empty pool.
    pub fn new() -> (r: TokenPool<T, M>)
        ensures
            r.wf(),
            r.entries() == Map::<Seq<char>, Token<T, M>>::empty(),
            r.ttl() == TOKEN_CACHE_TTL_MS,
    {
        TokenPool { tokens: Registry::new(), cache_ttl: TOKEN_CACHE_TTL_MS }
    }

    /// The entry of `application_id`.
    pub fn get(&self, application_id: &str) -> (r: Option<&Token<T, M>>)
        requires
            self.wf(),
        ensures
            r is Some <==> self.entries().contains_key(application_id@),
            r matches Some(n) ==> *n == self.entries()[application_id@],
    {
        self.tokens.get(application_id)
    }

    /// Whether an entry made at `ts` is old at `now`.
    pub fn is_expired(&self, ts: u64, now: u64) -> (r: bool)
        ensures
            r == is_expired_spec(ts, now, self.ttl()),
    {
        now >= ts && now - ts >= self.cache_ttl
    }

    /// How the entry of `application_id` is to be refreshed at `now`;
    /// `token_expired` says whether its signing token has expired.
    pub fn update(&self, application_id: &str, now: u64, token_expired: bool) -> (r: TokenUpdate)
        requires
            self.wf(),
        ensures
            r == token_update_spec(self.entries(), self.ttl(), application_id@, now, token_expired),
    {
        match self.tokens.get(application_id) {
            Some(n) => {
                if n.apns.is_some() && token_expired {
                    TokenUpdate::RenewToken
                } else if self.is_expired(n.timestamp, now) {
                    TokenUpdate::UpdateExisting
                } else {
                    TokenUpdate::Nothing
                }
            },
            None => TokenUpdate::CreateNew,
        }
    }

    /// Seconds of validity for the signing token that replaces the one of
    /// the entry of `application_id`, given what the registry gave.
    pub fn replacement_token_validity(&self, application_id: &str, fetched: &Result<TokenData, ()>) -> (r: u64)
        requires
            self.wf(),
            self.entries().contains_key(application_id@),
        ensures
            r == replacement_token_validity(self.entries()[application_id@].updated_at, token_version(*fetched)),
    {
        let last_update = match self.tokens.get(application_id) {
            Some(e) => e.updated_at,
            None => None,
        };
        match fetched {
            Ok(d) => if !(d.updated_at == last_update) { TOKEN_VALIDITY_SECS } else { 0 },
            Err(()) => 0,
        }
    }

    /// Stores a new entry for `application_id` made at `now` from what the
    /// registry gave: the details with the signing token (made valid for
    /// `TOKEN_VALIDITY_SECS`) and connection built from them, or an empty
    /// entry when the registry had none.
    pub fn create_new(&mut self, application_id: String, created: Option<(TokenData, T, M)>, now: u64)
        requires
            old(self).wf(),
        ensures
            final(self).wf(),
            final(self).ttl() == old(self).ttl(),
            final(self).entries().dom() == old(self).entries().dom().insert(application_id@),
            forall|k: Seq<char>| k != application_id@ && #[trigger] old(self).entries().contains_key(k)
                ==> final(self).entries()[k] == old(self).entries()[k],
            ({
                let e = final(self).entries()[application_id@];
                &&& e.timestamp == now
                &&& match created {
                    Some((d, a, n)) => e.apns == Some(a) && e.notifier == Some(n)
                        && e.topic@ == d.apns_topic@ && e.updated_at == d.updated_at,
                    None => e.apns is None && e.notifier is None && e.topic@ == Seq::<char>::empty() && e.updated_at is None,
                }
            }),
    {
        let entry = match created {
            Some((d, a, n)) => Token { apns: Some(a), notifier: Some(n), topic: d.apns_topic, updated_at: d.updated_at, timestamp: now },
            None => Token { apns: None, notifier: None, topic: String::new(), updated_at: None, timestamp: now },
        };
        self.tokens.insert(application_id, entry);
        assert(self.tokens@.dom() =~= old(self).tokens@.dom().insert(application_id@));
    }

    /// Refreshes the old entry of `application_id` at `now` from what the
    /// registry gave (`fetched`, `Err` when it failed) and the outcome of
    /// pinging its connection (`ping`, `None` without one): by the plan of
    /// `expired_plan`, a new signing token and connection (`built`, made from
    /// the fetched details, the token valid for what
    /// `replacement_token_validity` gives) with the fetched topic and update
    /// time; the same entry with its age restarted; or the entry without its
    /// signing token, topic and update time, keeping its connection.
    pub fn update_existing(
        &mut self,
        application_id: &str,
        fetched: Result<TokenData, ()>,
        ping: Option<bool>,
        built: Option<(T, M)>,
        now: u64,
    )
        requires
            old(self).wf(),
            old(self).entries().contains_key(application_id@),
            expired_plan_spec(old(self).entries()[application_id@].updated_at, ping, token_version(fetched))
                == ExpiredPlan::Replace ==> built is Some,
        ensures
            final(self).wf(),
            final(self).ttl() == old(self).ttl(),
            final(self).entries().dom() == old(self).entries().dom(),
            forall|k: Seq<char>| k != application_id@ && #[trigger] old(self).entries().contains_key(k)
                ==> final(self).entries()[k] == old(self).entries()[k],
            ({
                let before = old(self).entries()[application_id@];
                let e = final(self).entries()[application_id@];
                &&& e.timestamp == now
                &&& match expired_plan_spec(before.updated_at, ping, token_version(fetched)) {
                    ExpiredPlan::Replace => fetched matches Ok(d) && built matches Some((a, n))
                        && e.apns == Some(a) && e.notifier == Some(n)
                        && e.topic@ == d.apns_topic@ && e.updated_at == d.updated_at,
                    ExpiredPlan::Keep => e.apns == before.apns && e.notifier == before.notifier
                        && e.topic == before.topic && e.updated_at == before.updated_at,
                    ExpiredPlan::Clear => e.apns is None && e.notifier == before.notifier
                        && e.topic@ == Seq::<char>::empty() && e.updated_at is None,
                }
            }),
    {
        let last_update = match self.tokens.get(application_id) {
            Some(e) => e.updated_at,
            None => None,
        };
        let version = match &fetched {
            Ok(d) => Ok(d.updated_at),
            Err(()) => Err(()),
        };
        let plan = expired_plan(last_update, ping, version);
        let old_entry = self.tokens.remove(application_id);
        let id = String::from_str(application_id);
        let entry = match plan {
            ExpiredPlan::Replace => match (fetched, built) {
                (Ok(d), Some((a, n))) => Token { apns: Some(a), notifier: Some(n), topic: d.apns_topic, updated_at: d.updated_at, timestamp: now },
                _ => Token { apns: None, notifier: None, topic: String::new(), updated_at: None, timestamp: now },
            },
            ExpiredPlan::Keep => match old_entry {
                Some(e) => Token { apns: e.apns, notifier: e.notifier, topic: e.topic, updated_at: e.updated_at, timestamp: now },
                None => Token { apns: None, notifier: None, topic: String::new(), updated_at: None, timestamp: now },
            },
            ExpiredPlan::Clear => match old_entry {
                Some(e) => Token { apns: None, notifier: e.notifier, topic: String::new(), updated_at: None, timestamp: now },
                None => Token { apns: None, notifier: None, topic: String::new(), updated_at: None, timestamp: now },
            },
        };
        self.tokens.insert(id, entry);
        assert(self.tokens@.dom() =~= old(self).tokens@.dom());
    }
}


/// A token entry made or refreshed at `made` whose signing token is still
/// valid is left alone until `ttl` milliseconds have passed and looked at
/// again from then on; an expired signing token is renewed whatever the
/// entry's age.
pub proof fn token_is_refreshed_after_ttl<T, M>(entries: Map<Seq<char>, Token<T, M>>, ttl: u64, id: Seq<char>, made: u64, now: u64, token_expired: bool)
    requires
        entries.contains_key(id),
        entries[id].timestamp == made,
    ensures
        entries[id].apns is Some && token_expired ==> token_update_spec(entries, ttl, id, now, token_expired) == TokenUpdate::RenewToken,
        !token_expired && now < made + ttl ==> token_update_spec(entries, ttl, id, now, token_expired) == TokenUpdate::Nothing,
        !token_expired && now >= made + ttl ==> token_update_spec(entries, ttl, id, now, token_expired) == TokenUpdate::UpdateExisting,
{
}

/// An old entry is connected anew with a signing token valid for the full
/// time when the registry's details changed, and with one that is to be
/// made anew at once when the details are the same but the connection failed
/// to answer.
pub proof fn replacement_validity_follows_plan(last_update: Option<Timespec>, ping: Option<bool>, fetched: Result<Option<Timespec>, ()>)
    requires
        expired_plan_spec(last_update, ping, fetched) == ExpiredPlan::Replace,
    ensures
        fetched != Ok::<Option<Timespec>, ()>(last_update) ==> replacement_token_validity(last_update, fetched) == TOKEN_VALIDITY_SECS,
        fetched == Ok::<Option<Timespec>, ()>(last_update) ==> ping == Some(false) && replacement_token_validity(last_update, fetched) == 0,
{
}

} // verus!
