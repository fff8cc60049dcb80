//! The cache of certificate-based connections.
use vstd::prelude::*;
use crate::common::registry::Registry;
use crate::producer::Timespec;

verus! {

/// How a cache entry is refreshed.
#[derive(Debug, Clone, Copy, PartialEq, Eq, Structural)]
pub enum PoolUpdate {
    /// The entry is recent enough.
    Nothing,
    /// The entry is old: look at the registry again (`update_expired`).
    UpdateExpired,
    /// There is no entry: create one from the registry (`create_new`).
    CreateNew,
}

/// What to do with an old entry after looking at the registry.
#[derive(Debug, Clone, Copy, PartialEq, Eq, Structural)]
pub enum ExpiredPlan {
    /// Connect anew with the registry's details.
    Replace,
    /// Keep the connection and restart its age.
    Keep,
    /// The registry has no details: keep an empty entry.
    Clear,
}

/// The plan for an old entry last updated at `last_update`: when the
/// registry fails, clear it; when the details changed, or unchanged but the
/// connection fails to answer a ping (`Some(false)`), connect anew;
/// otherwise keep it.
pub open spec fn expired_plan_spec(last_update: Option<Timespec>, ping: Option<bool>, fetched: Result<Option<Timespec>, ()>) -> ExpiredPlan {
    match fetched {
        Err(()) => ExpiredPlan::Clear,
        Ok(updated_at) => if updated_at != last_update {
            ExpiredPlan::Replace
        } else {
            match ping {
                Some(false) => ExpiredPlan::Replace,
                _ => ExpiredPlan::Keep,
            }
        },
    }
}

/// Decides what to do with an old entry: `ping` is the outcome of pinging
/// its connection (`None` when it has none) and `fetched` the update time
/// the registry gives (`Err` when the registry fails).
pub fn expired_plan(last_update: Option<Timespec>, ping: Option<bool>, fetched: Result<Option<Timespec>, ()>) -> (r: ExpiredPlan)
    ensures
        r == expired_plan_spec(last_update, ping, fetched),
{
    match fetched {
        Err(()) => ExpiredPlan::Clear,
        Ok(updated_at) => {
            if !(updated_at == last_update) {
                ExpiredPlan::Replace
            } else {
                match ping {
                    Some(false) => ExpiredPlan::Replace,
                    _ => ExpiredPlan::Keep,
                }
            }
        },
    }
}

/// Whether an entry made at `timestamp` is old at `now` (milliseconds).
pub open spec fn is_expired_spec(timestamp: u64, now: u64, ttl: u64) -> bool {
    now >= timestamp + ttl
}

/// How the entry of `id` in `entries` is to be refreshed at `now`: made
/// when missing, looked at again when old, left alone otherwise.
pub open spec fn pool_update_spec<N>(entries: Map<Seq<char>, Notifier<N>>, ttl: u64, id: Seq<char>, now: u64) -> PoolUpdate {
    if !entries.contains_key(id) {
        PoolUpdate::CreateNew
    } else if is_expired_spec(entries[id].timestamp, now, ttl) {
        PoolUpdate::UpdateExpired
    } else {
        PoolUpdate::Nothing
    }
}

/// What the registry holds for a certificate connection.
#[derive(Debug, Clone, PartialEq, Eq)]
pub struct CertificateData {
    pub certificate: Vec<u8>,
    pub private_key: Vec<u8>,
    pub apns_topic: String,
    pub is_sandbox: bool,
    pub updated_at: Option<Timespec>,
}

/// The update time of what the registry gave, `Err` when it failed.
pub open spec fn certificate_version(fetched: Result<CertificateData, ()>) -> Result<Option<Timespec>, ()> {
    match fetched {
        Ok(d) => Ok(d.updated_at),
        Err(()) => Err(()),
    }
}

/// A cached certificate connection (`N`) with its topic, the update time of
/// its details and when it was made (milliseconds).
pub struct Notifier<N> {
    pub apns: Option<N>,
    pub topic: String,
    pub updated_at: Option<Timespec>,
    pub timestamp: u64,
}

/// Milliseconds after which a certificate connection is checked again.
pub const CERTIFICATE_CACHE_TTL_MS: u64 = 240_000;

/// Certificate-based connections by application id.
pub struct NotifierPool<N> {
    notifiers: Registry<Notifier<N>>,
    cache_ttl: u64,
}

impl<N> NotifierPool<N> {
    /// The entries, by application id.
    pub closed spec fn entries(&self) -> Map<Seq<char>, Notifier<N>> {
        self.notifiers@
    }

    /// Age after which an entry is old.
    pub closed spec fn ttl(&self) -> u64 {
        self.cache_ttl
    }

    /// The table is well formed.
    pub closed spec fn wf(&self) -> bool {
        self.notifiers.wf()
    }

    /// An empty pool.
    pub fn new() -> (r: NotifierPool<N>)
        ensures
            r.wf(),
            r.entries() == Map::<Seq<char>, Notifier<N>>::empty(),
            r.ttl() == CERTIFICATE_CACHE_TTL_MS,
    {
        NotifierPool { notifiers: Registry::new(), cache_ttl: CERTIFICATE_CACHE_TTL_MS }
    }

    /// The entry of `application_id`.
    pub fn get(&self, application_id: &str) -> (r: Option<&Notifier<N>>)
        requires
            self.wf(),
        ensures
            r is Some <==> self.entries().contains_key(application_id@),
            r matches Some(n) ==> *n == self.entries()[application_id@],
    {
        self.notifiers.get(application_id)
    }

    /// Whether an entry made at `ts` is old at `now`.
    pub fn is_expired(&self, ts: u64, now: u64) -> (r: bool)
        ensures
            r == is_expired_spec(ts, now, self.ttl()),
    {
        now >= ts && now - ts >= self.cache_ttl
    }

    /// How the entry of `application_id` is to be refreshed at `now`.
    pub fn update(&self, application_id: &str, now: u64) -> (r: PoolUpdate)
        requires
            self.wf(),
        ensures
            r == pool_update_spec(self.entries(), self.ttl(), application_id@, now),
    {
        match self.notifiers.get(application_id) {
            Some(n) => if self.is_expired(n.timestamp, now) { PoolUpdate::UpdateExpired } else { PoolUpdate::Nothing },
            None => PoolUpdate::CreateNew,
        }
    }

    /// Stores a new entry for `application_id` made at `now` from what the
    /// registry gave: the details and the connection built from them, or an
    /// empty entry when the registry had none.
    pub fn create_new(&mut self, application_id: String, created: Option<(CertificateData, N)>, now: u64)
        requires
            old(self).wf(),
        ensures
            final(self).wf(),
            final(self).ttl() == old(self).ttl(),
            final(self).entries().dom() == old(self).entries().dom().insert(application_id@),
            forall|k: Seq<char>| k != application_id@ && #[trigger] old(self).entries().contains_key(k)
                ==> final(self).entries()[k] == old(self).entries()[k],
            ({
                let e = final(self).entries()[application_id@];
                &&& e.timestamp == now
                &&& match created {
                    Some((d, n)) => e.apns == Some(n) && e.topic@ == d.apns_topic@ && e.updated_at == d.updated_at,
                    None => e.apns is None && e.topic@ == Seq::<char>::empty() && e.updated_at is None,
                }
            }),
    {
        let entry = match created {
            Some((d, n)) => Notifier { apns: Some(n), topic: d.apns_topic, updated_at: d.updated_at, timestamp: now },
            None => Notifier { apns: None, topic: String::new(), updated_at: None, timestamp: now },
        };
        self.notifiers.insert(application_id, entry);
        assert(self.notifiers@.dom() =~= old(self).notifiers@.dom().insert(application_id@));
    }

    /// Refreshes the old entry of `application_id` at `now` from what the
    /// registry gave (`fetched`, `Err` when it failed) and the outcome of
    /// pinging its connection (`ping`, `None` without one): by the plan of
    /// `expired_plan`, a new connection (`connection`, built from the
    /// fetched details) with the fetched topic and update time; the same
    /// entry with its age restarted; or an empty entry.
    pub fn update_expired(
        &mut self,
        application_id: &str,
        fetched: Result<CertificateData, ()>,
        ping: Option<bool>,
        connection: Option<N>,
        now: u64,
    )
        requires
            old(self).wf(),
            old(self).entries().contains_key(application_id@),
            expired_plan_spec(old(self).entries()[application_id@].updated_at, ping, certificate_version(fetched))
                == ExpiredPlan::Replace ==> connection is Some,
        ensures
            final(self).wf(),
            final(self).ttl() == old(self).ttl(),
            final(self).entries().dom() == old(self).entries().dom(),
            forall|k: Seq<char>| k != application_id@ && #[trigger] old(self).entries().contains_key(k)
                ==> final(self).entries()[k] == old(self).entries()[k],
            ({
                let before = old(self).entries()[application_id@];
                let e = final(self).entries()[application_id@];
                &&& e.timestamp == now
                &&& match expired_plan_spec(before.updated_at, ping, certificate_version(fetched)) {
                    ExpiredPlan::Replace => fetched matches Ok(d) && connection matches Some(n)
                        && e.apns == Some(n) && e.topic@ == d.apns_topic@ && e.updated_at == d.updated_at,
                    ExpiredPlan::Keep => e.apns == before.apns && e.topic == before.topic && e.updated_at == before.updated_at,
                    ExpiredPlan::Clear => e.apns is None && e.topic@ == Seq::<char>::empty() && e.updated_at is None,
                }
            }),
    {
        let last_update = match self.notifiers.get(application_id) {
            Some(e) => e.updated_at,
            None => None,
        };
        let version = match &fetched {
            Ok(d) => Ok(d.updated_at),
            Err(()) => Err(()),
        };
        let plan = expired_plan(last_update, ping, version);
        let old_entry = self.notifiers.remove(application_id);
        let id = String::from_str(application_id);
        let entry = match plan {
            ExpiredPlan::Replace => match (fetched, connection) {
                (Ok(d), Some(n)) => Notifier { apns: Some(n), topic: d.apns_topic, updated_at: d.updated_at, timestamp: now },
                _ => Notifier { apns: None, topic: String::new(), updated_at: None, timestamp: now },
            },
            ExpiredPlan::Keep => match old_entry {
                Some(e) => Notifier { apns: e.apns, topic: e.topic, updated_at: e.updated_at, timestamp: now },
                None => Notifier { apns: None, topic: String::new(), updated_at: None, timestamp: now },
            },
            ExpiredPlan::Clear => Notifier { apns: None, topic: String::new(), updated_at: None, timestamp: now },
        };
        self.notifiers.insert(id, entry);
        assert(self.notifiers@.dom() =~= old(self).notifiers@.dom());
    }
}


/// An entry made or refreshed at `made` is left alone until `ttl`
/// milliseconds have passed, and looked at again from then on; an
/// application without an entry gets one made.
pub proof fn entry_is_refreshed_after_ttl<N>(entries: Map<Seq<char>, Notifier<N>>, ttl: u64, id: Seq<char>, made: u64, now: u64)
    requires
        entries.contains_key(id) ==> entries[id].timestamp == made,
    ensures
        !entries.contains_key(id) ==> pool_update_spec(entries, ttl, id, now) == PoolUpdate::CreateNew,
        entries.contains_key(id) && now < made + ttl ==> pool_update_spec(entries, ttl, id, now) == PoolUpdate::Nothing,
        entries.contains_key(id) && now >= made + ttl ==> pool_update_spec(entries, ttl, id, now) == PoolUpdate::UpdateExpired,
{
}

} // verus!
