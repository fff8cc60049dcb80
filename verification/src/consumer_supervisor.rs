//! The legacy supervisor of per-application consumers: which consumers to
//! (re)create, restart or drop after each look at the application table.
use vstd::prelude::*;
use crate::common::id_table::IdTable;
use crate::producer::Timespec;

verus! {

/// Failures after which a consumer is restarted.
pub const MAX_FAILURES: i32 = 10;

/// An application as the registry lists it: its id and when its connection
/// details last changed.
#[derive(Debug, Clone, Copy, PartialEq, Eq)]
pub struct Application {
    pub id: i32,
    pub updated_at: Option<Timespec>,
}

/// A running consumer (`H` controls it) and the version of the details it uses.
pub struct ApplicationConsumer<H> {
    pub handle: H,
    pub updated_at: Option<Timespec>,
}

/// What to do with the consumer of an application.
pub enum ConsumerAction<H> {
    /// Replace it with this new one.
    Update(ApplicationConsumer<H>),
    /// Keep it.
    NoUpdate,
}

/// Whether `app` needs a new consumer: it has none, or its details changed.
pub open spec fn needs_update<H>(consumers: Map<i32, ApplicationConsumer<H>>, app: Application) -> bool {
    !(consumers.contains_key(app.id) && consumers[app.id].updated_at == app.updated_at)
}

/// For each listed application, whether it needs a new consumer; a later
/// listing of the same id wins.
pub open spec fn update_plan<H>(apps: Seq<Application>, consumers: Map<i32, ApplicationConsumer<H>>) -> Map<i32, bool>
    decreases apps.len(),
{
    if apps.len() == 0 {
        Map::empty()
    } else {
        update_plan(apps.drop_last(), consumers).insert(apps.last().id, needs_update(consumers, apps.last()))
    }
}

/// Whether the application `k` failed too often.
pub open spec fn failing(failures: Map<i32, i32>, k: i32) -> bool {
    failures.contains_key(k) && failures[k] >= MAX_FAILURES
}

/// The failure counts after a restart round: those at the limit start over.
pub open spec fn reset_failures(failures: Map<i32, i32>, done: Set<i32>) -> Map<i32, i32> {
    Map::new(|k: i32| failures.contains_key(k), |k: i32| if done.contains(k) && failures[k] >= MAX_FAILURES { 0 } else { failures[k] })
}

/// The consumers kept after a restart round.
pub open spec fn kept_consumers<H>(consumers: Map<i32, ApplicationConsumer<H>>, failures: Map<i32, i32>, done: Set<i32>) -> Map<i32, ApplicationConsumer<H>> {
    Map::new(|k: i32| consumers.contains_key(k) && !(done.contains(k) && failing(failures, k)), |k: i32| consumers[k])
}

/// The consumers stopped in a restart round.
pub open spec fn stopped_consumers<H>(consumers: Map<i32, ApplicationConsumer<H>>, failures: Map<i32, i32>, done: Set<i32>) -> Map<i32, ApplicationConsumer<H>> {
    Map::new(|k: i32| consumers.contains_key(k) && done.contains(k) && failing(failures, k), |k: i32| consumers[k])
}

/// Whether `updates` asks for a new consumer for `k`.
pub open spec fn replaces<H>(updates: Map<i32, ConsumerAction<H>>, k: i32) -> bool {
    updates.contains_key(k) && updates[k] is Update
}

/// The consumers after applying the updates of the ids in `done`.
pub open spec fn updated_consumers<H>(
    consumers: Map<i32, ApplicationConsumer<H>>,
    updates: Map<i32, ConsumerAction<H>>,
    done: Set<i32>,
) -> Map<i32, ApplicationConsumer<H>> {
    Map::new(
        |k: i32| consumers.contains_key(k) || (done.contains(k) && replaces(updates, k)),
        |k: i32| if done.contains(k) && replaces(updates, k) { updates[k]->Update_0 } else { consumers[k] },
    )
}

/// Records that no consumer could be made for application `id`: its
/// failure count is set to the limit, so that the next round restarts it.
pub fn mark_creation_failed(failures: &mut IdTable<i32>, id: i32)
    requires
        old(failures).wf(),
    ensures
        final(failures).wf(),
        final(failures)@ == old(failures)@.insert(id, MAX_FAILURES),
{
    failures.insert(id, MAX_FAILURES);
}

/// Whether a consumer was made for application `k`.
pub open spec fn was_created<H>(created: Map<i32, Option<ApplicationConsumer<H>>>, k: i32) -> bool {
    created.contains_key(k) && created[k] is Some
}

/// The update table of a round, over the planned ids in `done`: an
/// application that keeps its consumer gets `NoUpdate`, one that needed a new
/// consumer gets it when it was made, and has no entry when it was not.
pub open spec fn collected_updates<H>(
    plan: Map<i32, bool>,
    created: Map<i32, Option<ApplicationConsumer<H>>>,
    done: Set<i32>,
) -> Map<i32, ConsumerAction<H>> {
    Map::new(
        |k: i32| done.contains(k) && plan.contains_key(k) && (!plan[k] || was_created(created, k)),
        |k: i32| if plan[k] { ConsumerAction::Update(created[k]->Some_0) } else { ConsumerAction::NoUpdate },
    )
}

/// The planned ids in `done` that needed a new consumer and got none.
pub open spec fn failed_creations<H>(
    plan: Map<i32, bool>,
    created: Map<i32, Option<ApplicationConsumer<H>>>,
    done: Set<i32>,
) -> Set<i32> {
    Set::new(|k: i32| done.contains(k) && plan.contains_key(k) && plan[k] && !was_created(created, k))
}

/// The failure counts after the ids in `failed` are set to the limit.
pub open spec fn marked_failures(failures: Map<i32, i32>, failed: Set<i32>) -> Map<i32, i32> {
    Map::new(
        |k: i32| failures.contains_key(k) || failed.contains(k),
        |k: i32| if failed.contains(k) { MAX_FAILURES } else { failures[k] },
    )
}

proof fn lemma_take_set_step(ks: Seq<i32>, i: int)
    requires
        ks.no_duplicates(),
        0 <= i < ks.len(),
    ensures
        ks.take(i + 1).to_set() == ks.take(i).to_set().insert(ks[i]),
        !ks.take(i).to_set().contains(ks[i]),
        ks.contains(ks[i]),
{
    let t0 = ks.take(i);
    let t1 = ks.take(i + 1);
    let k = ks[i];
    assert(t1 =~= t0.push(k));
    assert(t1.to_set() =~= t0.to_set().insert(k)) by {
        assert forall|x: i32| t1.to_set().contains(x) implies t0.to_set().insert(k).contains(x) by {
            let j = choose|j: int| 0 <= j < t1.len() && t1[j] == x;
            if j < i {
                assert(t0[j] == x);
            }
        }
        assert forall|x: i32| t0.to_set().insert(k).contains(x) implies t1.to_set().contains(x) by {
            if x == k {
                assert(t1[i] == k);
            } else {
                let j = choose|j: int| 0 <= j < t0.len() && t0[j] == x;
                assert(t1[j] == x);
            }
        }
    }
    assert(!t0.to_set().contains(k)) by {
        if t0.to_set().contains(k) {
            let j = choose|j: int| 0 <= j < t0.len() && t0[j] == k;
            assert(ks[j] == ks[i]);
        }
    }
}

/// Turns the outcome of a round of consumer creation into its update table.
/// `plan` says which applications need a new consumer; `created` holds, by
/// application id, the consumer made for it, or `None` where making it
/// failed. An application that needed a new consumer and got none has no
/// entry in the table and its failure count is set to the limit.
pub fn collect_updates<H>(
    plan: &IdTable<bool>,
    created: IdTable<Option<ApplicationConsumer<H>>>,
    failures: &mut IdTable<i32>,
) -> (r: IdTable<ConsumerAction<H>>)
    requires
        plan.wf(),
        created.wf(),
        old(failures).wf(),
    ensures
        r.wf(),
        final(failures).wf(),
        r@ == collected_updates(plan@, created@, plan@.dom()),
        final(failures)@ == marked_failures(old(failures)@, failed_creations(plan@, created@, plan@.dom())),
{
    let ghost old_f = failures@;
    let ghost c0 = created@;
    let mut created = created;
    let ks = plan.keys();
    let mut r: IdTable<ConsumerAction<H>> = IdTable::new();
    let mut i: usize = 0;
    proof {
        assert(ks@.take(0).to_set() =~= Set::<i32>::empty());
        assert(r@ =~= collected_updates(plan@, c0, Set::empty()));
        assert(failures@ =~= marked_failures(old_f, failed_creations(plan@, c0, Set::empty())));
        assert(created@ =~= c0.remove_keys(Set::empty()));
    }
    while i < ks.len()
        invariant
            i <= ks@.len(),
            ks@.no_duplicates(),
            forall|k: i32| #[trigger] ks@.contains(k) <==> plan@.contains_key(k),
            plan.wf(),
            created.wf(),
            failures.wf(),
            r.wf(),
            created@ == c0.remove_keys(ks@.take(i as int).to_set()),
            r@ == collected_updates(plan@, c0, ks@.take(i as int).to_set()),
            failures@ == marked_failures(old_f, failed_creations(plan@, c0, ks@.take(i as int).to_set())),
        decreases ks@.len() - i,
    {
        let k = ks[i];
        let ghost done = ks@.take(i as int).to_set();
        let ghost next = ks@.take(i + 1).to_set();
        proof {
            lemma_take_set_step(ks@, i as int);
        }
        let needs = match plan.get(k) {
            Some(b) => *b,
            None => false,
        };
        if needs {
            match created.remove(k) {
                Some(Some(c)) => {
                    r.insert(k, ConsumerAction::Update(c));
                },
                _ => {
                    mark_creation_failed(failures, k);
                },
            }
        } else {
            let _ = created.remove(k);
            r.insert(k, ConsumerAction::NoUpdate);
        }
        proof {
            assert(created@ =~= c0.remove_keys(next));
            assert(r@ =~= collected_updates(plan@, c0, next));
            assert(failed_creations(plan@, c0, next) =~= if needs && !was_created(c0, k) {
                failed_creations(plan@, c0, done).insert(k)
            } else {
                failed_creations(plan@, c0, done)
            });
            assert(failures@ =~= marked_failures(old_f, failed_creations(plan@, c0, next)));
        }
        i = i + 1;
    }
    proof {
        assert(ks@.take(ks@.len() as int) =~= ks@);
        assert(ks@.to_set() =~= plan@.dom());
    }
    r
}

/// Every application of the plan is accounted for after its consumers were
/// made: it has an entry in the update table or it is failing, and the table
/// speaks of no other application.
pub proof fn collected_round_accounts_for_plan<H>(
    plan: Map<i32, bool>,
    created: Map<i32, Option<ApplicationConsumer<H>>>,
    failures: Map<i32, i32>,
    k: i32,
)
    ensures
        plan.contains_key(k) ==> (collected_updates(plan, created, plan.dom()).contains_key(k)
            || failing(marked_failures(failures, failed_creations(plan, created, plan.dom())), k)),
        collected_updates(plan, created, plan.dom()).contains_key(k) ==> plan.contains_key(k),
        plan.contains_key(k) && !plan[k] ==> collected_updates(plan, created, plan.dom())[k] is NoUpdate,
{
}

/// Supervises one consumer per application.
pub struct ConsumerSupervisor<H> {
    consumers: IdTable<ApplicationConsumer<H>>,
}

impl<H> ConsumerSupervisor<H> {
    /// The running consumers, by application id.
    pub closed spec fn consumers(&self) -> Map<i32, ApplicationConsumer<H>> {
        self.consumers@
    }

    /// The table of consumers is well formed.
    pub closed spec fn wf(&self) -> bool {
        self.consumers.wf()
    }

    /// A supervisor with no consumers.
    pub fn new() -> (r: ConsumerSupervisor<H>)
        ensures
            r.wf(),
            r.consumers() == Map::<i32, ApplicationConsumer<H>>::empty(),
    {
        ConsumerSupervisor { consumers: IdTable::new() }
    }

    /// For each listed application, whether it needs a new consumer.
    pub fn plan_updates(&self, apps: &Vec<Application>) -> (r: IdTable<bool>)
        requires
            self.wf(),
        ensures
            r.wf(),
            r@ == update_plan(apps@, self.consumers()),
    {
        let mut plan: IdTable<bool> = IdTable::new();
        let mut i: usize = 0;
        assert(apps@.take(0) =~= Seq::<Application>::empty());
        while i < apps.len()
            invariant
                i <= apps@.len(),
                self.wf(),
                plan.wf(),
                plan@ == update_plan(apps@.take(i as int), self.consumers()),
            decreases apps@.len() - i,
        {
            let app = apps[i];
            let needs = match self.consumers.get(app.id) {
                Some(c) => !(c.updated_at == app.updated_at),
                None => true,
            };
            plan.insert(app.id, needs);
            assert(apps@.take(i + 1).drop_last() =~= apps@.take(i as int));
            i = i + 1;
        }
        assert(apps@.take(apps@.len() as int) =~= apps@);
        plan
    }

    /// Stops the consumers of applications that failed too often and lets
    /// their failure count start over; returns the stopped consumers.
    pub fn remove_failed(&mut self, failures: &mut IdTable<i32>) -> (r: IdTable<ApplicationConsumer<H>>)
        requires
            old(self).wf(),
            old(failures).wf(),
        ensures
            final(self).wf(),
            final(failures).wf(),
            r.wf(),
            final(failures)@ == reset_failures(old(failures)@, old(failures)@.dom()),
            final(self).consumers() == kept_consumers(old(self).consumers(), old(failures)@, old(failures)@.dom()),
            r@ == stopped_consumers(old(self).consumers(), old(failures)@, old(failures)@.dom()),
    {
        let ghost old_f = failures@;
        let ghost old_c = self.consumers@;
        let ks = failures.keys();
        let mut stopped: IdTable<ApplicationConsumer<H>> = IdTable::new();
        let mut i: usize = 0;
        proof {
            assert(ks@.take(0).to_set() =~= Set::<i32>::empty());
            assert(failures@ =~= reset_failures(old_f, Set::empty()));
            assert(self.consumers@ =~= kept_consumers(old_c, old_f, Set::empty()));
            assert(stopped@ =~= stopped_consumers(old_c, old_f, Set::empty()));
        }
        while i < ks.len()
            invariant
                i <= ks@.len(),
                ks@.no_duplicates(),
                forall|k: i32| #[trigger] ks@.contains(k) <==> old_f.contains_key(k),
                self.wf(),
                failures.wf(),
                stopped.wf(),
                failures@ == reset_failures(old_f, ks@.take(i as int).to_set()),
                self.consumers@ == kept_consumers(old_c, old_f, ks@.take(i as int).to_set()),
                stopped@ == stopped_consumers(old_c, old_f, ks@.take(i as int).to_set()),
            decreases ks@.len() - i,
        {
            let k = ks[i];
            let ghost done = ks@.take(i as int).to_set();
            let ghost next = ks@.take(i + 1).to_set();
            proof {
                lemma_take_set_step(ks@, i as int);
            }
            let count = match failures.get(k) {
                Some(c) => *c,
                None => 0,
            };
            if count >= MAX_FAILURES {
                match self.consumers.remove(k) {
                    Some(c) => {
                        stopped.insert(k, c);
                    },
                    None => {},
                }
                failures.insert(k, 0);
            }
            proof {
                assert(failures@ =~= reset_failures(old_f, next));
                assert(self.consumers@ =~= kept_consumers(old_c, old_f, next));
                assert(stopped@ =~= stopped_consumers(old_c, old_f, next));
            }
            i = i + 1;
        }
        proof {
            assert(ks@.take(ks@.len() as int) =~= ks@);
            assert(ks@.to_set() =~= old_f.dom());
        }
        stopped
    }

    /// Drops the consumers of applications that no longer appear in
    /// `updates`; returns their ids.
    pub fn drop_deleted(&mut self, updates: &IdTable<ConsumerAction<H>>) -> (r: Vec<i32>)
        requires
            old(self).wf(),
            updates.wf(),
        ensures
            final(self).wf(),
            final(self).consumers() == old(self).consumers().restrict(updates@.dom()),
            r@.no_duplicates(),
            forall|k: i32| #[trigger] r@.contains(k) <==> (old(self).consumers().contains_key(k) && !updates@.contains_key(k)),
    {
        let ghost old_c = self.consumers@;
        let ks = self.consumers.keys();
        let mut dropped: Vec<i32> = Vec::new();
        let mut i: usize = 0;
        while i < ks.len()
            invariant
                i <= ks@.len(),
                ks@.no_duplicates(),
                forall|k: i32| #[trigger] ks@.contains(k) <==> old_c.contains_key(k),
                self.wf(),
                updates.wf(),
                self.consumers@ == Map::new(
                    |k: i32| old_c.contains_key(k) && !(ks@.take(i as int).contains(k) && !updates@.contains_key(k)),
                    |k: i32| old_c[k]),
                dropped@.no_duplicates(),
                forall|x: i32| #[trigger] dropped@.contains(x) <==> (ks@.take(i as int).contains(x) && !updates@.contains_key(x)),
            decreases ks@.len() - i,
        {
            let k = ks[i];
            let ghost old_dropped = dropped@;
            let ghost t0 = ks@.take(i as int);
            let ghost t1 = ks@.take(i + 1);
            proof {
                assert(t1 =~= t0.push(k));
                assert(!t0.contains(k)) by {
                    if t0.contains(k) {
                        let j = choose|j: int| 0 <= j < t0.len() && t0[j] == k;
                        assert(ks@[j] == ks@[i as int]);
                    }
                }
            }
            if !updates.contains(k) {
                let _ = self.consumers.remove(k);
                dropped.push(k);
                proof {
                    assert forall|a: int, b: int| 0 <= a < dropped@.len() && 0 <= b < dropped@.len() && a != b
                        implies dropped@[a] != dropped@[b] by {
                        if a < old_dropped.len() && b < old_dropped.len() {
                        } else if a == old_dropped.len() {
                            assert(old_dropped.contains(dropped@[b]));
                        } else {
                            assert(old_dropped.contains(dropped@[a]));
                        }
                    }
                }
            }
            proof {
                assert forall|x: i32| #[trigger] t1.contains(x) <==> (t0.contains(x) || x == k) by {
                    if t1.contains(x) {
                        let j = choose|j: int| 0 <= j < t1.len() && t1[j] == x;
                        if j < i { assert(t0[j] == x); }
                    }
                    if x == k { assert(t1[i as int] == k); }
                    if t0.contains(x) {
                        let j = choose|j: int| 0 <= j < t0.len() && t0[j] == x;
                        assert(t1[j] == x);
                    }
                }
                assert(self.consumers@ =~= Map::new(
                    |kk: i32| old_c.contains_key(kk) && !(t1.contains(kk) && !updates@.contains_key(kk)),
                    |kk: i32| old_c[kk]));
                assert forall|x: i32| #[trigger] dropped@.contains(x) <==> (t1.contains(x) && !updates@.contains_key(x)) by {
                    if dropped@.contains(x) && !old_dropped.contains(x) {
                        let j = choose|j: int| 0 <= j < dropped@.len() && dropped@[j] == x;
                        assert(j == old_dropped.len());
                    }
                    if old_dropped.contains(x) {
                        let j = choose|j: int| 0 <= j < old_dropped.len() && old_dropped[j] == x;
                        assert(dropped@[j] == x);
                    }
                    if x == k && !updates@.contains_key(x) {
                        assert(dropped@[old_dropped.len() as int] == k);
                    }
                }
            }
            i = i + 1;
        }
        proof {
            assert(ks@.take(ks@.len() as int) =~= ks@);
            assert(self.consumers@ =~= old_c.restrict(updates@.dom()));
        }
        dropped
    }

    /// Puts the new consumers of `updates` in place, replacing old ones.
    pub fn update_existing(&mut self, updates: IdTable<ConsumerAction<H>>)
        requires
            old(self).wf(),
            updates.wf(),
        ensures
            final(self).wf(),
            final(self).consumers() == updated_consumers(old(self).consumers(), updates@, updates@.dom()),
    {
        let ghost old_c = self.consumers@;
        let ghost old_u = updates@;
        let mut updates = updates;
        let ks = updates.keys();
        let mut i: usize = 0;
        proof {
            assert(ks@.take(0).to_set() =~= Set::<i32>::empty());
            assert(self.consumers@ =~= updated_consumers(old_c, old_u, Set::empty()));
            assert(updates@ =~= old_u.remove_keys(Set::empty()));
        }
        while i < ks.len()
            invariant
                i <= ks@.len(),
                ks@.no_duplicates(),
                forall|k: i32| #[trigger] ks@.contains(k) <==> old_u.contains_key(k),
                self.wf(),
                updates.wf(),
                updates@ == old_u.remove_keys(ks@.take(i as int).to_set()),
                self.consumers@ == updated_consumers(old_c, old_u, ks@.take(i as int).to_set()),
            decreases ks@.len() - i,
        {
            let k = ks[i];
            let ghost done = ks@.take(i as int).to_set();
            let ghost next = ks@.take(i + 1).to_set();
            proof {
                lemma_take_set_step(ks@, i as int);
            }
            match updates.remove(k) {
                Some(ConsumerAction::Update(c)) => {
                    self.consumers.insert(k, c);
                },
                _ => {},
            }
            proof {
                assert(updates@ =~= old_u.remove_keys(next));
                assert(self.consumers@ =~= updated_consumers(old_c, old_u, next));
            }
            i = i + 1;
        }
        proof {
            assert(ks@.take(ks@.len() as int) =~= ks@);
            assert(ks@.to_set() =~= old_u.dom());
        }
    }
}

/// After a round that drops the consumers of unlisted applications and then
/// puts the new consumers in place, every running consumer belongs to a
/// listed application; an application with a new consumer runs that one, and
/// a listed application kept as it was keeps the consumer it had.
pub proof fn round_runs_listed_applications<H>(
    before: Map<i32, ApplicationConsumer<H>>,
    dropped: Map<i32, ApplicationConsumer<H>>,
    after: Map<i32, ApplicationConsumer<H>>,
    updates: Map<i32, ConsumerAction<H>>,
    k: i32,
)
    requires
        dropped == before.restrict(updates.dom()),
        after == updated_consumers(dropped, updates, updates.dom()),
    ensures
        after.contains_key(k) ==> updates.contains_key(k),
        replaces(updates, k) ==> after.contains_key(k) && after[k] == updates[k]->Update_0,
        updates.contains_key(k) && updates[k] is NoUpdate ==>
            (after.contains_key(k) == before.contains_key(k)
            && (before.contains_key(k) ==> after[k] == before[k])),
{
}

/// After a restart round no application is failing: every consumer of an
/// application at the failure limit is stopped and its count starts over,
/// the others keep running with their counts; nothing else is lost.
pub proof fn restart_round_clears_failures<H>(
    consumers: Map<i32, ApplicationConsumer<H>>,
    failures: Map<i32, i32>,
    k: i32,
)
    ensures
        !failing(reset_failures(failures, failures.dom()), k),
        kept_consumers(consumers, failures, failures.dom()).contains_key(k) ==> !failing(failures, k),
        consumers.contains_key(k) <==> (kept_consumers(consumers, failures, failures.dom()).contains_key(k)
            || stopped_consumers(consumers, failures, failures.dom()).contains_key(k)),
        !(kept_consumers(consumers, failures, failures.dom()).contains_key(k)
            && stopped_consumers(consumers, failures, failures.dom()).contains_key(k)),
        failures.contains_key(k) && !failing(failures, k) ==> reset_failures(failures, failures.dom())[k] == failures[k],
{
}

/// An application whose consumer could not be made is failing, so the
/// next restart round stops whatever consumer it has and starts its count
/// over.
pub proof fn failed_creation_restarts<H>(
    failures: Map<i32, i32>,
    consumers: Map<i32, ApplicationConsumer<H>>,
    id: i32,
)
    ensures
        failing(failures.insert(id, MAX_FAILURES), id),
        consumers.contains_key(id) ==>
            stopped_consumers(consumers, failures.insert(id, MAX_FAILURES), failures.insert(id, MAX_FAILURES).dom()).contains_key(id),
        reset_failures(failures.insert(id, MAX_FAILURES), failures.insert(id, MAX_FAILURES).dom())[id] == 0,
{
}

} // verus!
