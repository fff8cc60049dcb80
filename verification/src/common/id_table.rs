//! A table of entries keyed by numeric id.
use vstd::prelude::*;

verus! {

broadcast use vstd::std_specs::hash::group_hash_axioms;

/// Entries keyed by numeric id, held in a hash map.
pub struct IdTable<V> {
    entries: std::collections::HashMap<i32, V>,
}

impl<V> IdTable<V> {
    /// The entries as a map from application id to value.
    pub closed spec fn view(&self) -> Map<i32, V> {
        self.entries@
    }

    /// The table holds finitely many entries.
    pub closed spec fn wf(&self) -> bool {
        self.entries@.dom().finite()
    }

    /// An empty table.
    pub fn new() -> (r: Self)
        ensures
            r.wf(),
            r@ == Map::<i32, V>::empty(),
    {
        IdTable { entries: std::collections::HashMap::new() }
    }

    /// The value stored for `id`.
    pub fn get(&self, id: i32) -> (r: Option<&V>)
        requires
            self.wf(),
        ensures
            r is Some <==> self@.contains_key(id),
            r matches Some(v) ==> *v == self@[id],
    {
        self.entries.get(&id)
    }

    /// Whether `id` has an entry.
    pub fn contains(&self, id: i32) -> (r: bool)
        requires
            self.wf(),
        ensures
            r == self@.contains_key(id),
    {
        self.entries.contains_key(&id)
    }

    /// Number of entries.
    pub fn len(&self) -> (r: usize)
        requires
            self.wf(),
        ensures
            r == self@.len(),
    {
        self.entries.len()
    }

    /// The ids, each once.
    pub fn keys(&self) -> (r: Vec<i32>)
        requires
            self.wf(),
        ensures
            r@.no_duplicates(),
            forall|k: i32| #[trigger] r@.contains(k) <==> self@.contains_key(k),
    {
        let ghost all = vstd::std_specs::iter::IteratorSpec::remaining(&vstd::std_specs::hash::spec_keys_iter(&self.entries));
        let mut r: Vec<i32> = Vec::new();
        for k in it: self.entries.keys()
            invariant
                it.seq() == all,
                r@ == all.take(it.index()).unref(),
        {
            r.push(*k);
            assert(r@ =~= all.take(it.index() + 1).unref());
        }
        assert(r@ =~= all.unref());
        r
    }

    /// Stores `value` under `id`, replacing what was there.
    pub fn insert(&mut self, id: i32, value: V)
        requires
            old(self).wf(),
        ensures
            final(self).wf(),
            final(self)@ == old(self)@.insert(id, value),
    {
        let _ = self.entries.insert(id, value);
    }

    /// Removes the entry for `id`; returns whether there was one.
    pub fn remove(&mut self, id: i32) -> (r: Option<V>)
        requires
            old(self).wf(),
        ensures
            final(self).wf(),
            final(self)@ == old(self)@.remove(id),
            r is Some <==> old(self)@.contains_key(id),
            r matches Some(v) ==> v == old(self)@[id],
    {
        self.entries.remove(&id)
    }
}

} // verus!
