//! A table of per-application entries keyed by application id.
use vstd::prelude::*;
use crate::common::text::str_eq;

verus! {

/// The keys of a sequence of entries, as character sequences.
pub open spec fn key_seq<V>(s: Seq<(String, V)>) -> Seq<Seq<char>> {
    s.map_values(|e: (String, V)| e.0@)
}

/// The map that a sequence of entries with distinct keys stands for.
pub open spec fn entries_map<V>(s: Seq<(String, V)>) -> Map<Seq<char>, V> {
    Map::new(
        |k: Seq<char>| key_seq(s).contains(k),
        |k: Seq<char>| s[key_seq(s).index_of(k)].1,
    )
}

/// Entries keyed by application id; each id occurs at most once.
pub struct Registry<V> {
    entries: Vec<(String, V)>,
}

proof fn lemma_index_of_unique<V>(s: Seq<(String, V)>, i: int)
    requires
        key_seq(s).no_duplicates(),
        0 <= i < s.len(),
    ensures
        key_seq(s).index_of(s[i].0@) == i,
{
    let ks = key_seq(s);
    assert(ks[i] == s[i].0@);
    assert(ks.contains(s[i].0@));
    let j = ks.index_of(s[i].0@);
    assert(0 <= j < ks.len() && ks[j] == s[i].0@);
}

proof fn lemma_map_len<V>(s: Seq<(String, V)>)
    requires
        key_seq(s).no_duplicates(),
    ensures
        entries_map(s).dom().finite(),
        entries_map(s).dom().len() == s.len(),
{
    assert(entries_map(s).dom() =~= key_seq(s).to_set());
    key_seq(s).unique_seq_to_set();
    vstd::seq_lib::seq_to_set_is_finite(key_seq(s));
}

impl<V> Registry<V> {
    /// The entries as a map from application id to value.
    pub closed spec fn view(&self) -> Map<Seq<char>, V> {
        entries_map(self.entries@)
    }

    /// No application id occurs twice.
    pub closed spec fn wf(&self) -> bool {
        key_seq(self.entries@).no_duplicates()
    }

    /// An empty table.
    pub fn new() -> (r: Self)
        ensures
            r.wf(),
            r@ == Map::<Seq<char>, V>::empty(),
    {
        let r = Registry { entries: Vec::new() };
        assert(r@ =~= Map::<Seq<char>, V>::empty());
        r
    }

    /// Position of the entry for `id`, if there is one.
    fn position(&self, id: &str) -> (r: Option<usize>)
        requires
            self.wf(),
        ensures
            r is None <==> !self@.contains_key(id@),
            r matches Some(i) ==> i < self.entries@.len() && self.entries@[i as int].0@ == id@,
    {
        let mut i: usize = 0;
        while i < self.entries.len()
            invariant
                i <= self.entries@.len(),
                forall|j: int| 0 <= j < i ==> self.entries@[j].0@ != id@,
            decreases self.entries@.len() - i,
        {
            if str_eq(self.entries[i].0.as_str(), id) {
                assert(key_seq(self.entries@)[i as int] == id@);
                return Some(i);
            }
            i = i + 1;
        }
        proof {
            if key_seq(self.entries@).contains(id@) {
                let j = choose|j: int| 0 <= j < key_seq(self.entries@).len() && key_seq(self.entries@)[j] == id@;
                assert(key_seq(self.entries@)[j] == self.entries@[j].0@);
            }
        }
        None
    }

    /// The value stored for `id`.
    pub fn get(&self, id: &str) -> (r: Option<&V>)
        requires
            self.wf(),
        ensures
            r is Some <==> self@.contains_key(id@),
            r matches Some(v) ==> *v == self@[id@],
    {
        match self.position(id) {
            Some(i) => {
                proof {
                    lemma_index_of_unique(self.entries@, i as int);
                }
                Some(&self.entries[i].1)
            },
            None => None,
        }
    }

    /// Whether `id` has an entry.
    pub fn contains(&self, id: &str) -> (r: bool)
        requires
            self.wf(),
        ensures
            r == self@.contains_key(id@),
    {
        self.position(id).is_some()
    }

    /// Number of entries.
    pub fn len(&self) -> (r: usize)
        requires
            self.wf(),
        ensures
            r == self@.len(),
    {
        proof {
            lemma_map_len(self.entries@);
        }
        self.entries.len()
    }

    /// The entries, each id once.
    pub fn into_entries(self) -> (r: Vec<(String, V)>)
        requires
            self.wf(),
        ensures
            key_seq(r@).no_duplicates(),
            entries_map(r@) == self@,
    {
        self.entries
    }

    /// Stores `value` under `id`, replacing what was there.
    pub fn insert(&mut self, id: String, value: V)
        requires
            old(self).wf(),
        ensures
            final(self).wf(),
            final(self)@ == old(self)@.insert(id@, value),
    {
        let ghost old_s = self.entries@;
        let ghost k = id@;
        match self.position(id.as_str()) {
            Some(i) => {
                self.entries.set(i, (id, value));
                proof {
                    let s = self.entries@;
                    assert(key_seq(s) =~= key_seq(old_s));
                    assert forall|kk: Seq<char>| #[trigger] entries_map(s).contains_key(kk)
                        implies entries_map(s)[kk] == old_s_map_insert(old_s, k, value)[kk] by {
                        let j = key_seq(s).index_of(kk);
                        assert(0 <= j < s.len() && key_seq(s)[j] == kk);
                        assert(key_seq(old_s)[j] == kk);
                        lemma_index_of_unique(old_s, j);
                        lemma_index_of_unique(s, j);
                        assert(key_seq(old_s)[i as int] == k);
                        if kk == k {
                            assert(j == i);
                        }
                    }
                    assert(entries_map(s) =~= entries_map(old_s).insert(k, value));
                }
            },
            None => {
                self.entries.push((id, value));
                proof {
                    let s = self.entries@;
                    assert(key_seq(s) =~= key_seq(old_s).push(k));
                    assert(key_seq(s).no_duplicates()) by {
                        assert forall|a: int, b: int| 0 <= a < key_seq(s).len() && 0 <= b < key_seq(s).len() && a != b
                            implies key_seq(s)[a] != key_seq(s)[b] by {
                            if a < old_s.len() && b < old_s.len() {
                            } else if a == old_s.len() {
                                assert(key_seq(old_s)[b] == key_seq(s)[b]);
                            } else {
                                assert(key_seq(old_s)[a] == key_seq(s)[a]);
                            }
                        }
                    }
                    assert forall|kk: Seq<char>| #[trigger] entries_map(s).contains_key(kk)
                        implies old_s_map_insert(old_s, k, value).contains_key(kk)
                            && entries_map(s)[kk] == old_s_map_insert(old_s, k, value)[kk] by {
                        let j = key_seq(s).index_of(kk);
                        assert(0 <= j < s.len() && key_seq(s)[j] == kk);
                        if j < old_s.len() {
                            assert(key_seq(old_s)[j] == kk);
                            lemma_index_of_unique(old_s, j);
                            assert(kk != k);
                        } else {
                            lemma_index_of_unique(s, j);
                        }
                    }
                    assert forall|kk: Seq<char>| #[trigger] old_s_map_insert(old_s, k, value).contains_key(kk)
                        implies entries_map(s).contains_key(kk) by {
                        if kk == k {
                            assert(key_seq(s)[old_s.len() as int] == k);
                        } else {
                            let j = key_seq(old_s).index_of(kk);
                            assert(0 <= j < old_s.len() && key_seq(old_s)[j] == kk);
                            assert(key_seq(s)[j] == kk);
                        }
                    }
                    assert(entries_map(s) =~= old_s_map_insert(old_s, k, value));
                }
            },
        }
    }

    /// Removes the entry for `id`; returns whether there was one.
    pub fn remove(&mut self, id: &str) -> (r: Option<V>)
        requires
            old(self).wf(),
        ensures
            final(self).wf(),
            final(self)@ == old(self)@.remove(id@),
            r is Some <==> old(self)@.contains_key(id@),
            r matches Some(v) ==> v == old(self)@[id@],
    {
        let ghost old_s = self.entries@;
        match self.position(id) {
            Some(i) => {
                proof {
                    lemma_index_of_unique(old_s, i as int);
                }
                let (_, v) = self.entries.remove(i);
                proof {
                    let s = self.entries@;
                    assert(key_seq(s) =~= key_seq(old_s).remove(i as int));
                    assert(key_seq(s).no_duplicates()) by {
                        assert forall|a: int, b: int| 0 <= a < key_seq(s).len() && 0 <= b < key_seq(s).len() && a != b
                            implies key_seq(s)[a] != key_seq(s)[b] by {
                            let aa = if a < i { a } else { a + 1 };
                            let bb = if b < i { b } else { b + 1 };
                            assert(key_seq(s)[a] == key_seq(old_s)[aa]);
                            assert(key_seq(s)[b] == key_seq(old_s)[bb]);
                        }
                    }
                    assert forall|kk: Seq<char>| #[trigger] entries_map(old_s).remove(id@).contains_key(kk)
                        implies entries_map(s).contains_key(kk) by {
                        let j = key_seq(old_s).index_of(kk);
                        assert(0 <= j < old_s.len() && key_seq(old_s)[j] == kk);
                        assert(j != i);
                        let jj = if j < i { j } else { j - 1 };
                        assert(key_seq(s)[jj] == kk);
                    }
                    assert forall|kk: Seq<char>| #[trigger] entries_map(s).contains_key(kk)
                        implies entries_map(old_s).remove(id@).contains_key(kk)
                            && entries_map(s)[kk] == entries_map(old_s)[kk] by {
                        let j = key_seq(s).index_of(kk);
                        assert(0 <= j < s.len() && key_seq(s)[j] == kk);
                        let jj = if j < i { j } else { j + 1 };
                        assert(key_seq(old_s)[jj] == kk);
                        lemma_index_of_unique(old_s, jj);
                        lemma_index_of_unique(s, j);
                        assert(kk != id@);
                    }
                    assert(entries_map(s) =~= entries_map(old_s).remove(id@));
                }
                Some(v)
            },
            None => {
                assert(entries_map(old_s).remove(id@) =~= entries_map(old_s));
                None
            },
        }
    }
}

/// Helper naming `old.insert(k, v)` for the proofs above.
spec fn old_s_map_insert<V>(s: Seq<(String, V)>, k: Seq<char>, v: V) -> Map<Seq<char>, V> {
    entries_map(s).insert(k, v)
}

} // verus!
