//! A small key/value store standing for a contract's persistent storage.
use vstd::prelude::*;

verus! {

/// A key of a [`KeyedStore`]: executable equality agrees with spec equality.
pub trait StoreKey: Sized {
    fn same(&self, other: &Self) -> (r: bool)
        ensures
            r == (*self == *other),
    ;
}

impl StoreKey for u64 {
    fn same(&self, other: &Self) -> (r: bool) {
        *self == *other
    }
}

impl StoreKey for (u64, u64) {
    fn same(&self, other: &Self) -> (r: bool) {
        self.0 == other.0 && self.1 == other.1
    }
}

/// Whether no key occurs twice in `s`.
pub open spec fn unique_keys<K, V>(s: Seq<(K, V)>) -> bool {
    forall|i: int, j: int|
        0 <= i < s.len() && 0 <= j < s.len() && i != j ==> s[i].0 != s[j].0
}

spec fn has_key<K, V>(s: Seq<(K, V)>, k: K) -> bool {
    exists|i: int| 0 <= i < s.len() && s[i].0 == k
}

spec fn index_of<K, V>(s: Seq<(K, V)>, k: K) -> int {
    choose|i: int| 0 <= i < s.len() && s[i].0 == k
}

/// The map that a sequence of key/value pairs stands for.
pub closed spec fn entries_map<K, V>(s: Seq<(K, V)>) -> Map<K, V> {
    Map::new(|k: K| has_key(s, k), |k: K| s[index_of(s, k)].1)
}

proof fn lemma_entry<K, V>(s: Seq<(K, V)>, i: int)
    requires
        unique_keys(s),
        0 <= i < s.len(),
    ensures
        entries_map(s).contains_key(s[i].0),
        entries_map(s)[s[i].0] == s[i].1,
{
    let k = s[i].0;
    assert(has_key(s, k));
    let j = index_of(s, k);
    assert(j == i);
}

proof fn lemma_absent<K, V>(s: Seq<(K, V)>, k: K)
    requires
        forall|i: int| 0 <= i < s.len() ==> s[i].0 != k,
    ensures
        !entries_map(s).contains_key(k),
{
}

/// Key/value pairs, each key present at most once; viewed as a `Map`.
pub struct KeyedStore<K, V> {
    entries: Vec<(K, V)>,
}

impl<K, V> KeyedStore<K, V> {
    #[verifier::type_invariant]
    spec fn keys_unique(self) -> bool {
        unique_keys(self.entries@)
    }

    /// An empty store.
    pub fn new() -> (s: Self)
        ensures
            s@ == Map::<K, V>::empty(),
    {
        let s = KeyedStore { entries: Vec::new() };
        assert(entries_map(s.entries@) =~= Map::<K, V>::empty());
        s
    }
}

impl<K, V> View for KeyedStore<K, V> {
    type V = Map<K, V>;

    closed spec fn view(&self) -> Map<K, V> {
        entries_map(self.entries@)
    }
}

impl<K: StoreKey, V> KeyedStore<K, V> {
    fn find(&self, k: &K) -> (r: Option<usize>)
        ensures
            match r {
                Some(i) => i < self.entries@.len() && self.entries@[i as int].0 == *k,
                None => forall|i: int| 0 <= i < self.entries@.len() ==> self.entries@[i].0 != *k,
            },
    {
        let n = self.entries.len();
        for i in 0..n
            invariant
                n == self.entries@.len(),
                forall|j: int| 0 <= j < i ==> self.entries@[j].0 != *k,
        {
            if self.entries[i].0.same(k) {
                return Some(i);
            }
        }
        None
    }

    /// The value stored under `k`, if any.
    pub fn get(&self, k: &K) -> (r: Option<V>) where V: Copy
        ensures
            r == (if self@.contains_key(*k) {
                Some(self@[*k])
            } else {
                None
            }),
    {
        proof {
            use_type_invariant(self);
        }
        match self.find(k) {
            Some(i) => {
                proof {
                    lemma_entry(self.entries@, i as int);
                }
                Some(self.entries[i].1)
            },
            None => {
                proof {
                    lemma_absent(self.entries@, *k);
                }
                None
            },
        }
    }

    /// Stores `v` under `k`, replacing any earlier value.
    pub fn set(&mut self, k: K, v: V)
        ensures
            final(self)@ == old(self)@.insert(k, v),
    {
        proof {
            use_type_invariant(&*self);
        }
        let ghost before = entries_map(self.entries@);
        match self.find(&k) {
            Some(i) => {
                let ghost old_entries = self.entries@;
                let mut entries: Vec<(K, V)> = Vec::new();
                std::mem::swap(&mut entries, &mut self.entries);
                entries.set(i, (k, v));
                self.entries = entries;
                proof {
                    assert(self.entries@ == old_entries.update(i as int, (k, v)));
                    assert forall|key: K| #[trigger] entries_map(self.entries@).contains_key(key)
                        == before.insert(k, v).contains_key(key) by {
                        if has_key(self.entries@, key) {
                            let j = index_of(self.entries@, key);
                            if j != i {
                                assert(old_entries[j].0 == key);
                            }
                        }
                        if key == k {
                            assert(self.entries@[i as int].0 == key);
                        }
                        if before.contains_key(key) && key != k {
                            let j = choose|j: int| 0 <= j < old_entries.len() && old_entries[j].0 == key;
                            assert(self.entries@[j].0 == key);
                        }
                    }
                    assert forall|key: K| #[trigger] entries_map(self.entries@).contains_key(key)
                        implies entries_map(self.entries@)[key] == before.insert(k, v)[key] by {
                        let j = index_of(self.entries@, key);
                        lemma_entry(self.entries@, j);
                        if key != k {
                            assert(old_entries[j].0 == key);
                            assert(old_entries[j] == self.entries@[j]);
                            lemma_entry(old_entries, j);
                        }
                    }
                    assert(entries_map(self.entries@) =~= before.insert(k, v));
                }
            },
            None => {
                let ghost old_entries = self.entries@;
                let mut entries: Vec<(K, V)> = Vec::new();
                std::mem::swap(&mut entries, &mut self.entries);
                entries.push((k, v));
                self.entries = entries;
                proof {
                    assert(self.entries@ == old_entries.push((k, v)));
                    assert forall|key: K| #[trigger] entries_map(self.entries@).contains_key(key)
                        == before.insert(k, v).contains_key(key) by {
                        if has_key(self.entries@, key) && key != k {
                            let j = index_of(self.entries@, key);
                            assert(old_entries[j].0 == key);
                        }
                        if before.contains_key(key) && key != k {
                            let j = choose|j: int| 0 <= j < old_entries.len() && old_entries[j].0 == key;
                            assert(self.entries@[j].0 == key);
                        }
                        if key == k {
                            assert(self.entries@[old_entries.len() as int].0 == key);
                        }
                    }
                    assert forall|key: K| #[trigger] entries_map(self.entries@).contains_key(key)
                        implies entries_map(self.entries@)[key] == before.insert(k, v)[key] by {
                        let j = index_of(self.entries@, key);
                        lemma_entry(self.entries@, j);
                        if key != k {
                            assert(old_entries[j].0 == key);
                            lemma_entry(old_entries, j);
                        }
                    }
                    assert(entries_map(self.entries@) =~= before.insert(k, v));
                }
            },
        }
    }
}

} // verus!
