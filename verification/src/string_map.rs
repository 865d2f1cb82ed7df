//! A map keyed by strings, kept as a list of entries with distinct keys.

use vstd::prelude::*;

verus! {

/// A finite map from strings to values of type `V`.
///
/// The entries are stored in a list in which no key occurs twice. Which
/// position an entry takes is not part of the map's meaning: the view is a
/// mathematical map, and [`StringMap::keys`] gives the stored order for callers
/// that walk the entries.
pub struct StringMap<V> {
    entries: Vec<(String, V)>,
}

/// The key of the entry at position `i`.
spec fn entry_key<V>(entries: Seq<(String, V)>, i: int) -> Seq<char> {
    entries[i].0@
}

/// No two entries share a key.
spec fn distinct_keys<V>(entries: Seq<(String, V)>) -> bool {
    forall|i: int, j: int|
        0 <= i < j < entries.len() ==> #[trigger] entry_key(entries, i) != #[trigger] entry_key(
            entries,
            j,
        )
}

/// Some entry has the key `key`.
spec fn has_key<V>(entries: Seq<(String, V)>, key: Seq<char>) -> bool {
    exists|i: int| 0 <= i < entries.len() && #[trigger] entry_key(entries, i) == key
}

/// A position at which `key` is stored, if it is stored at all.
spec fn position<V>(entries: Seq<(String, V)>, key: Seq<char>) -> int {
    choose|i: int| 0 <= i < entries.len() && #[trigger] entry_key(entries, i) == key
}

/// The map that a list of entries stands for.
spec fn entries_map<V>(entries: Seq<(String, V)>) -> Map<Seq<char>, V> {
    Map::new(|k: Seq<char>| has_key(entries, k), |k: Seq<char>| entries[position(entries, k)].1)
}

/// The keys of a list of entries, in order.
spec fn entries_keys<V>(entries: Seq<(String, V)>) -> Seq<Seq<char>> {
    Seq::new(entries.len(), |i: int| entry_key(entries, i))
}

proof fn lemma_entry<V>(entries: Seq<(String, V)>, i: int)
    requires
        distinct_keys(entries),
        0 <= i < entries.len(),
    ensures
        entries_map(entries).contains_key(entries[i].0@),
        entries_map(entries)[entries[i].0@] == entries[i].1,
{
    let k = entry_key(entries, i);
    assert(has_key(entries, k));
    let p = position(entries, k);
    assert(entry_key(entries, p) == k);
    if p < i {
        assert(entry_key(entries, p) != entry_key(entries, i));
    } else if i < p {
        assert(entry_key(entries, i) != entry_key(entries, p));
    }
}

proof fn lemma_absent<V>(entries: Seq<(String, V)>, key: Seq<char>)
    requires
        forall|i: int| 0 <= i < entries.len() ==> entries[i].0@ != key,
    ensures
        !entries_map(entries).contains_key(key),
{
    if has_key(entries, key) {
        let i = choose|i: int| 0 <= i < entries.len() && #[trigger] entry_key(entries, i) == key;
        assert(entries[i].0@ == key);
    }
}

proof fn lemma_push<V>(entries: Seq<(String, V)>, entry: (String, V))
    requires
        distinct_keys(entries),
        !entries_map(entries).contains_key(entry.0@),
    ensures
        distinct_keys(entries.push(entry)),
        entries_map(entries.push(entry)) == entries_map(entries).insert(entry.0@, entry.1),
{
    let longer = entries.push(entry);
    let last = entries.len() as int;
    assert forall|i: int, j: int| 0 <= i < j < longer.len() implies #[trigger] entry_key(
        longer,
        i,
    ) != #[trigger] entry_key(longer, j) by {
        if j < last {
            assert(entry_key(entries, i) != entry_key(entries, j));
        } else {
            assert(entry_key(entries, i) == longer[i].0@);
            assert(has_key(entries, entry_key(entries, i)));
        }
    }
    assert forall|k: Seq<char>| #[trigger]
        entries_map(longer).contains_key(k) == entries_map(entries).insert(
            entry.0@,
            entry.1,
        ).contains_key(k) by {
        if has_key(longer, k) {
            let i = position(longer, k);
            assert(entry_key(longer, i) == k);
            if i < last {
                assert(entry_key(entries, i) == k);
            }
        }
        if has_key(entries, k) {
            let i = position(entries, k);
            assert(entry_key(longer, i) == entry_key(entries, i));
        }
        if k == entry.0@ {
            assert(entry_key(longer, last) == k);
        }
    }
    assert forall|k: Seq<char>| #[trigger] entries_map(longer).contains_key(k) implies entries_map(
        longer,
    )[k] == entries_map(entries).insert(entry.0@, entry.1)[k] by {
        let i = position(longer, k);
        assert(entry_key(longer, i) == k);
        lemma_entry(longer, i);
        if i < last {
            assert(entry_key(entries, i) == k);
            lemma_entry(entries, i);
        }
    }
    assert(entries_map(longer) =~= entries_map(entries).insert(entry.0@, entry.1));
}

proof fn lemma_remove<V>(entries: Seq<(String, V)>, at: int)
    requires
        distinct_keys(entries),
        0 <= at < entries.len(),
    ensures
        distinct_keys(entries.remove(at)),
        entries_map(entries.remove(at)) == entries_map(entries).remove(entries[at].0@),
{
    let shorter = entries.remove(at);
    let gone = entries[at].0@;
    assert forall|i: int| 0 <= i < shorter.len() implies #[trigger] entry_key(shorter, i)
        == entry_key(entries, if i < at { i } else { i + 1 }) by {}
    assert forall|i: int, j: int| 0 <= i < j < shorter.len() implies #[trigger] entry_key(
        shorter,
        i,
    ) != #[trigger] entry_key(shorter, j) by {
        let a = if i < at { i } else { i + 1 };
        let b = if j < at { j } else { j + 1 };
        assert(entry_key(entries, a) != entry_key(entries, b));
    }
    assert forall|k: Seq<char>| #[trigger]
        entries_map(shorter).contains_key(k) == entries_map(entries).remove(gone).contains_key(
            k,
        ) by {
        if has_key(shorter, k) {
            let i = position(shorter, k);
            assert(entry_key(shorter, i) == k);
            let a = if i < at { i } else { i + 1 };
            assert(entry_key(entries, a) == k);
            if a < at {
                assert(entry_key(entries, a) != entry_key(entries, at));
            } else {
                assert(entry_key(entries, at) != entry_key(entries, a));
            }
        }
        if has_key(entries, k) && k != gone {
            let i = position(entries, k);
            assert(entry_key(entries, i) == k);
            let a = if i < at { i } else { i - 1 };
            assert(entry_key(shorter, a) == k);
        }
    }
    assert forall|k: Seq<char>| #[trigger] entries_map(shorter).contains_key(k) implies entries_map(
        shorter,
    )[k] == entries_map(entries).remove(gone)[k] by {
        let i = position(shorter, k);
        assert(entry_key(shorter, i) == k);
        lemma_entry(shorter, i);
        let a = if i < at { i } else { i + 1 };
        assert(entry_key(entries, a) == k);
        lemma_entry(entries, a);
    }
    assert(entries_map(shorter) =~= entries_map(entries).remove(gone));
}

impl<V> View for StringMap<V> {
    type V = Map<Seq<char>, V>;

    closed spec fn view(&self) -> Map<Seq<char>, V> {
        entries_map(self.entries@)
    }
}

impl<V> StringMap<V> {
    #[verifier::type_invariant]
    spec fn well_formed(self) -> bool {
        distinct_keys(self.entries@)
    }

    /// The keys in the order in which the entries are stored.
    pub closed spec fn keys(&self) -> Seq<Seq<char>> {
        entries_keys(self.entries@)
    }

    /// An empty map.
    pub fn new() -> (r: Self)
        ensures
            r@ == Map::<Seq<char>, V>::empty(),
            r.keys() == Seq::<Seq<char>>::empty(),
    {
        let r = StringMap { entries: Vec::new() };
        proof {
            assert(r@ =~= Map::<Seq<char>, V>::empty());
            assert(r.keys() =~= Seq::<Seq<char>>::empty());
        }
        r
    }

    /// The number of entries. The stored keys are distinct and are exactly the
    /// keys of the map.
    pub fn len(&self) -> (n: usize)
        ensures
            n == self@.len(),
            n == self.keys().len(),
            self@.dom().finite(),
            self.keys().no_duplicates(),
            forall|k: Seq<char>| self.keys().contains(k) <==> self@.contains_key(k),
    {
        proof {
            use_type_invariant(self);
            let entries = self.entries@;
            assert forall|i: int, j: int|
                0 <= i < self.keys().len() && 0 <= j < self.keys().len() && i != j implies self.keys()[i]
                != self.keys()[j] by {
                if i < j {
                    assert(entry_key(entries, i) != entry_key(entries, j));
                } else {
                    assert(entry_key(entries, j) != entry_key(entries, i));
                }
            }
            assert forall|k: Seq<char>| self.keys().contains(k) <==> self@.contains_key(k) by {
                if self.keys().contains(k) {
                    let i = choose|i: int| 0 <= i < self.keys().len() && self.keys()[i] == k;
                    assert(entry_key(entries, i) == k);
                }
                if has_key(entries, k) {
                    let i = position(entries, k);
                    assert(self.keys()[i] == k);
                }
            }
            assert(self.keys().to_set() =~= self@.dom());
            self.keys().unique_seq_to_set();
        }
        self.entries.len()
    }

    /// The key stored at position `i`.
    pub fn key_at(&self, i: usize) -> (r: &String)
        requires
            i < self.keys().len(),
        ensures
            r@ == self.keys()[i as int],
    {
        &self.entries[i].0
    }

    /// The value stored at position `i`.
    pub fn value_at(&self, i: usize) -> (r: &V)
        requires
            i < self.keys().len(),
        ensures
            self@.contains_key(self.keys()[i as int]),
            *r == self@[self.keys()[i as int]],
    {
        proof {
            use_type_invariant(self);
            lemma_entry(self.entries@, i as int);
        }
        &self.entries[i].1
    }

    fn find(&self, key: &String) -> (r: Option<usize>)
        ensures
            match r {
                Some(i) => i < self.entries.len() && self.entries[i as int].0@ == key@,
                None => !self@.contains_key(key@),
            },
    {
        let mut i: usize = 0;
        while i < self.entries.len()
            invariant
                i <= self.entries.len(),
                forall|j: int| 0 <= j < i ==> self.entries[j].0@ != key@,
            decreases self.entries.len() - i,
        {
            if self.entries[i].0 == *key {
                return Some(i);
            }
            i += 1;
        }
        proof {
            lemma_absent(self.entries@, key@);
        }
        None
    }

    /// Whether `key` has an entry.
    pub fn contains_key(&self, key: &String) -> (r: bool)
        ensures
            r == self@.contains_key(key@),
    {
        proof {
            use_type_invariant(self);
        }
        match self.find(key) {
            Some(i) => {
                proof {
                    lemma_entry(self.entries@, i as int);
                }
                true
            },
            None => false,
        }
    }

    /// The value stored under `key`, if there is one.
    pub fn get(&self, key: &String) -> (r: Option<&V>)
        ensures
            r == if self@.contains_key(key@) {
                Some(&self@[key@])
            } else {
                None
            },
    {
        proof {
            use_type_invariant(self);
        }
        match self.find(key) {
            Some(i) => {
                proof {
                    lemma_entry(self.entries@, i as int);
                }
                Some(&self.entries[i].1)
            },
            None => None,
        }
    }

    /// Stores `value` under `key` and returns the value that it replaces, if
    /// any.
    pub fn insert(&mut self, key: String, value: V) -> (r: Option<V>)
        ensures
            final(self)@ == old(self)@.insert(key@, value),
            r == if old(self)@.contains_key(key@) {
                Some(old(self)@[key@])
            } else {
                None
            },
    {
        proof {
            use_type_invariant(&*self);
        }
        let found = self.find(&key);
        let mut entries = Vec::new();
        std::mem::swap(&mut entries, &mut self.entries);
        let replaced = match found {
            Some(i) => {
                proof {
                    lemma_entry(entries@, i as int);
                    lemma_remove(entries@, i as int);
                }
                let entry = entries.remove(i);
                Some(entry.1)
            },
            None => None,
        };
        proof {
            lemma_push(entries@, (key, value));
            assert(old(self)@.remove(key@).insert(key@, value) =~= old(self)@.insert(key@, value));
        }
        entries.push((key, value));
        self.entries = entries;
        replaced
    }

    /// Removes the entry of `key` and returns its value, if there is one.
    pub fn remove(&mut self, key: &String) -> (r: Option<V>)
        ensures
            final(self)@ == old(self)@.remove(key@),
            r == if old(self)@.contains_key(key@) {
                Some(old(self)@[key@])
            } else {
                None
            },
    {
        proof {
            use_type_invariant(&*self);
        }
        match self.find(key) {
            Some(i) => {
                let mut entries = Vec::new();
                std::mem::swap(&mut entries, &mut self.entries);
                proof {
                    lemma_entry(entries@, i as int);
                    lemma_remove(entries@, i as int);
                }
                let entry = entries.remove(i);
                self.entries = entries;
                Some(entry.1)
            },
            None => {
                proof {
                    assert(old(self)@.remove(key@) =~= old(self)@);
                }
                None
            },
        }
    }
}

} // verus!
