//! A small map kept as a list of entries whose keys are pairwise distinct.
//!
//! Panels are keyed by button index and buttons by component name; both use this list,
//! which keeps the entries in insertion order and is viewed as a mathematical map.

use vstd::prelude::*;

verus! {

/// Keys that can be compared and copied in executable code with a known meaning.
pub trait MapKey: Sized {
    type KeyView;

    spec fn key_view(&self) -> Self::KeyView;

    fn key_eq(&self, other: &Self) -> (r: bool)
        ensures
            r == (self.key_view() == other.key_view()),
    ;

    fn key_copy(&self) -> (r: Self)
        ensures
            r == *self,
    ;
}

impl MapKey for u8 {
    type KeyView = u8;

    open spec fn key_view(&self) -> u8 {
        *self
    }

    fn key_eq(&self, other: &Self) -> (r: bool) {
        *self == *other
    }

    fn key_copy(&self) -> (r: Self) {
        *self
    }
}

impl MapKey for String {
    type KeyView = Seq<char>;

    open spec fn key_view(&self) -> Seq<char> {
        self@
    }

    fn key_eq(&self, other: &Self) -> (r: bool) {
        *self == *other
    }

    fn key_copy(&self) -> (r: Self) {
        self.clone()
    }
}

/// No two entries share a key.
pub open spec fn keys_distinct<K: MapKey, T>(s: Seq<(K, T)>) -> bool {
    forall|i: int, j: int|
        0 <= i < s.len() && 0 <= j < s.len() && i != j ==> (#[trigger] s[i]).0.key_view() != (
        #[trigger] s[j]).0.key_view()
}

/// The map that a list of entries denotes; later entries win over earlier ones.
pub open spec fn entries_map<K: MapKey, T>(s: Seq<(K, T)>) -> Map<K::KeyView, T>
    decreases s.len(),
{
    if s.len() == 0 {
        Map::empty()
    } else {
        entries_map(s.drop_last()).insert(s.last().0.key_view(), s.last().1)
    }
}

/// With distinct keys, a key is in the map exactly when some entry carries it, and it maps
/// to that entry's value.
pub proof fn lemma_entries_map<K: MapKey, T>(s: Seq<(K, T)>)
    requires
        keys_distinct(s),
    ensures
        forall|k: K::KeyView|
            entries_map(s).dom().contains(k) <==> exists|i: int|
                0 <= i < s.len() && (#[trigger] s[i]).0.key_view() == k,
        forall|i: int| 0 <= i < s.len() ==> entries_map(s)[(#[trigger] s[i]).0.key_view()] == s[i].1,
        entries_map(s).dom().finite(),
        entries_map(s).dom().len() == s.len(),
    decreases s.len(),
{
    if s.len() > 0 {
        let p = s.drop_last();
        assert(keys_distinct(p)) by {
            assert forall|i: int, j: int|
                0 <= i < p.len() && 0 <= j < p.len() && i != j implies (#[trigger] p[i]).0.key_view()
                != (#[trigger] p[j]).0.key_view() by {
                assert(p[i] == s[i] && p[j] == s[j]);
            }
        }
        lemma_entries_map(p);
        let last = s.last();
        assert(!entries_map(p).dom().contains(last.0.key_view())) by {
            if entries_map(p).dom().contains(last.0.key_view()) {
                let i = choose|i: int| 0 <= i < p.len() && (#[trigger] p[i]).0.key_view() == last.0.key_view();
                assert(p[i] == s[i]);
                assert(s[s.len() - 1] == last);
            }
        }
        assert forall|k: K::KeyView|
            entries_map(s).dom().contains(k) <==> exists|i: int|
                0 <= i < s.len() && (#[trigger] s[i]).0.key_view() == k by {
            if entries_map(s).dom().contains(k) {
                if k == last.0.key_view() {
                    assert(s[s.len() - 1].0.key_view() == k);
                } else {
                    let i = choose|i: int| 0 <= i < p.len() && (#[trigger] p[i]).0.key_view() == k;
                    assert(s[i] == p[i]);
                }
            }
            if exists|i: int| 0 <= i < s.len() && (#[trigger] s[i]).0.key_view() == k {
                let i = choose|i: int| 0 <= i < s.len() && (#[trigger] s[i]).0.key_view() == k;
                if i < s.len() - 1 {
                    assert(p[i] == s[i]);
                }
            }
        }
        assert forall|i: int| 0 <= i < s.len() implies entries_map(s)[(#[trigger] s[i]).0.key_view()]
            == s[i].1 by {
            if i < s.len() - 1 {
                assert(p[i] == s[i]);
                assert(s[i].0.key_view() != s[s.len() - 1].0.key_view());
            }
        }
    }
}

/// The map of a prefix grows by one entry at a time.
pub proof fn lemma_entries_map_prefix<K: MapKey, T>(s: Seq<(K, T)>, i: int)
    requires
        0 <= i < s.len(),
    ensures
        entries_map(s.take(i + 1)) == entries_map(s.take(i)).insert(s[i].0.key_view(), s[i].1),
{
    assert(s.take(i + 1).drop_last() =~= s.take(i));
}

/// A map kept as a list of entries with pairwise distinct keys.
#[derive(Debug)]
pub struct KeyedList<K: MapKey, T> {
    entries: Vec<(K, T)>,
}

impl<K: MapKey, T> KeyedList<K, T> {
    #[verifier::type_invariant]
    spec fn distinct_keys(self) -> bool {
        keys_distinct(self.entries@)
    }

    /// The entries in the order they are kept.
    pub closed spec fn entries(self) -> Seq<(K, T)> {
        self.entries@
    }

    /// The keys in the order they are kept: the order in which they were first inserted.
    pub closed spec fn key_order(self) -> Seq<K::KeyView> {
        self.entries@.map_values(|e: (K, T)| e.0.key_view())
    }

    /// The kept keys are those of the entries, position by position.
    pub proof fn lemma_key_order(self, i: int)
        ensures
            self.key_order().len() == self.entries().len(),
            0 <= i < self.entries().len() ==> self.key_order()[i] == self.entries()[i].0.key_view(),
    {
    }

    /// The map the list denotes.
    pub open spec fn map(self) -> Map<K::KeyView, T> {
        entries_map(self.entries())
    }

    /// Facts about the entries that every list keeps; it does nothing when run.
    pub fn lemma_wf(&self)
        ensures
            keys_distinct(self.entries()),
            forall|k: K::KeyView|
                self.map().dom().contains(k) <==> exists|i: int|
                    0 <= i < self.entries().len() && (#[trigger] self.entries()[i]).0.key_view() == k,
            forall|i: int|
                0 <= i < self.entries().len() ==> self.map()[(
                #[trigger] self.entries()[i]).0.key_view()] == self.entries()[i].1,
            self.map().dom().finite(),
            self.map().dom().len() == self.entries().len(),
    {
        proof {
            use_type_invariant(self);
            lemma_entries_map(self.entries@);
        }
    }

    /// Creates an empty list.
    pub fn new() -> (r: Self)
        ensures
            r.map() == Map::<K::KeyView, T>::empty(),
            r.entries().len() == 0,
    {
        KeyedList { entries: Vec::new() }
    }

    /// Number of entries.
    pub fn len(&self) -> (r: usize)
        ensures
            r == self.entries().len(),
            r == self.map().dom().len(),
    {
        self.lemma_wf();
        self.entries.len()
    }

    /// Key of the entry at a position.
    pub fn key_at(&self, i: usize) -> (r: &K)
        requires
            i < self.entries().len(),
        ensures
            *r == self.entries()[i as int].0,
    {
        &self.entries[i].0
    }

    /// Value of the entry at a position.
    pub fn value_at(&self, i: usize) -> (r: &T)
        requires
            i < self.entries().len(),
        ensures
            *r == self.entries()[i as int].1,
    {
        &self.entries[i].1
    }

    /// Position of the entry with the given key.
    fn position(&self, key: &K) -> (r: Option<usize>)
        ensures
            match r {
                Some(i) => i < self.entries().len() && self.entries()[i as int].0.key_view()
                    == key.key_view(),
                None => forall|j: int|
                    0 <= j < self.entries().len() ==> (#[trigger] self.entries()[j]).0.key_view()
                        != key.key_view(),
            },
    {
        let mut i: usize = 0;
        while i < self.entries.len()
            invariant
                i <= self.entries@.len(),
                forall|j: int| 0 <= j < i ==> (#[trigger] self.entries@[j]).0.key_view() != key.key_view(),
            decreases self.entries@.len() - i,
        {
            if self.entries[i].0.key_eq(key) {
                return Some(i);
            }
            i += 1;
        }
        None
    }

    /// Whether a key is present.
    pub fn contains_key(&self, key: &K) -> (r: bool)
        ensures
            r == self.map().dom().contains(key.key_view()),
    {
        self.lemma_wf();
        self.position(key).is_some()
    }

    /// Value stored under a key.
    pub fn get(&self, key: &K) -> (r: Option<&T>)
        ensures
            match r {
                Some(v) => self.map().dom().contains(key.key_view()) && *v == self.map()[key.key_view()],
                None => !self.map().dom().contains(key.key_view()),
            },
    {
        self.lemma_wf();
        match self.position(key) {
            Some(i) => Some(&self.entries[i].1),
            None => None,
        }
    }

    /// Stores a value under a key and gives back the value that was there before.
    pub fn insert(&mut self, key: K, value: T) -> (previous: Option<T>)
        ensures
            final(self).map() == old(self).map().insert(key.key_view(), value),
            final(self).key_order() == if old(self).map().dom().contains(key.key_view()) {
                old(self).key_order()
            } else {
                old(self).key_order().push(key.key_view())
            },
            match previous {
                Some(v) => old(self).map().dom().contains(key.key_view()) && v == old(self).map()[key.key_view()],
                None => !old(self).map().dom().contains(key.key_view()),
            },
    {
        self.lemma_wf();
        let ghost old_map = self.map();
        let ghost kv = key.key_view();
        let mut entries = Vec::new();
        std::mem::swap(&mut entries, &mut self.entries);
        let ghost s = entries@;
        let pos = self.position_in(&entries, &key);
        match pos {
            Some(i) => {
                let (_k, v) = entries.remove(i);
                entries.insert(i, (key, value));
                proof {
                    assert(entries@ =~= s.update(i as int, (entries@[i as int].0, value)));
                    assert(keys_distinct(entries@)) by {
                        assert forall|a: int, b: int|
                            0 <= a < entries@.len() && 0 <= b < entries@.len() && a != b implies (
                            #[trigger] entries@[a]).0.key_view() != (#[trigger] entries@[b]).0.key_view() by {
                            assert(s[a].0.key_view() != s[b].0.key_view());
                        }
                    }
                    lemma_entries_map(entries@);
                    assert(entries_map(entries@) =~= old_map.insert(kv, value)) by {
                        assert forall|k: K::KeyView| #[trigger] entries_map(entries@).dom().contains(k)
                            <==> old_map.insert(kv, value).dom().contains(k) by {
                            if old_map.dom().contains(k) {
                                let j = choose|j: int| 0 <= j < s.len() && (#[trigger] s[j]).0.key_view() == k;
                                assert(entries@[j].0.key_view() == k);
                            }
                            if entries_map(entries@).dom().contains(k) {
                                let j = choose|j: int|
                                    0 <= j < entries@.len() && (#[trigger] entries@[j]).0.key_view() == k;
                                assert(s[j].0.key_view() == k);
                            }
                        }
                        assert forall|k: K::KeyView| #[trigger] entries_map(entries@).dom().contains(k)
                            implies entries_map(entries@)[k] == old_map.insert(kv, value)[k] by {
                            let j = choose|j: int| 0 <= j < entries@.len() && (#[trigger] entries@[j]).0.key_view() == k;
                            if j != i {
                                assert(s[j] == entries@[j]);
                                assert(old_map[s[j].0.key_view()] == s[j].1);
                            }
                        }
                    }
                }
                self.entries = entries;
                proof {
                    assert(self.key_order() =~= old(self).key_order());
                }
                Some(v)
            },
            None => {
                entries.push((key, value));
                proof {
                    assert(entries@.drop_last() =~= s);
                    assert(keys_distinct(entries@)) by {
                        assert forall|a: int, b: int|
                            0 <= a < entries@.len() && 0 <= b < entries@.len() && a != b implies (
                            #[trigger] entries@[a]).0.key_view() != (#[trigger] entries@[b]).0.key_view() by {
                            if a < s.len() && b < s.len() {
                                assert(entries@[a] == s[a] && entries@[b] == s[b]);
                            } else if a < s.len() {
                                assert(entries@[a] == s[a]);
                            } else {
                                assert(entries@[b] == s[b]);
                            }
                        }
                    }
                }
                self.entries = entries;
                proof {
                    assert(self.key_order() =~= old(self).key_order().push(kv));
                }
                None
            },
        }
    }

    /// Position of a key in a list of entries that is being rebuilt.
    fn position_in(&self, entries: &Vec<(K, T)>, key: &K) -> (r: Option<usize>)
        ensures
            match r {
                Some(i) => i < entries@.len() && entries@[i as int].0.key_view() == key.key_view(),
                None => forall|j: int|
                    0 <= j < entries@.len() ==> (#[trigger] entries@[j]).0.key_view() != key.key_view(),
            },
    {
        let mut i: usize = 0;
        while i < entries.len()
            invariant
                i <= entries@.len(),
                forall|j: int| 0 <= j < i ==> (#[trigger] entries@[j]).0.key_view() != key.key_view(),
            decreases entries@.len() - i,
        {
            if entries[i].0.key_eq(key) {
                return Some(i);
            }
            i += 1;
        }
        None
    }

    /// Removes the entry with the given key and gives back its value.
    pub fn remove(&mut self, key: &K) -> (removed: Option<T>)
        ensures
            final(self).map() == old(self).map().remove(key.key_view()),
            match removed {
                Some(v) => old(self).map().dom().contains(key.key_view()) && v == old(self).map()[key.key_view()],
                None => !old(self).map().dom().contains(key.key_view()),
            },
    {
        self.lemma_wf();
        let ghost old_map = self.map();
        let ghost kv = key.key_view();
        let mut entries = Vec::new();
        std::mem::swap(&mut entries, &mut self.entries);
        let ghost s = entries@;
        match self.position_in(&entries, key) {
            Some(i) => {
                let (_k, v) = entries.remove(i);
                proof {
                    assert(entries@ =~= s.remove(i as int));
                    assert forall|j: int| 0 <= j < entries@.len() implies #[trigger] entries@[j] == (
                    if j < i { s[j] } else { s[j + 1] }) by {}
                    assert(keys_distinct(entries@)) by {
                        assert forall|a: int, b: int|
                            0 <= a < entries@.len() && 0 <= b < entries@.len() && a != b implies (
                            #[trigger] entries@[a]).0.key_view() != (#[trigger] entries@[b]).0.key_view() by {
                            let a2 = if a < i { a } else { a + 1 };
                            let b2 = if b < i { b } else { b + 1 };
                            assert(entries@[a] == s[a2] && entries@[b] == s[b2]);
                        }
                    }
                    lemma_entries_map(entries@);
                    assert(entries_map(entries@) =~= old_map.remove(kv)) by {
                        assert forall|k: K::KeyView| #[trigger] entries_map(entries@).dom().contains(k)
                            <==> old_map.remove(kv).dom().contains(k) by {
                            if old_map.remove(kv).dom().contains(k) {
                                let j = choose|j: int| 0 <= j < s.len() && (#[trigger] s[j]).0.key_view() == k;
                                assert(j != i);
                                let j2 = if j < i { j } else { j - 1 };
                                assert(entries@[j2] == s[j]);
                            }
                            if entries_map(entries@).dom().contains(k) {
                                let j = choose|j: int|
                                    0 <= j < entries@.len() && (#[trigger] entries@[j]).0.key_view() == k;
                                let j2 = if j < i { j } else { j + 1 };
                                assert(entries@[j] == s[j2]);
                                assert(j2 != i);
                            }
                        }
                        assert forall|k: K::KeyView| #[trigger] entries_map(entries@).dom().contains(k)
                            implies entries_map(entries@)[k] == old_map.remove(kv)[k] by {
                            let j = choose|j: int| 0 <= j < entries@.len() && (#[trigger] entries@[j]).0.key_view() == k;
                            let j2 = if j < i { j } else { j + 1 };
                            assert(entries@[j] == s[j2]);
                            assert(old_map[s[j2].0.key_view()] == s[j2].1);
                        }
                    }
                }
                self.entries = entries;
                Some(v)
            },
            None => {
                proof {
                    assert(!old_map.dom().contains(kv));
                    assert(old_map.remove(kv) =~= old_map);
                }
                self.entries = entries;
                None
            },
        }
    }

    /// Removes every entry.
    pub fn clear(&mut self)
        ensures
            final(self).map() == Map::<K::KeyView, T>::empty(),
            final(self).entries().len() == 0,
    {
        self.entries = Vec::new();
    }

    /// The keys in the order the entries are kept.
    pub fn keys(&self) -> (r: Vec<K>)
        ensures
            r@.len() == self.entries().len(),
            forall|i: int| 0 <= i < r@.len() ==> #[trigger] r@[i] == self.entries()[i].0,
    {
        let mut r: Vec<K> = Vec::new();
        let mut i: usize = 0;
        while i < self.entries.len()
            invariant
                i <= self.entries@.len(),
                r@.len() == i,
                forall|j: int| 0 <= j < i ==> #[trigger] r@[j] == self.entries@[j].0,
            decreases self.entries@.len() - i,
        {
            r.push(self.entries[i].0.key_copy());
            i += 1;
        }
        r
    }
}

} // verus!
