//! Finite maps, kept as lists of entries with distinct keys.

use vstd::prelude::*;

use crate::ids::{RequestId, ThreadId};

verus! {

/// A type whose values can be told apart, which is what a map asks of its keys.
pub trait Key: View + Sized {
    /// Whether two keys are the same.
    fn same(&self, other: &Self) -> (same: bool)
        ensures
            same == (self@ == other@),
    ;
}

impl Key for String {
    fn same(&self, other: &Self) -> (same: bool) {
        *self == *other
    }
}

impl Key for ThreadId {
    fn same(&self, other: &Self) -> (same: bool) {
        *self == *other
    }
}

impl Key for u64 {
    fn same(&self, other: &Self) -> (same: bool) {
        *self == *other
    }
}

impl Key for RequestId {
    fn same(&self, other: &Self) -> (same: bool) {
        match (self, other) {
            (RequestId::String(a), RequestId::String(b)) => *a == *b,
            (RequestId::Integer(a), RequestId::Integer(b)) => *a == *b,
            _ => false,
        }
    }
}

/// A finite map. Its entries keep the order in which they came.
pub struct KeyMap<K, V> {
    entries: Vec<(K, V)>,
}

/// A finite map keyed by text.
pub type TextMap<V> = KeyMap<String, V>;

/// A finite map keyed by thread.
pub type ThreadMap<V> = KeyMap<ThreadId, V>;

/// The position of the entry with a key.
spec fn index_of<K: Key, V>(entries: Seq<(K, V)>, key: K::V) -> int {
    choose|i: int| 0 <= i < entries.len() && #[trigger] entries[i].0@ == key
}

impl<K: Key, V: View> View for KeyMap<K, V> {
    type V = Map<K::V, V::V>;

    closed spec fn view(&self) -> Map<K::V, V::V> {
        Map::new(
            |key: K::V|
                exists|i: int|
                    0 <= i < self.entries@.len() && #[trigger] self.entries@[i].0@ == key,
            |key: K::V| self.entries@[index_of(self.entries@, key)].1@,
        )
    }
}

impl<K: Key, V: View> KeyMap<K, V> {
    /// No key occurs twice.
    pub closed spec fn wf(self) -> bool {
        forall|i: int, j: int|
            0 <= i < self.entries@.len() && 0 <= j < self.entries@.len()
                && #[trigger] self.entries@[i].0@ == #[trigger] self.entries@[j].0@ ==> i == j
    }

    /// The keys in the order in which they came.
    pub closed spec fn order(self) -> Seq<K::V> {
        self.entries@.map_values(|entry: (K, V)| entry.0@)
    }

    proof fn lemma_at(self, i: int)
        requires
            self.wf(),
            0 <= i < self.entries@.len(),
        ensures
            self@.contains_key(self.entries@[i].0@),
            self@[self.entries@[i].0@] == self.entries@[i].1@,
    {
        let key = self.entries@[i].0@;
        assert(self.entries@[index_of(self.entries@, key)].0@ == key);
    }

    /// The order of the keys lists exactly the keys of the map, each once.
    pub proof fn lemma_order(self)
        requires
            self.wf(),
        ensures
            self.order().no_duplicates(),
            self.order().to_set() == self@.dom(),
            self@.dom().finite(),
            self@.dom().len() == self.order().len(),
    {
        assert forall|key: K::V| self.order().to_set().contains(key) == self@.dom().contains(key) by {
            if self@.dom().contains(key) {
                let i = index_of(self.entries@, key);
                assert(self.order()[i] == key);
            }
            if self.order().contains(key) {
                let i = choose|i: int| 0 <= i < self.order().len() && self.order()[i] == key;
                assert(self.entries@[i].0@ == key);
            }
        }
        assert(self.order().to_set() =~= self@.dom());
        self.order().unique_seq_to_set();
    }

    /// The empty map.
    pub fn new() -> (map: Self)
        ensures
            map.wf(),
            map@ == Map::<K::V, V::V>::empty(),
            map.order().len() == 0,
    {
        let map = KeyMap { entries: Vec::new() };
        proof {
            assert(map@ =~= Map::<K::V, V::V>::empty());
        }
        map
    }

    fn position(&self, key: &K) -> (found: Option<usize>)
        requires
            self.wf(),
        ensures
            found is Some <==> self@.contains_key(key@),
            found matches Some(i) ==> i < self.entries@.len() && self.entries@[i as int].0@ == key@
                && self.entries@[i as int].1@ == self@[key@],
    {
        let mut i: usize = 0;
        while i < self.entries.len()
            invariant
                self.wf(),
                i <= self.entries@.len(),
                forall|j: int| 0 <= j < i ==> #[trigger] self.entries@[j].0@ != key@,
            decreases self.entries@.len() - i,
        {
            if self.entries[i].0.same(key) {
                proof {
                    self.lemma_at(i as int);
                }
                return Some(i);
            }
            i = i + 1;
        }
        None
    }

    /// The value of a key.
    pub fn get(&self, key: &K) -> (value: Option<&V>)
        requires
            self.wf(),
        ensures
            value is Some <==> self@.contains_key(key@),
            value matches Some(v) ==> v@ == self@[key@],
    {
        match self.position(key) {
            Some(i) => Some(&self.entries[i].1),
            None => None,
        }
    }

    /// Whether a key has a value.
    pub fn contains_key(&self, key: &K) -> (found: bool)
        requires
            self.wf(),
        ensures
            found == self@.contains_key(key@),
    {
        self.position(key).is_some()
    }

    fn remove_at(&mut self, i: usize) -> (entry: (K, V))
        requires
            old(self).wf(),
            i < old(self).entries@.len(),
        ensures
            final(self).wf(),
            final(self).entries@ == old(self).entries@.remove(i as int),
            entry == old(self).entries@[i as int],
            final(self)@ == old(self)@.remove(entry.0@),
            old(self)@.contains_key(entry.0@),
            old(self)@[entry.0@] == entry.1@,
    {
        let ghost before = *self;
        let entry = self.entries.remove(i);
        proof {
            let key = entry.0@;
            before.lemma_at(i as int);
            assert forall|j: int| 0 <= j < self.entries@.len() implies #[trigger] self.entries@[j]
                == before.entries@[if j < i {
                j
            } else {
                j + 1
            }] by {}
            assert(self.wf());
            assert forall|k: K::V| #[trigger] self@.contains_key(k) implies before@.contains_key(k)
                && k != key && self@[k] == before@[k] by {
                let j = index_of(self.entries@, k);
                let m = if j < i {
                    j
                } else {
                    j + 1
                };
                before.lemma_at(m);
                self.lemma_at(j);
            }
            assert forall|k: K::V| #[trigger]
                before@.contains_key(k) && k != key implies self@.contains_key(k) by {
                let m = index_of(before.entries@, k);
                let j = if m < i {
                    m
                } else {
                    m - 1
                };
                assert(self.entries@[j].0@ == k);
            }
            assert(self@ =~= before@.remove(key));
        }
        entry
    }

    /// Takes a key out, with its value.
    pub fn remove(&mut self, key: &K) -> (value: Option<V>)
        requires
            old(self).wf(),
        ensures
            final(self).wf(),
            final(self)@ == old(self)@.remove(key@),
            value is Some <==> old(self)@.contains_key(key@),
            value matches Some(v) ==> v@ == old(self)@[key@],
    {
        match self.position(key) {
            Some(i) => Some(self.remove_at(i).1),
            None => {
                proof {
                    assert(self@ =~= self@.remove(key@));
                }
                None
            },
        }
    }

    /// Gives a key a value, and hands back the value it had.
    pub fn insert(&mut self, key: K, value: V) -> (replaced: Option<V>)
        requires
            old(self).wf(),
        ensures
            final(self).wf(),
            final(self)@ == old(self)@.insert(key@, value@),
            replaced is Some <==> old(self)@.contains_key(key@),
            replaced matches Some(v) ==> v@ == old(self)@[key@],
    {
        let ghost before = *self;
        let replaced = self.remove(&key);
        let ghost middle = *self;
        self.entries.push((key, value));
        proof {
            assert(self.entries@ == middle.entries@.push((key, value)));
            assert forall|j: int|
                0 <= j < middle.entries@.len() implies middle.entries@[j].0@ != key@ by {
                middle.lemma_at(j);
            }
            assert(self.wf());
            self.lemma_at(middle.entries@.len() as int);
            assert forall|k: K::V| #[trigger]
                self@.contains_key(k) && k != key@ implies before@.contains_key(k) && self@[k]
                == before@[k] by {
                let j = index_of(self.entries@, k);
                middle.lemma_at(j);
                self.lemma_at(j);
            }
            assert forall|k: K::V| #[trigger]
                before@.contains_key(k) && k != key@ implies self@.contains_key(k) by {
                assert(middle@.contains_key(k));
                let j = index_of(middle.entries@, k);
                assert(self.entries@[j].0@ == k);
            }
            assert(self@ =~= before@.insert(key@, value@));
        }
        replaced
    }

    /// How many keys the map has.
    pub fn len(&self) -> (n: usize)
        requires
            self.wf(),
        ensures
            n == self.order().len(),
            n == self@.dom().len(),
            self@.dom().finite(),
    {
        proof {
            self.lemma_order();
        }
        self.entries.len()
    }

    /// Whether the map has no key.
    pub fn is_empty(&self) -> (empty: bool)
        requires
            self.wf(),
        ensures
            empty == (self@ == Map::<K::V, V::V>::empty()),
    {
        if self.entries.len() == 0 {
            proof {
                assert(self@ =~= Map::<K::V, V::V>::empty());
            }
            true
        } else {
            proof {
                self.lemma_at(0);
                assert(!Map::<K::V, V::V>::empty().contains_key(self.entries@[0].0@));
            }
            false
        }
    }

    /// The entry at a position of the order.
    pub fn nth(&self, i: usize) -> (entry: (&K, &V))
        requires
            self.wf(),
            i < self.order().len(),
        ensures
            entry.0@ == self.order()[i as int],
            self@.contains_key(entry.0@),
            entry.1@ == self@[entry.0@],
    {
        proof {
            self.lemma_at(i as int);
        }
        (&self.entries[i].0, &self.entries[i].1)
    }

    /// Gives the key at a position of the order another value.
    pub fn set_nth(&mut self, i: usize, value: V)
        requires
            old(self).wf(),
            i < old(self).order().len(),
        ensures
            final(self).wf(),
            final(self).order() == old(self).order(),
            final(self)@ == old(self)@.insert(old(self).order()[i as int], value@),
    {
        let ghost before = *self;
        let ghost key = self.entries@[i as int].0@;
        let (name, _) = self.entries.remove(i);
        self.entries.insert(i, (name, value));
        proof {
            assert(self.entries@ =~= before.entries@.update(i as int, (name, value)));
            assert forall|j: int| 0 <= j < self.entries@.len() implies #[trigger] self.entries@[j].0@
                == before.entries@[j].0@ by {}
            assert(self.wf());
            assert(self.order() =~= before.order());
            self.lemma_at(i as int);
            assert forall|k: K::V| #[trigger] self@.contains_key(k) implies before@.contains_key(k)
                && (k != key ==> self@[k] == before@[k]) by {
                let j = index_of(self.entries@, k);
                before.lemma_at(j);
                self.lemma_at(j);
            }
            assert forall|k: K::V| #[trigger] before@.contains_key(k) implies self@.contains_key(k) by {
                let j = index_of(before.entries@, k);
                assert(self.entries@[j].0@ == k);
            }
            assert(self@ =~= before@.insert(key, value@));
        }
    }
}

/// Something that belongs to a thread.
pub trait Owned: View + Sized {
    /// The thread of what is seen.
    spec fn owner_of(seen: Self::V) -> ThreadId;

    /// The thread.
    fn owner(&self) -> (thread: ThreadId)
        ensures
            thread == Self::owner_of(self@),
    ;
}

impl Owned for ThreadId {
    open spec fn owner_of(seen: ThreadId) -> ThreadId {
        seen
    }

    fn owner(&self) -> (thread: ThreadId) {
        *self
    }
}

impl Owned for (ThreadId, String) {
    open spec fn owner_of(seen: (ThreadId, Seq<char>)) -> ThreadId {
        seen.0
    }

    fn owner(&self) -> (thread: ThreadId) {
        self.0
    }
}

/// What is left of a map without what belongs to a thread.
pub open spec fn without_thread<K, V: Owned>(map: Map<K, V::V>, thread: ThreadId) -> Map<K, V::V> {
    map.restrict(Set::new(|key: K| map.contains_key(key) && V::owner_of(map[key]) != thread))
}

impl<K: Key, V: Owned> KeyMap<K, V> {
    /// Takes out all that belongs to a thread.
    pub fn remove_thread(&mut self, thread: ThreadId)
        requires
            old(self).wf(),
        ensures
            final(self).wf(),
            final(self)@ == without_thread::<K::V, V>(old(self)@, thread),
    {
        let ghost before = self@;
        let mut i: usize = 0;
        while i < self.entries.len()
            invariant
                self.wf(),
                i <= self.entries@.len(),
                forall|j: int|
                    0 <= j < i ==> V::owner_of(#[trigger] self.entries@[j].1@) != thread,
                forall|k: K::V| #[trigger]
                    self@.contains_key(k) ==> before.contains_key(k) && self@[k] == before[k],
                forall|k: K::V| #[trigger]
                    before.contains_key(k) && V::owner_of(before[k]) != thread
                        ==> self@.contains_key(k),
            decreases self.entries@.len() - i,
        {
            if self.entries[i].1.owner() == thread {
                self.remove_at(i);
            } else {
                i = i + 1;
            }
        }
        proof {
            let left = without_thread::<K::V, V>(before, thread);
            assert forall|k: K::V| #[trigger] self@.contains_key(k) implies left.contains_key(k)
                && left[k] == self@[k] by {
                let j = index_of(self.entries@, k);
                self.lemma_at(j);
            }
            assert(self@ =~= left);
        }
    }
}

impl<V: Owned> KeyMap<String, V> {
    /// The keys of all that belongs to a thread.
    pub fn keys_of_thread(&self, thread: ThreadId) -> (keys: Vec<String>)
        requires
            self.wf(),
        ensures
            crate::text::views(keys@).no_duplicates(),
            crate::text::views(keys@).to_set() == keys_of_owner::<V>(self@, thread),
    {
        let mut keys: Vec<String> = Vec::new();
        let mut i: usize = 0;
        while i < self.entries.len()
            invariant
                self.wf(),
                i <= self.entries@.len(),
                crate::text::views(keys@).no_duplicates(),
                forall|k: Seq<char>| #[trigger]
                    crate::text::views(keys@).contains(k) <==> exists|j: int|
                        0 <= j < i && #[trigger] self.entries@[j].0@ == k && V::owner_of(
                            self.entries@[j].1@,
                        ) == thread,
            decreases self.entries@.len() - i,
        {
            let ghost before = crate::text::views(keys@);
            if self.entries[i].1.owner() == thread {
                let key = self.entries[i].0.clone();
                keys.push(key);
                proof {
                    let now = crate::text::views(keys@);
                    assert(now =~= before.push(key@));
                    assert(!before.contains(key@));
                    assert forall|k: Seq<char>| #[trigger] now.contains(k) <==> (before.contains(k)
                        || k == key@) by {
                        if before.contains(k) {
                            let m = choose|m: int| 0 <= m < before.len() && before[m] == k;
                            assert(now[m] == k);
                        }
                        if k == key@ {
                            assert(now[before.len() as int] == k);
                        }
                    }
                    assert(self.entries@[i as int].0@ == key@);
                }
            }
            i = i + 1;
        }
        proof {
            let want = keys_of_owner::<V>(self@, thread);
            assert forall|k: Seq<char>|
                crate::text::views(keys@).to_set().contains(k) == want.contains(k) by {
                if want.contains(k) {
                    let j = index_of(self.entries@, k);
                    self.lemma_at(j);
                    assert(crate::text::views(keys@).contains(k));
                }
                if crate::text::views(keys@).contains(k) {
                    let j = choose|j: int|
                        0 <= j < self.entries@.len() && #[trigger] self.entries@[j].0@ == k
                            && V::owner_of(self.entries@[j].1@) == thread;
                    self.lemma_at(j);
                }
            }
            assert(crate::text::views(keys@).to_set() =~= want);
        }
        keys
    }
}

/// The keys of all of a map that belongs to a thread.
pub open spec fn keys_of_owner<V: Owned>(
    map: Map<Seq<char>, V::V>,
    thread: ThreadId,
) -> Set<Seq<char>> {
    Set::new(|key: Seq<char>| map.contains_key(key) && V::owner_of(map[key]) == thread)
}

} // verus!
