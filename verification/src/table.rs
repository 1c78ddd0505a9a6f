//! A small keyed table that keeps its entries in the order in which their keys
//! first came.

use vstd::prelude::*;

verus! {

/// A key of a [`Table`]: a value with an identity that two keys can be
/// compared by.
pub trait TableKey: Sized {
    /// What the key is, as a value.
    type Id;

    spec fn id(&self) -> Self::Id;

    /// Whether two keys have the same identity.
    fn same_key(&self, other: &Self) -> (r: bool)
        ensures
            r == (self.id() == other.id()),
    ;
}

impl TableKey for String {
    type Id = Seq<char>;

    open spec fn id(&self) -> Seq<char> {
        self@
    }

    fn same_key(&self, other: &Self) -> (r: bool) {
        *self == *other
    }
}

/// Whether no two entries of a sequence have the same key.
pub open spec fn distinct_keys<K: TableKey, V>(entries: Seq<(K, V)>) -> bool {
    forall|i: int, j: int|
        0 <= i < j < entries.len() ==> (#[trigger] entries[i]).0.id() != (#[trigger] entries[j]).0.id()
}

/// Whether some entry of a sequence has the key `id`.
pub open spec fn has_key<K: TableKey, V>(entries: Seq<(K, V)>, id: K::Id) -> bool {
    exists|i: int| 0 <= i < entries.len() && (#[trigger] entries[i]).0.id() == id
}

/// The place of an entry with the key `id`; the only one where the keys are
/// distinct.
pub open spec fn position<K: TableKey, V>(entries: Seq<(K, V)>, id: K::Id) -> int {
    choose|i: int| 0 <= i < entries.len() && (#[trigger] entries[i]).0.id() == id
}

/// The mapping from key to value that a sequence of entries stands for.
pub open spec fn entries_map<K: TableKey, V>(entries: Seq<(K, V)>) -> Map<K::Id, V> {
    Map::new(|id: K::Id| has_key(entries, id), |id: K::Id| entries[position(entries, id)].1)
}

/// The entries after a value was stored under a key: where the key is present
/// the new entry takes the old one's place, else it goes to the end.
pub open spec fn entries_insert<K: TableKey, V>(entries: Seq<(K, V)>, key: K, value: V) -> Seq<
    (K, V),
> {
    if has_key(entries, key.id()) {
        entries.update(position(entries, key.id()), (key, value))
    } else {
        entries.push((key, value))
    }
}

/// The entries after the entry under a key was taken away.
pub open spec fn entries_remove<K: TableKey, V>(entries: Seq<(K, V)>, id: K::Id) -> Seq<(K, V)> {
    if has_key(entries, id) {
        entries.remove(position(entries, id))
    } else {
        entries
    }
}

/// In a sequence with distinct keys, the entry at a place is the one its key
/// maps to.
pub proof fn lemma_entry_at<K: TableKey, V>(entries: Seq<(K, V)>, i: int)
    requires
        distinct_keys(entries),
        0 <= i < entries.len(),
    ensures
        has_key(entries, entries[i].0.id()),
        position(entries, entries[i].0.id()) == i,
        entries_map(entries).contains_key(entries[i].0.id()),
        entries_map(entries)[entries[i].0.id()] == entries[i].1,
{
    let id = entries[i].0.id();
    let p = position(entries, id);
    assert(0 <= p < entries.len() && entries[p].0.id() == id);
    if p < i {
        assert(entries[p].0.id() != entries[i].0.id());
    } else if i < p {
        assert(entries[i].0.id() != entries[p].0.id());
    }
}

/// Appending an entry under a new key adds that key to the mapping.
pub proof fn lemma_push_new<K: TableKey, V>(entries: Seq<(K, V)>, key: K, value: V)
    requires
        distinct_keys(entries),
        !has_key(entries, key.id()),
    ensures
        distinct_keys(entries.push((key, value))),
        entries_map(entries.push((key, value))) == entries_map(entries).insert(key.id(), value),
{
    let after = entries.push((key, value));
    assert forall|i: int, j: int| 0 <= i < j < after.len() implies (#[trigger] after[i]).0.id() != (
    #[trigger] after[j]).0.id() by {
        if j < entries.len() {
            assert(entries[i].0.id() != entries[j].0.id());
        } else {
            assert(after[i] == entries[i]);
            if entries[i].0.id() == key.id() {
                assert(has_key(entries, key.id()));
            }
        }
    }
    assert forall|id: K::Id| has_key(after, id) <==> (id == key.id() || has_key(entries, id)) by {
        if has_key(after, id) {
            let p = position(after, id);
            if p < entries.len() {
                assert(entries[p] == after[p]);
            }
        }
        if has_key(entries, id) {
            let p = position(entries, id);
            assert(after[p] == entries[p]);
        }
        if id == key.id() {
            assert(after[entries.len() as int].0.id() == id);
        }
    }
    assert forall|id: K::Id| has_key(after, id) implies #[trigger] entries_map(after)[id]
        == entries_map(entries).insert(key.id(), value)[id] by {
        if id == key.id() {
            lemma_entry_at(after, entries.len() as int);
        } else {
            let p = position(entries, id);
            assert(after[p] == entries[p]);
            lemma_entry_at(after, p);
        }
    }
    assert(entries_map(after) =~= entries_map(entries).insert(key.id(), value));
}

/// Replacing the entry at a place by one with the same key replaces the value
/// that the key maps to.
pub proof fn lemma_replace<K: TableKey, V>(entries: Seq<(K, V)>, i: int, key: K, value: V)
    requires
        distinct_keys(entries),
        0 <= i < entries.len(),
        entries[i].0.id() == key.id(),
    ensures
        distinct_keys(entries.update(i, (key, value))),
        entries_map(entries.update(i, (key, value))) == entries_map(entries).insert(
            key.id(),
            value,
        ),
{
    let after = entries.update(i, (key, value));
    assert forall|a: int, b: int| 0 <= a < b < after.len() implies (#[trigger] after[a]).0.id() != (
    #[trigger] after[b]).0.id() by {
        assert(entries[a].0.id() != entries[b].0.id());
    }
    assert forall|id: K::Id| has_key(after, id) <==> (id == key.id() || has_key(entries, id)) by {
        if has_key(after, id) {
            let p = position(after, id);
            assert(entries[p].0.id() == id);
        }
        if has_key(entries, id) {
            let p = position(entries, id);
            assert(after[p].0.id() == id);
        }
        if id == key.id() {
            assert(after[i].0.id() == id);
        }
    }
    assert forall|id: K::Id| has_key(after, id) implies #[trigger] entries_map(after)[id]
        == entries_map(entries).insert(key.id(), value)[id] by {
        if id == key.id() {
            lemma_entry_at(after, i);
        } else {
            let p = position(entries, id);
            lemma_entry_at(entries, p);
            assert(after[p] == entries[p]);
            lemma_entry_at(after, p);
        }
    }
    assert(entries_map(after) =~= entries_map(entries).insert(key.id(), value));
}

/// Taking the entry at a place away takes its key out of the mapping.
pub proof fn lemma_remove<K: TableKey, V>(entries: Seq<(K, V)>, i: int)
    requires
        distinct_keys(entries),
        0 <= i < entries.len(),
    ensures
        distinct_keys(entries.remove(i)),
        entries_map(entries.remove(i)) == entries_map(entries).remove(entries[i].0.id()),
{
    let after = entries.remove(i);
    let gone = entries[i].0.id();
    assert forall|a: int, b: int| 0 <= a < b < after.len() implies (#[trigger] after[a]).0.id() != (
    #[trigger] after[b]).0.id() by {
        let first = if a < i { a } else { a + 1 };
        let second = if b < i { b } else { b + 1 };
        assert(after[a] == entries[first]);
        assert(after[b] == entries[second]);
        assert(entries[first].0.id() != entries[second].0.id());
    }
    assert forall|id: K::Id| has_key(after, id) <==> (id != gone && has_key(entries, id)) by {
        if has_key(after, id) {
            let p = position(after, id);
            let shifted = if p < i { p } else { p + 1 };
            assert(after[p] == entries[shifted]);
            assert(entries[shifted].0.id() == id);
            if shifted < i {
                assert(entries[shifted].0.id() != entries[i].0.id());
            } else {
                assert(entries[i].0.id() != entries[shifted].0.id());
            }
        }
        if id != gone && has_key(entries, id) {
            let p = position(entries, id);
            let q = if p < i { p } else { p - 1 };
            assert(after[q] == entries[p]);
        }
    }
    assert forall|id: K::Id| has_key(after, id) implies #[trigger] entries_map(after)[id]
        == entries_map(entries).remove(gone)[id] by {
        let p = position(after, id);
        let shifted = if p < i { p } else { p + 1 };
        assert(after[p] == entries[shifted]);
        lemma_entry_at(after, p);
        lemma_entry_at(entries, shifted);
    }
    assert(entries_map(after) =~= entries_map(entries).remove(gone));
}

/// The mapping after the first `n` entries of a sequence were stored into it,
/// one after the other.
pub open spec fn stored_into<K: TableKey, V>(
    map: Map<K::Id, V>,
    entries: Seq<(K, V)>,
    n: int,
) -> Map<K::Id, V>
    decreases n,
{
    if n <= 0 {
        map
    } else {
        stored_into(map, entries, n - 1).insert(entries[n - 1].0.id(), entries[n - 1].1)
    }
}

/// Storing the first `n` entries of a sequence with distinct keys into a
/// mapping gives the mapping overlaid with what those entries stand for.
pub proof fn lemma_stored_into<K: TableKey, V>(map: Map<K::Id, V>, entries: Seq<(K, V)>, n: int)
    requires
        distinct_keys(entries),
        0 <= n <= entries.len(),
    ensures
        stored_into(map, entries, n) == map.union_prefer_right(entries_map(entries.take(n))),
    decreases n,
{
    if n == 0 {
        assert(entries_map(entries.take(0)) =~= Map::<K::Id, V>::empty());
        assert(map.union_prefer_right(Map::<K::Id, V>::empty()) =~= map);
    } else {
        let shorter = entries.take(n - 1);
        let last = entries[n - 1];
        lemma_stored_into(map, entries, n - 1);
        assert(!has_key(shorter, last.0.id())) by {
            if has_key(shorter, last.0.id()) {
                let p = position(shorter, last.0.id());
                assert(entries[p].0.id() != entries[n - 1].0.id());
            }
        }
        lemma_push_new(shorter, last.0, last.1);
        assert(shorter.push(last) =~= entries.take(n));
        assert(map.union_prefer_right(entries_map(shorter)).insert(last.0.id(), last.1)
            =~= map.union_prefer_right(entries_map(shorter).insert(last.0.id(), last.1)));
    }
}

/// A table from keys to values. No two entries have the same key; a new key
/// goes to the end, and a value stored under a key that is present takes the
/// old entry's place.
pub struct Table<K: TableKey, V> {
    entries: Vec<(K, V)>,
}

impl<K: TableKey, V> View for Table<K, V> {
    type V = Map<K::Id, V>;

    /// The table as a mapping from key to value.
    open spec fn view(&self) -> Map<K::Id, V> {
        entries_map(self.entries())
    }
}

impl<K: TableKey, V> Table<K, V> {
    #[verifier::type_invariant]
    spec fn keys_are_distinct(&self) -> bool {
        distinct_keys(self.entries@)
    }

    /// The entries, in the order in which their keys first came.
    pub closed spec fn entries(&self) -> Seq<(K, V)> {
        self.entries@
    }

    /// Whether the table is what its operations keep it to be: no key twice.
    pub open spec fn wf(&self) -> bool {
        distinct_keys(self.entries())
    }

    pub fn new() -> (r: Self)
        ensures
            r.entries() == Seq::<(K, V)>::empty(),
            r@ == Map::<K::Id, V>::empty(),
            r.wf(),
    {
        let r = Table { entries: Vec::new() };
        assert(r@ =~= Map::<K::Id, V>::empty());
        r
    }

    pub fn len(&self) -> (r: usize)
        ensures
            r == self.entries().len(),
            self.wf(),
    {
        proof {
            use_type_invariant(self);
        }
        self.entries.len()
    }

    pub fn is_empty(&self) -> (r: bool)
        ensures
            r == (self.entries().len() == 0),
            r == (self@ == Map::<K::Id, V>::empty()),
            self.wf(),
    {
        proof {
            use_type_invariant(self);
            if self.entries@.len() > 0 {
                lemma_entry_at(self.entries@, 0);
            } else {
                assert(self@ =~= Map::<K::Id, V>::empty());
            }
        }
        self.entries.len() == 0
    }

    /// The place of the entry with the given key.
    pub fn find(&self, key: &K) -> (r: Option<usize>)
        ensures
            self.wf(),
            r is Some <==> self@.contains_key(key.id()),
            r matches Some(i) ==> i < self.entries().len() && self.entries()[i as int].0.id()
                == key.id() && self@[key.id()] == self.entries()[i as int].1 && position(
                self.entries(),
                key.id(),
            ) == i,
    {
        proof {
            use_type_invariant(self);
        }
        let mut i: usize = 0;
        while i < self.entries.len()
            invariant
                i <= self.entries@.len(),
                distinct_keys(self.entries@),
                forall|j: int| 0 <= j < i ==> (#[trigger] self.entries@[j]).0.id() != key.id(),
            decreases self.entries@.len() - i,
        {
            if self.entries[i].0.same_key(key) {
                proof {
                    lemma_entry_at(self.entries@, i as int);
                }
                return Some(i);
            }
            i += 1;
        }
        None
    }

    pub fn contains_key(&self, key: &K) -> (r: bool)
        ensures
            r == self@.contains_key(key.id()),
            self.wf(),
    {
        self.find(key).is_some()
    }

    /// The value stored under a key.
    pub fn get(&self, key: &K) -> (r: Option<&V>)
        ensures
            self.wf(),
            r is Some <==> self@.contains_key(key.id()),
            r matches Some(v) ==> *v == self@[key.id()],
    {
        match self.find(key) {
            Some(i) => Some(&self.entries[i].1),
            None => None,
        }
    }

    /// The key of the entry at a place.
    pub fn key_at(&self, i: usize) -> (r: &K)
        requires
            i < self.entries().len(),
        ensures
            *r == self.entries()[i as int].0,
            self@.contains_key(r.id()),
            self.wf(),
    {
        proof {
            use_type_invariant(self);
            lemma_entry_at(self.entries@, i as int);
        }
        &self.entries[i].0
    }

    /// The value of the entry at a place.
    pub fn value_at(&self, i: usize) -> (r: &V)
        requires
            i < self.entries().len(),
        ensures
            *r == self.entries()[i as int].1,
            self@.contains_key(self.entries()[i as int].0.id()),
            self@[self.entries()[i as int].0.id()] == *r,
            self.wf(),
    {
        proof {
            use_type_invariant(self);
            lemma_entry_at(self.entries@, i as int);
        }
        &self.entries[i].1
    }

    /// Stores a value under a key. Where the key is present the entry keeps
    /// its place; a new key goes to the end.
    pub fn insert(&mut self, key: K, value: V)
        ensures
            final(self)@ == old(self)@.insert(key.id(), value),
            final(self).entries() == entries_insert(old(self).entries(), key, value),
            final(self).wf(),
    {
        proof {
            use_type_invariant(&*self);
        }
        match self.find(&key) {
            Some(i) => {
                proof {
                    lemma_replace(self.entries@, i as int, key, value);
                }
                let mut entries: Vec<(K, V)> = Vec::new();
                core::mem::swap(&mut self.entries, &mut entries);
                entries[i] = (key, value);
                core::mem::swap(&mut self.entries, &mut entries);
            },
            None => {
                proof {
                    lemma_push_new(self.entries@, key, value);
                }
                let mut entries: Vec<(K, V)> = Vec::new();
                core::mem::swap(&mut self.entries, &mut entries);
                entries.push((key, value));
                core::mem::swap(&mut self.entries, &mut entries);
            },
        }
    }

    /// Takes the entry under a key away; the others keep their order.
    pub fn remove(&mut self, key: &K)
        ensures
            final(self)@ == old(self)@.remove(key.id()),
            final(self).entries() == entries_remove(old(self).entries(), key.id()),
            final(self).wf(),
    {
        proof {
            use_type_invariant(&*self);
        }
        match self.find(key) {
            Some(i) => {
                proof {
                    lemma_remove(self.entries@, i as int);
                }
                let mut entries: Vec<(K, V)> = Vec::new();
                core::mem::swap(&mut self.entries, &mut entries);
                entries.remove(i);
                core::mem::swap(&mut self.entries, &mut entries);
            },
            None => {
                assert(self@ =~= self@.remove(key.id()));
            },
        }
    }
}

} // verus!
