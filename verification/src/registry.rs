//! A keyed collection of live entries: the shape shared by the registry of
//! connections and the registry of shells.

use vstd::prelude::*;

use crate::token::{ShellToken, TokenView};

verus! {

/// A key under which a registry files its entries.
pub trait RegistryKey: Sized {
    /// The mathematical value a key stands for.
    type Id;

    /// The value this key stands for.
    spec fn id(&self) -> Self::Id;

    /// Whether two keys stand for the same value.
    fn same_key(&self, other: &Self) -> (same: bool)
        ensures
            same == (self.id() == other.id()),
    ;
}

impl RegistryKey for String {
    type Id = Seq<char>;

    open spec fn id(&self) -> Seq<char> {
        self@
    }

    fn same_key(&self, other: &String) -> (same: bool) {
        *self == *other
    }
}

impl RegistryKey for ShellToken {
    type Id = TokenView;

    open spec fn id(&self) -> TokenView {
        self@
    }

    fn same_key(&self, other: &ShellToken) -> (same: bool) {
        self.same(other)
    }
}

/// Entries filed under keys, at most one per key.
pub struct Registry<K: RegistryKey, V> {
    entries: Vec<(K, V)>,
}

/// Whether one of the entries is filed under `id`.
spec fn holds<K: RegistryKey, V>(entries: Seq<(K, V)>, id: K::Id) -> bool {
    exists|i: int| 0 <= i < entries.len() && (#[trigger] entries[i]).0.id() == id
}

/// The place of the entry filed under `id`.
spec fn place<K: RegistryKey, V>(entries: Seq<(K, V)>, id: K::Id) -> int {
    choose|i: int| 0 <= i < entries.len() && (#[trigger] entries[i]).0.id() == id
}

/// No two of the entries are filed under the same key.
spec fn unique<K: RegistryKey, V>(entries: Seq<(K, V)>) -> bool {
    forall|i: int, j: int|
        0 <= i < j < entries.len() ==> (#[trigger] entries[i]).0.id() != (#[trigger] entries[j]).0.id()
}

/// The entries as a map from what their keys stand for.
spec fn map_of<K: RegistryKey, V>(entries: Seq<(K, V)>) -> Map<K::Id, V> {
    Map::new(|id: K::Id| holds(entries, id), |id: K::Id| entries[place(entries, id)].1)
}

proof fn lemma_place<K: RegistryKey, V>(entries: Seq<(K, V)>, i: int)
    requires
        unique(entries),
        0 <= i < entries.len(),
    ensures
        holds(entries, entries[i].0.id()),
        place(entries, entries[i].0.id()) == i,
        map_of(entries).contains_key(entries[i].0.id()),
        map_of(entries)[entries[i].0.id()] == entries[i].1,
{
    let id = entries[i].0.id();
    assert(holds(entries, id));
    let p = place(entries, id);
    if p < i {
        assert(entries[p].0.id() != entries[i].0.id());
    }
    if i < p {
        assert(entries[i].0.id() != entries[p].0.id());
    }
}

proof fn lemma_update<K: RegistryKey, V>(entries: Seq<(K, V)>, i: int, value: V)
    requires
        unique(entries),
        0 <= i < entries.len(),
    ensures
        unique(entries.update(i, (entries[i].0, value))),
        map_of(entries.update(i, (entries[i].0, value))) == map_of(entries).insert(
            entries[i].0.id(),
            value,
        ),
{
    let changed = entries.update(i, (entries[i].0, value));
    assert forall|j: int| 0 <= j < entries.len() implies (#[trigger] changed[j]).0.id()
        == entries[j].0.id() by {}
    assert(unique(changed)) by {
        assert forall|a: int, b: int| 0 <= a < b < changed.len() implies (#[trigger] changed[a]).0.id()
            != (#[trigger] changed[b]).0.id() by {
            assert(entries[a].0.id() != entries[b].0.id());
        }
    }
    let expected = map_of(entries).insert(entries[i].0.id(), value);
    assert forall|id: K::Id| map_of(changed).contains_key(id) == expected.contains_key(id) by {
        if holds(changed, id) {
            let p = place(changed, id);
            assert(entries[p].0.id() == id);
        }
        if holds(entries, id) {
            let p = place(entries, id);
            assert(changed[p].0.id() == id);
        }
        lemma_place(entries, i);
    }
    assert forall|id: K::Id| map_of(changed).contains_key(id) implies map_of(changed)[id]
        == expected[id] by {
        let p = place(changed, id);
        lemma_place(changed, p);
        lemma_place(entries, p);
    }
    assert(map_of(changed) =~= expected);
}

proof fn lemma_push<K: RegistryKey, V>(entries: Seq<(K, V)>, key: K, value: V)
    requires
        unique(entries),
        !holds(entries, key.id()),
    ensures
        unique(entries.push((key, value))),
        map_of(entries.push((key, value))) == map_of(entries).insert(key.id(), value),
{
    let grown = entries.push((key, value));
    let end = entries.len() as int;
    assert forall|j: int| 0 <= j < entries.len() implies #[trigger] grown[j] == entries[j] by {}
    assert(unique(grown)) by {
        assert forall|a: int, b: int| 0 <= a < b < grown.len() implies (#[trigger] grown[a]).0.id()
            != (#[trigger] grown[b]).0.id() by {
            if b < end {
                assert(entries[a].0.id() != entries[b].0.id());
            } else {
                assert(entries[a].0.id() != key.id());
            }
        }
    }
    let expected = map_of(entries).insert(key.id(), value);
    assert(grown[end].0.id() == key.id());
    assert forall|id: K::Id| map_of(grown).contains_key(id) == expected.contains_key(id) by {
        if holds(grown, id) {
            let p = place(grown, id);
            if p < end {
                assert(entries[p].0.id() == id);
            }
        }
        if holds(entries, id) {
            let p = place(entries, id);
            assert(grown[p].0.id() == id);
        }
    }
    assert forall|id: K::Id| map_of(grown).contains_key(id) implies map_of(grown)[id]
        == expected[id] by {
        let p = place(grown, id);
        lemma_place(grown, p);
        if p < end {
            lemma_place(entries, p);
        }
    }
    assert(map_of(grown) =~= expected);
}

proof fn lemma_remove<K: RegistryKey, V>(entries: Seq<(K, V)>, i: int)
    requires
        unique(entries),
        0 <= i < entries.len(),
    ensures
        unique(entries.remove(i)),
        map_of(entries.remove(i)) == map_of(entries).remove(entries[i].0.id()),
{
    let rest = entries.remove(i);
    assert forall|j: int| 0 <= j < rest.len() implies #[trigger] rest[j] == entries[if j < i {
        j
    } else {
        j + 1
    }] by {}
    assert(unique(rest)) by {
        assert forall|a: int, b: int| 0 <= a < b < rest.len() implies (#[trigger] rest[a]).0.id() != (
        #[trigger] rest[b]).0.id() by {
            let a0 = if a < i {
                a
            } else {
                a + 1
            };
            let b0 = if b < i {
                b
            } else {
                b + 1
            };
            assert(entries[a0].0.id() != entries[b0].0.id());
        }
    }
    let expected = map_of(entries).remove(entries[i].0.id());
    lemma_place(entries, i);
    assert forall|id: K::Id| map_of(rest).contains_key(id) == expected.contains_key(id) by {
        if holds(rest, id) {
            let p = place(rest, id);
            let p0 = if p < i {
                p
            } else {
                p + 1
            };
            assert(entries[p0].0.id() == id);
            lemma_place(entries, p0);
        }
        if holds(entries, id) && id != entries[i].0.id() {
            let p = place(entries, id);
            let q = if p < i {
                p
            } else {
                p - 1
            };
            assert(rest[q].0.id() == id);
        }
    }
    assert forall|id: K::Id| map_of(rest).contains_key(id) implies map_of(rest)[id]
        == expected[id] by {
        let p = place(rest, id);
        lemma_place(rest, p);
        let p0 = if p < i {
            p
        } else {
            p + 1
        };
        lemma_place(entries, p0);
    }
    assert(map_of(rest) =~= expected);
}

impl<K: RegistryKey, V> View for Registry<K, V> {
    type V = Map<K::Id, V>;

    closed spec fn view(&self) -> Map<K::Id, V> {
        map_of(self.entries@)
    }
}

impl<K: RegistryKey, V> Registry<K, V> {
    /// No two entries are filed under the same key.
    pub closed spec fn wf(&self) -> bool {
        unique(self.entries@)
    }

    /// A registry without entries.
    pub fn new() -> (registry: Self)
        ensures
            registry.wf(),
            registry@ == Map::<K::Id, V>::empty(),
    {
        let registry = Registry { entries: Vec::new() };
        assert(registry@ =~= Map::<K::Id, V>::empty());
        registry
    }

    /// Where the entry under `key` stands, if there is one.
    fn find(&self, key: &K) -> (at: Option<usize>)
        requires
            self.wf(),
        ensures
            match at {
                Some(i) => i < self.entries@.len() && self.entries@[i as int].0.id() == key.id(),
                None => !holds(self.entries@, key.id()),
            },
    {
        let mut i: usize = 0;
        while i < self.entries.len()
            invariant
                i <= self.entries@.len(),
                forall|j: int| 0 <= j < i ==> (#[trigger] self.entries@[j]).0.id() != key.id(),
            decreases self.entries@.len() - i,
        {
            if self.entries[i].0.same_key(key) {
                return Some(i);
            }
            i = i + 1;
        }
        None
    }

    /// Whether an entry is filed under `key`.
    pub fn contains_key(&self, key: &K) -> (found: bool)
        requires
            self.wf(),
        ensures
            found == self@.contains_key(key.id()),
    {
        match self.find(key) {
            Some(i) => {
                proof {
                    lemma_place(self.entries@, i as int);
                }
                true
            },
            None => false,
        }
    }

    /// The entry filed under `key`.
    pub fn get(&self, key: &K) -> (entry: Option<&V>)
        requires
            self.wf(),
        ensures
            match entry {
                Some(value) => self@.contains_key(key.id()) && *value == self@[key.id()],
                None => !self@.contains_key(key.id()),
            },
    {
        match self.find(key) {
            Some(i) => {
                proof {
                    lemma_place(self.entries@, i as int);
                }
                Some(&self.entries[i].1)
            },
            None => None,
        }
    }

    /// The entry filed under `key`, to be changed in place.
    pub fn get_mut(&mut self, key: &K) -> (entry: Option<&mut V>)
        requires
            old(self).wf(),
        ensures
            final(self).wf(),
            match entry {
                Some(value) => old(self)@.contains_key(key.id()) && *value == old(self)@[key.id()]
                    && final(self)@ == old(self)@.insert(key.id(), *final(value)),
                None => !old(self)@.contains_key(key.id()) && final(self)@ == old(self)@,
            },
    {
        match self.find(key) {
            Some(i) => {
                proof {
                    let entries = self.entries@;
                    lemma_place(entries, i as int);
                    assert forall|value: V|
                        unique(#[trigger] entries.update(i as int, (entries[i as int].0, value)))
                            && map_of(entries.update(i as int, (entries[i as int].0, value)))
                            == map_of(entries).insert(key.id(), value) by {
                        lemma_update(entries, i as int, value);
                    }
                }
                Some(&mut self.entries[i].1)
            },
            None => None,
        }
    }

    /// Files `value` under `key`. An entry already filed under that key is
    /// replaced and handed back.
    pub fn insert(&mut self, key: K, value: V) -> (previous: Option<V>)
        requires
            old(self).wf(),
        ensures
            final(self).wf(),
            final(self)@ == old(self)@.insert(key.id(), value),
            previous == if old(self)@.contains_key(key.id()) {
                Some(old(self)@[key.id()])
            } else {
                None
            },
    {
        match self.find(&key) {
            Some(i) => {
                proof {
                    lemma_place(self.entries@, i as int);
                    lemma_remove(self.entries@, i as int);
                }
                let (_, previous) = self.entries.remove(i);
                proof {
                    assert(!holds(self.entries@, key.id())) by {
                        assert(!self@.contains_key(key.id()));
                    }
                    lemma_push(self.entries@, key, value);
                }
                self.entries.push((key, value));
                assert(final(self)@ =~= old(self)@.insert(key.id(), value));
                Some(previous)
            },
            None => {
                proof {
                    lemma_push(self.entries@, key, value);
                }
                self.entries.push((key, value));
                None
            },
        }
    }

    /// Takes out the entry filed under `key`. Where there is none, nothing
    /// changes and nothing is handed back.
    pub fn remove(&mut self, key: &K) -> (removed: Option<V>)
        requires
            old(self).wf(),
        ensures
            final(self).wf(),
            final(self)@ == old(self)@.remove(key.id()),
            removed == if old(self)@.contains_key(key.id()) {
                Some(old(self)@[key.id()])
            } else {
                None
            },
    {
        match self.find(key) {
            Some(i) => {
                proof {
                    lemma_place(self.entries@, i as int);
                    lemma_remove(self.entries@, i as int);
                }
                let (_, removed) = self.entries.remove(i);
                Some(removed)
            },
            None => {
                assert(final(self)@ =~= old(self)@.remove(key.id()));
                None
            },
        }
    }

    /// How many entries there are.
    pub fn len(&self) -> (count: usize)
        requires
            self.wf(),
        ensures
            count == self@.dom().len(),
            self@.dom().finite(),
    {
        proof {
            lemma_count(self.entries@);
        }
        self.entries.len()
    }
}

proof fn lemma_count<K: RegistryKey, V>(entries: Seq<(K, V)>)
    requires
        unique(entries),
    ensures
        map_of(entries).dom().finite(),
        map_of(entries).dom().len() == entries.len(),
    decreases entries.len(),
{
    if entries.len() == 0 {
        assert(map_of(entries).dom() =~= Set::<K::Id>::empty());
    } else {
        let end = entries.len() - 1;
        let rest = entries.remove(end);
        lemma_remove(entries, end);
        lemma_place(entries, end);
        lemma_count(rest);
        let id = entries[end].0.id();
        assert(map_of(entries).dom() =~= map_of(rest).dom().insert(id));
    }
}

/// Removal is idempotent: once a key is taken out, taking it out again
/// finds no previous entry and leaves the registry as it is.
pub proof fn lemma_remove_idempotent<I, V>(entries: Map<I, V>, id: I)
    ensures
        !entries.remove(id).contains_key(id),
        entries.remove(id).remove(id) == entries.remove(id),
{
    assert(entries.remove(id).remove(id) =~= entries.remove(id));
}

} // verus!
