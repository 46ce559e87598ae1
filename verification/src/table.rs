//! Tables from keys to values, kept in insertion order.

use vstd::prelude::*;

use crate::text;

verus! {

/// A key of a table: an executable value that stands for a mathematical one.
pub trait Key: Sized {
    /// What the key stands for.
    type Id;

    spec fn id(&self) -> Self::Id;

    /// Whether two keys stand for the same thing.
    fn matches(&self, other: &Self) -> (res: bool)
        ensures
            res == (self.id() == other.id()),
    ;

    fn duplicate(&self) -> (res: Self)
        ensures
            res == *self,
    ;
}

impl Key for String {
    type Id = Seq<char>;

    open spec fn id(&self) -> Seq<char> {
        self@
    }

    fn matches(&self, other: &Self) -> (res: bool) {
        text::same(self.as_str(), other.as_str())
    }

    fn duplicate(&self) -> (res: Self) {
        self.clone()
    }
}

impl Key for (String, String) {
    type Id = (Seq<char>, Seq<char>);

    open spec fn id(&self) -> (Seq<char>, Seq<char>) {
        (self.0@, self.1@)
    }

    fn matches(&self, other: &Self) -> (res: bool) {
        text::same(self.0.as_str(), other.0.as_str()) && text::same(self.1.as_str(), other.1.as_str())
    }

    fn duplicate(&self) -> (res: Self) {
        (self.0.clone(), self.1.clone())
    }
}

impl Key for (String, String, String) {
    type Id = (Seq<char>, Seq<char>, Seq<char>);

    open spec fn id(&self) -> (Seq<char>, Seq<char>, Seq<char>) {
        (self.0@, self.1@, self.2@)
    }

    fn matches(&self, other: &Self) -> (res: bool) {
        text::same(self.0.as_str(), other.0.as_str()) && text::same(self.1.as_str(), other.1.as_str())
            && text::same(self.2.as_str(), other.2.as_str())
    }

    fn duplicate(&self) -> (res: Self) {
        (self.0.clone(), self.1.clone(), self.2.clone())
    }
}

impl Key for (String, u64) {
    type Id = (Seq<char>, u64);

    open spec fn id(&self) -> (Seq<char>, u64) {
        (self.0@, self.1)
    }

    fn matches(&self, other: &Self) -> (res: bool) {
        text::same(self.0.as_str(), other.0.as_str()) && self.1 == other.1
    }

    fn duplicate(&self) -> (res: Self) {
        (self.0.clone(), self.1)
    }
}

impl Key for u64 {
    type Id = u64;

    open spec fn id(&self) -> u64 {
        *self
    }

    fn matches(&self, other: &Self) -> (res: bool) {
        *self == *other
    }

    fn duplicate(&self) -> (res: Self) {
        *self
    }
}

/// Values addressed by keys. What a key stands for occurs once.
pub struct Table<K: Key, V> {
    pub entries: Vec<(K, V)>,
}

/// No key occurs twice among the entries.
spec fn distinct<K: Key, V>(entries: Seq<(K, V)>) -> bool {
    forall|i: int, j: int| 0 <= i < j < entries.len() ==> entries[i].0.id() != entries[j].0.id()
}

/// Whether an entry has the key.
spec fn has_key<K: Key, V>(entries: Seq<(K, V)>, key: K::Id) -> bool {
    exists|i: int| 0 <= i < entries.len() && #[trigger] entries[i].0.id() == key
}

/// What the entries hold.
spec fn contents<K: Key, V>(entries: Seq<(K, V)>) -> Map<K::Id, V> {
    Map::new(
        |key: K::Id| has_key(entries, key),
        |key: K::Id|
            entries[choose|i: int| 0 <= i < entries.len() && #[trigger] entries[i].0.id() == key].1,
    )
}

proof fn lemma_entry_of<K: Key, V>(entries: Seq<(K, V)>, i: int)
    requires
        distinct(entries),
        0 <= i < entries.len(),
    ensures
        contents(entries).dom().contains(entries[i].0.id()),
        contents(entries)[entries[i].0.id()] == entries[i].1,
{
    let key = entries[i].0.id();
    assert(has_key(entries, key));
    let j = choose|j: int| 0 <= j < entries.len() && #[trigger] entries[j].0.id() == key;
    if i < j {
        assert(entries[i].0.id() != entries[j].0.id());
    } else if j < i {
        assert(entries[j].0.id() != entries[i].0.id());
    }
}

/// Changing the value of an entry changes what its key holds and nothing else.
proof fn lemma_update<K: Key, V>(entries: Seq<(K, V)>, i: int, value: V)
    requires
        distinct(entries),
        0 <= i < entries.len(),
    ensures
        distinct(entries.update(i, (entries[i].0, value))),
        contents(entries.update(i, (entries[i].0, value))) == contents(entries).insert(
            entries[i].0.id(),
            value,
        ),
{
    let after = entries.update(i, (entries[i].0, value));
    let wanted = contents(entries).insert(entries[i].0.id(), value);
    assert forall|a: int, b: int| 0 <= a < b < after.len() implies after[a].0.id() != after[b].0.id() by {
        assert(entries[a].0.id() != entries[b].0.id());
    }
    assert forall|k: K::Id| contents(after).dom().contains(k) == wanted.dom().contains(k) by {
        if has_key(entries, k) {
            let j = choose|j: int| 0 <= j < entries.len() && #[trigger] entries[j].0.id() == k;
            assert(after[j].0.id() == k);
        }
        if has_key(after, k) {
            let j = choose|j: int| 0 <= j < after.len() && #[trigger] after[j].0.id() == k;
            assert(entries[j].0.id() == k);
        }
    }
    assert forall|k: K::Id| contents(after).dom().contains(k) implies contents(after)[k] == wanted[k] by {
        let j = choose|j: int| 0 <= j < after.len() && #[trigger] after[j].0.id() == k;
        lemma_entry_of(after, j);
        lemma_entry_of(entries, j);
    }
    assert(contents(after) =~= wanted);
}

impl<K: Key, V> Table<K, V> {
    /// No key occurs twice.
    pub closed spec fn wf(self) -> bool {
        distinct(self.entries@)
    }

    spec fn holds(self, key: K::Id) -> bool {
        has_key(self.entries@, key)
    }

    /// What the keys hold.
    pub closed spec fn view(self) -> Map<K::Id, V> {
        contents(self.entries@)
    }

    /// An entry is what its key holds.
    pub proof fn lemma_entry(self, i: int)
        requires
            self.wf(),
            0 <= i < self.entries@.len(),
        ensures
            self@.dom().contains(self.entries@[i].0.id()),
            self@[self.entries@[i].0.id()] == self.entries@[i].1,
    {
        lemma_entry_of(self.entries@, i);
    }

    /// Different entries have different keys.
    pub proof fn lemma_distinct(self, i: int, j: int)
        requires
            self.wf(),
            0 <= i < j < self.entries@.len(),
        ensures
            self.entries@[i].0.id() != self.entries@[j].0.id(),
    {
    }

    /// A key that holds something has an entry.
    pub proof fn lemma_position(self, key: K::Id) -> (i: int)
        requires
            self@.dom().contains(key),
        ensures
            0 <= i < self.entries@.len(),
            self.entries@[i].0.id() == key,
    {
        choose|i: int| 0 <= i < self.entries@.len() && #[trigger] self.entries@[i].0.id() == key
    }

    pub fn new() -> (res: Self)
        ensures
            res.wf(),
            res@ == Map::<K::Id, V>::empty(),
    {
        let res = Table { entries: Vec::new() };
        assert(res@ =~= Map::<K::Id, V>::empty());
        res
    }

    /// Index of a key's entry.
    fn find(&self, key: &K) -> (res: Option<usize>)
        ensures
            match res {
                Some(i) => i < self.entries@.len() && self.entries@[i as int].0.id() == key.id(),
                None => !self.holds(key.id()),
            },
    {
        let mut i: usize = 0;
        while i < self.entries.len()
            invariant
                i <= self.entries.len(),
                forall|j: int| 0 <= j < i ==> self.entries@[j].0.id() != key.id(),
            decreases self.entries.len() - i,
        {
            if self.entries[i].0.matches(key) {
                return Some(i);
            }
            i += 1;
        }
        None
    }

    pub fn contains(&self, key: &K) -> (res: bool)
        ensures
            res == self@.dom().contains(key.id()),
    {
        match self.find(key) {
            Some(_) => true,
            None => false,
        }
    }

    pub fn get(&self, key: &K) -> (res: Option<&V>)
        requires
            self.wf(),
        ensures
            match res {
                Some(value) => self@.dom().contains(key.id()) && *value == self@[key.id()],
                None => !self@.dom().contains(key.id()),
            },
    {
        match self.find(key) {
            Some(i) => {
                proof {
                    self.lemma_entry(i as int);
                }
                Some(&self.entries[i].1)
            },
            None => None,
        }
    }

    /// The value of a key, to be changed in place.
    pub fn get_mut(&mut self, key: &K) -> (res: Option<&mut V>)
        requires
            old(self).wf(),
        ensures
            final(self).wf(),
            match res {
                Some(value) => {
                    &&& old(self)@.dom().contains(key.id())
                    &&& *value == old(self)@[key.id()]
                    &&& final(self)@ == old(self)@.insert(key.id(), *final(value))
                },
                None => !old(self)@.dom().contains(key.id()) && *final(self) == *old(self),
            },
    {
        match self.find(key) {
            Some(i) => {
                let ghost before = self.entries@;
                let value = &mut self.entries[i].1;
                proof {
                    lemma_entry_of(before, i as int);
                    lemma_update(before, i as int, *final(value));
                }
                Some(value)
            },
            None => None,
        }
    }

    /// Puts `value` at `key`, in place where the key is present.
    pub fn insert(&mut self, key: K, value: V) -> (res: Option<V>)
        requires
            old(self).wf(),
        ensures
            final(self).wf(),
            final(self)@ == old(self)@.insert(key.id(), value),
            match res {
                Some(previous) => old(self)@.dom().contains(key.id()) && previous == old(self)@[key.id()],
                None => !old(self)@.dom().contains(key.id()),
            },
    {
        match self.find(&key) {
            Some(i) => {
                let mut slot = value;
                proof {
                    self.lemma_entry(i as int);
                }
                let ghost before = self.entries@;
                std::mem::swap(&mut slot, &mut self.entries[i].1);
                proof {
                    assert(self.entries@ =~= before.update(i as int, (before[i as int].0, value)));
                    lemma_update(before, i as int, value);
                }
                Some(slot)
            },
            None => {
                let ghost before = *self;
                self.entries.push((key, value));
                assert(self.wf());
                assert forall|k: K::Id| self@.dom().contains(k) == before@.insert(key.id(), value).dom().contains(k) by {
                    if before.holds(k) {
                        let j = choose|j: int| 0 <= j < before.entries@.len() && #[trigger] before.entries@[j].0.id() == k;
                        assert(self.entries@[j].0.id() == k);
                    }
                    if self.holds(k) {
                        let j = choose|j: int| 0 <= j < self.entries@.len() && #[trigger] self.entries@[j].0.id() == k;
                        if j < before.entries@.len() {
                            assert(before.entries@[j].0.id() == k);
                        }
                    }
                    assert(self.entries@[before.entries@.len() as int].0.id() == key.id());
                }
                assert forall|k: K::Id| self@.dom().contains(k) implies self@[k] == before@.insert(key.id(), value)[k] by {
                    let j = choose|j: int| 0 <= j < self.entries@.len() && #[trigger] self.entries@[j].0.id() == k;
                    self.lemma_entry(j);
                    if j < before.entries@.len() {
                        before.lemma_entry(j);
                    }
                }
                assert(self@ =~= before@.insert(key.id(), value));
                None
            },
        }
    }

    /// Takes a key's value out of the table.
    pub fn remove(&mut self, key: &K) -> (res: Option<V>)
        requires
            old(self).wf(),
        ensures
            final(self).wf(),
            final(self)@ == old(self)@.remove(key.id()),
            match res {
                Some(previous) => old(self)@.dom().contains(key.id()) && previous == old(self)@[key.id()],
                None => !old(self)@.dom().contains(key.id()),
            },
    {
        match self.find(key) {
            Some(i) => {
                proof {
                    self.lemma_entry(i as int);
                }
                let ghost before = *self;
                let (_, value) = self.entries.remove(i);
                assert forall|j: int| 0 <= j < self.entries@.len() implies #[trigger] self.entries@[j] == before.entries@[if j < i { j } else { j + 1 }] by {}
                assert(self.wf());
                assert forall|k: K::Id| self@.dom().contains(k) == before@.remove(key.id()).dom().contains(k) by {
                    if before.holds(k) && k != key.id() {
                        let j = choose|j: int| 0 <= j < before.entries@.len() && #[trigger] before.entries@[j].0.id() == k;
                        assert(self.entries@[if j < i { j } else { j - 1 }].0.id() == k);
                    }
                    if self.holds(k) {
                        let j = choose|j: int| 0 <= j < self.entries@.len() && #[trigger] self.entries@[j].0.id() == k;
                        assert(before.entries@[if j < i { j } else { j + 1 }].0.id() == k);
                        assert(k != key.id());
                    }
                }
                assert forall|k: K::Id| self@.dom().contains(k) implies self@[k] == before@.remove(key.id())[k] by {
                    let j = choose|j: int| 0 <= j < self.entries@.len() && #[trigger] self.entries@[j].0.id() == k;
                    self.lemma_entry(j);
                    before.lemma_entry(if j < i { j } else { j + 1 });
                }
                assert(self@ =~= before@.remove(key.id()));
                Some(value)
            },
            None => {
                assert(self@.remove(key.id()) =~= self@);
                None
            },
        }
    }

    /// Keeps the entries that `keep` accepts.
    pub fn retain<F: Fn(&K, &V) -> bool>(&mut self, keep: F, Ghost(kept): Ghost<spec_fn(K::Id, V) -> bool>)
        requires
            old(self).wf(),
            forall|k: K, v: V| call_requires(keep, (&k, &v)),
            forall|k: K, v: V, r: bool| call_ensures(keep, (&k, &v), r) ==> r == kept(k.id(), v),
        ensures
            final(self).wf(),
            final(self)@ == old(self)@.restrict(
                Set::new(|k: K::Id| old(self)@.dom().contains(k) && kept(k, old(self)@[k])),
            ),
    {
        let ghost before = *self;
        let ghost wanted = Set::new(|k: K::Id| before@.dom().contains(k) && kept(k, before@[k]));
        let mut rest: Vec<(K, V)> = Vec::new();
        std::mem::swap(&mut rest, &mut self.entries);
        let ghost mut next: int = 0;
        while rest.len() > 0
            invariant
                before.wf(),
                self.wf(),
                0 <= next <= before.entries@.len(),
                rest@ == before.entries@.skip(next),
                forall|k: K, v: V| call_requires(keep, (&k, &v)),
                forall|k: K, v: V, r: bool| call_ensures(keep, (&k, &v), r) ==> r == kept(k.id(), v),
                forall|j: int| #![trigger self.entries@[j]] 0 <= j < self.entries@.len() ==> exists|i: int|
                    0 <= i < next && #[trigger] before.entries@[i] == self.entries@[j],
                forall|i: int| #![trigger before.entries@[i]] 0 <= i < next && kept(before.entries@[i].0.id(), before.entries@[i].1)
                    ==> exists|j: int| 0 <= j < self.entries@.len() && #[trigger] self.entries@[j] == before.entries@[i],
                forall|j: int| 0 <= j < self.entries@.len() ==> kept(
                    (#[trigger] self.entries@[j]).0.id(),
                    self.entries@[j].1,
                ),
            decreases rest@.len(),
        {
            let ghost prior = *self;
            let entry = rest.remove(0);
            assert(entry == before.entries@[next]);
            assert(rest@ =~= before.entries@.skip(next + 1));
            if keep(&entry.0, &entry.1) {
                assert forall|j: int| 0 <= j < self.entries@.len() implies self.entries@[j].0.id() != entry.0.id() by {
                    let i = choose|i: int| 0 <= i < next && #[trigger] before.entries@[i] == self.entries@[j];
                    assert(before.entries@[i].0.id() != before.entries@[next].0.id());
                }
                self.entries.push(entry);
                assert forall|i: int| #![trigger before.entries@[i]] 0 <= i < next + 1 && kept(before.entries@[i].0.id(), before.entries@[i].1)
                    implies exists|j: int| 0 <= j < self.entries@.len() && #[trigger] self.entries@[j] == before.entries@[i] by {
                    if i < next {
                        let j = choose|j: int| 0 <= j < prior.entries@.len() && #[trigger] prior.entries@[j] == before.entries@[i];
                        assert(self.entries@[j] == before.entries@[i]);
                    } else {
                        assert(self.entries@[prior.entries@.len() as int] == before.entries@[i]);
                    }
                }
                assert forall|j: int| #![trigger self.entries@[j]] 0 <= j < self.entries@.len() implies exists|i: int|
                    0 <= i < next + 1 && #[trigger] before.entries@[i] == self.entries@[j] by {
                    if j < prior.entries@.len() {
                        assert(prior.entries@[j] == self.entries@[j]);
                    } else {
                        assert(before.entries@[next] == self.entries@[j]);
                    }
                }
            }
            proof {
                next = next + 1;
            }
        }
        assert forall|k: K::Id| self@.dom().contains(k) == before@.restrict(wanted).dom().contains(k) by {
            if self.holds(k) {
                let j = choose|j: int| 0 <= j < self.entries@.len() && #[trigger] self.entries@[j].0.id() == k;
                let i = choose|i: int| 0 <= i < next && #[trigger] before.entries@[i] == self.entries@[j];
                before.lemma_entry(i);
            }
            if before.holds(k) && kept(k, before@[k]) {
                let i = choose|i: int| 0 <= i < before.entries@.len() && #[trigger] before.entries@[i].0.id() == k;
                before.lemma_entry(i);
                let j = choose|j: int| 0 <= j < self.entries@.len() && #[trigger] self.entries@[j] == before.entries@[i];
                assert(self.entries@[j].0.id() == k);
            }
        }
        assert forall|k: K::Id| self@.dom().contains(k) implies self@[k] == before@.restrict(wanted)[k] by {
            let j = choose|j: int| 0 <= j < self.entries@.len() && #[trigger] self.entries@[j].0.id() == k;
            let i = choose|i: int| 0 <= i < next && #[trigger] before.entries@[i] == self.entries@[j];
            before.lemma_entry(i);
            self.lemma_entry(j);
        }
        assert(self@ =~= before@.restrict(wanted));
    }

    /// The keys, each once.
    pub fn keys(&self) -> (res: Vec<K>)
        requires
            self.wf(),
        ensures
            forall|i: int|
                0 <= i < res@.len() ==> self@.dom().contains((#[trigger] res@[i]).id()),
            forall|i: int, j: int|
                0 <= i < j < res@.len() ==> (#[trigger] res@[i]).id() != (#[trigger] res@[j]).id(),
            forall|key: K::Id|
                #[trigger] self@.dom().contains(key) ==> exists|i: int|
                    0 <= i < res@.len() && (#[trigger] res@[i]).id() == key,
    {
        let mut res: Vec<K> = Vec::new();
        let mut at: usize = 0;
        while at < self.entries.len()
            invariant
                self.wf(),
                at <= self.entries.len(),
                res@.len() == at,
                forall|i: int| 0 <= i < at ==> (#[trigger] res@[i]).id() == self.entries@[i].0.id(),
            decreases self.entries.len() - at,
        {
            res.push(self.entries[at].0.duplicate());
            at = at + 1;
        }
        proof {
            assert forall|i: int| 0 <= i < res@.len() implies self@.dom().contains((#[trigger] res@[i]).id()) by {
                self.lemma_entry(i);
            }
            assert forall|i: int, j: int|
                0 <= i < j < res@.len() implies (#[trigger] res@[i]).id() != (#[trigger] res@[j]).id() by {
                self.lemma_distinct(i, j);
            }
            assert forall|key: K::Id| #[trigger] self@.dom().contains(key) implies exists|i: int|
                0 <= i < res@.len() && (#[trigger] res@[i]).id() == key by {
                let i = self.lemma_position(key);
                assert(res@[i].id() == key);
            }
        }
        res
    }

    pub fn clear(&mut self)
        ensures
            final(self).wf(),
            final(self)@ == Map::<K::Id, V>::empty(),
    {
        self.entries.clear();
        assert(self@ =~= Map::<K::Id, V>::empty());
    }
}

} // verus!
