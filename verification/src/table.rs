//! A table from keys to values, with one entry per key.

use vstd::prelude::*;

verus! {

/// A key of a [`Table`]: a value that can be compared with another by content.
pub trait TableKey: View {
    /// Whether the two keys have the same content.
    fn same(&self, other: &Self) -> (r: bool)
        ensures
            r == (self@ == other@),
    ;
}

/// Entries under pairwise distinct keys. The view is the map that they make up.
#[derive(Debug)]
pub struct Table<K: TableKey, V: View> {
    entries: Vec<(K, V)>,
}

/// Whether some entry of `entries` stands under `key`.
pub open spec fn has_key<K: View, V: View>(entries: Seq<(K, V)>, key: K::V) -> bool {
    exists|i: int| 0 <= i < entries.len() && (#[trigger] entries[i]).0@ == key
}

/// Whether no two entries stand under one key.
pub open spec fn keys_differ<K: View, V: View>(entries: Seq<(K, V)>) -> bool {
    forall|i: int, j: int|
        0 <= i < j < entries.len() ==> (#[trigger] entries[i]).0@ != (#[trigger] entries[j]).0@
}

/// The map that `entries` make up.
pub open spec fn entry_map<K: View, V: View>(entries: Seq<(K, V)>) -> Map<K::V, V::V> {
    Map::new(
        |k: K::V| has_key(entries, k),
        |k: K::V|
            entries[choose|i: int| 0 <= i < entries.len() && (#[trigger] entries[i]).0@ == k].1@,
    )
}

impl<K: TableKey, V: View> View for Table<K, V> {
    type V = Map<K::V, V::V>;

    closed spec fn view(&self) -> Map<K::V, V::V> {
        entry_map(self.entries@)
    }
}

impl<K: TableKey, V: View> Table<K, V> {
    #[verifier::type_invariant]
    spec fn keys_are_distinct(self) -> bool {
        keys_differ(self.entries@)
    }

    /// Makes a table without entries.
    pub fn new() -> (r: Self)
        ensures
            r@ == Map::<K::V, V::V>::empty(),
    {
        let r = Table { entries: Vec::new() };
        assert(r@ =~= Map::<K::V, V::V>::empty());
        r
    }

    /// The entries, each key once.
    pub fn entries(&self) -> (r: &Vec<(K, V)>)
        ensures
            keys_differ(r@),
            self@ == entry_map(r@),
    {
        proof {
            use_type_invariant(self);
        }
        &self.entries
    }

    fn find(&self, key: &K) -> (r: Option<usize>)
        ensures
            match r {
                Some(i) => i < self.entries@.len() && self.entries@[i as int].0@ == key@,
                None => !has_key(self.entries@, key@),
            },
    {
        let mut i: usize = 0;
        while i < self.entries.len()
            invariant
                i <= self.entries@.len(),
                forall|j: int| 0 <= j < i ==> (#[trigger] self.entries@[j]).0@ != key@,
            decreases self.entries@.len() - i,
        {
            if self.entries[i].0.same(key) {
                return Some(i);
            }
            i = i + 1;
        }
        None
    }

    /// Whether there is an entry under `key`.
    pub fn has(&self, key: &K) -> (r: bool)
        ensures
            r == self@.contains_key(key@),
    {
        match self.find(key) {
            Some(_) => true,
            None => false,
        }
    }

    /// The value under `key`, if there is one.
    pub fn get(&self, key: &K) -> (r: Option<&V>)
        ensures
            match r {
                Some(v) => self@.contains_key(key@) && self@[key@] == v@,
                None => !self@.contains_key(key@),
            },
    {
        proof {
            use_type_invariant(self);
        }
        match self.find(key) {
            Some(i) => Some(&self.entries[i].1),
            None => None,
        }
    }

    /// Puts `value` under `key`, in place of what was there.
    pub fn set(&mut self, key: K, value: V)
        ensures
            final(self)@ == old(self)@.insert(key@, value@),
    {
        proof {
            use_type_invariant(&*self);
        }
        let ghost before = self.entries@;
        let ghost k = key@;
        let ghost v = value@;
        let slot = self.find(&key);
        let mut entries: Vec<(K, V)> = Vec::new();
        std::mem::swap(&mut entries, &mut self.entries);
        match slot {
            Some(i) => {
                entries[i] = (key, value);
                assert(entries@[i as int].0@ == k);
            },
            None => {
                entries.push((key, value));
                assert(entries@.last().0@ == k);
            },
        }
        proof {
            let after = entries@;
            assert(keys_differ(after)) by {
                assert forall|i: int, j: int| 0 <= i < j < after.len() implies (
                #[trigger] after[i]).0@ != (#[trigger] after[j]).0@ by {
                    if i < before.len() && j < before.len() {
                        assert(before[i].0@ != before[j].0@);
                    }
                }
            }
            assert forall|q: K::V| has_key(after, q) == (has_key(before, q) || q == k) by {
                if has_key(before, q) {
                    let i = choose|i: int| 0 <= i < before.len() && (#[trigger] before[i]).0@ == q;
                    assert(after[i].0@ == q);
                }
                if has_key(after, q) && q != k {
                    let i = choose|i: int| 0 <= i < after.len() && (#[trigger] after[i]).0@ == q;
                    assert(before[i].0@ == q);
                }
            }
            assert forall|q: K::V| has_key(before, q) && q != k implies entry_map(after)[q]
                == entry_map(before)[q] by {
                let i = choose|i: int| 0 <= i < before.len() && (#[trigger] before[i]).0@ == q;
                let j = choose|i: int| 0 <= i < after.len() && (#[trigger] after[i]).0@ == q;
                assert(after[i].0@ == q);
                assert(i == j);
            }
            assert(entry_map(after) =~= entry_map(before).insert(k, v));
        }
        self.entries = entries;
    }
}

impl TableKey for u64 {
    fn same(&self, other: &Self) -> (r: bool) {
        *self == *other
    }
}

impl TableKey for Vec<u8> {
    fn same(&self, other: &Self) -> (r: bool) {
        same_bytes(self, other)
    }
}

/// Whether the two byte strings are equal.
pub fn same_bytes(a: &Vec<u8>, b: &Vec<u8>) -> (r: bool)
    ensures
        r == (a@ == b@),
{
    if a.len() != b.len() {
        return false;
    }
    let mut i: usize = 0;
    while i < a.len()
        invariant
            i <= a@.len(),
            a@.len() == b@.len(),
            forall|j: int| 0 <= j < i ==> a@[j] == b@[j],
        decreases a@.len() - i,
    {
        if a[i] != b[i] {
            return false;
        }
        i = i + 1;
    }
    assert(a@ =~= b@);
    true
}

/// A byte string with the same bytes.
pub fn copy_bytes(a: &Vec<u8>) -> (r: Vec<u8>)
    ensures
        r@ == a@,
{
    let r = a.clone();
    assert(r@ =~= a@);
    r
}

} // verus!
