//! A keyed table: the in-memory form of a family of ledger entries.
//!
//! Entries are kept in insertion order in a vector; no key occurs twice.
//! The table's meaning is the finite map from the keys' views to the values.

use vstd::prelude::*;

verus! {

/// Keys that can be compared in executable code by their views.
pub trait TableKey: View + Sized {
    /// Executable equality that agrees with equality of the views.
    fn same_key(&self, other: &Self) -> (r: bool)
        ensures
            r == (self@ == other@),
    ;
}

/// Byte strings compare byte by byte.
pub fn bytes_equal(a: &Vec<u8>, b: &Vec<u8>) -> (r: bool)
    ensures
        r == (a@ == b@),
{
    if a.len() != b.len() {
        return false;
    }
    let n = a.len();
    let mut i: usize = 0;
    while i < n
        invariant
            n == a.len(),
            n == b.len(),
            i <= n,
            forall|j: int| 0 <= j < i ==> a@[j] == b@[j],
        decreases n - i,
    {
        if a[i] != b[i] {
            return false;
        }
        i = i + 1;
    }
    assert(a@ =~= b@);
    true
}

/// A byte-for-byte copy of `v`.
pub fn copy_bytes(v: &Vec<u8>) -> (r: Vec<u8>)
    ensures
        r@ == v@,
{
    let mut r: Vec<u8> = Vec::new();
    let mut i: usize = 0;
    while i < v.len()
        invariant
            i <= v.len(),
            r@ =~= v@.take(i as int),
        decreases v.len() - i,
    {
        r.push(v[i]);
        i = i + 1;
    }
    assert(r@ =~= v@);
    r
}

impl TableKey for Vec<u8> {
    fn same_key(&self, other: &Self) -> (r: bool) {
        bytes_equal(self, other)
    }
}

impl TableKey for (Vec<u8>, u32) {
    fn same_key(&self, other: &Self) -> (r: bool) {
        let r = bytes_equal(&self.0, &other.0) && self.1 == other.1;
        proof {
            if r {
                assert(self@ == other@);
            }
        }
        r
    }
}

impl TableKey for (Vec<u8>, Vec<u8>) {
    fn same_key(&self, other: &Self) -> (r: bool) {
        let r = bytes_equal(&self.0, &other.0) && bytes_equal(&self.1, &other.1);
        proof {
            if r {
                assert(self@ == other@);
            }
        }
        r
    }
}

/// A finite map from keys to values, held as a vector of distinct-key entries.
pub struct Table<K, V> {
    entries: Vec<(K, V)>,
}

impl<K: TableKey, V> Table<K, V> {
    /// No key occurs in two entries.
    pub closed spec fn wf(&self) -> bool {
        forall|i: int, j: int|
            0 <= i < self.entries@.len() && 0 <= j < self.entries@.len() && i != j
                ==> #[trigger] self.entries@[i].0@ != #[trigger] self.entries@[j].0@
    }

    /// The position of the entry with key `k`, when there is one.
    closed spec fn has_key_at(&self, k: K::V, i: int) -> bool {
        0 <= i < self.entries@.len() && self.entries@[i].0@ == k
    }

    /// The map that the table stands for.
    pub closed spec fn view(&self) -> Map<K::V, V> {
        Map::new(
            |k: K::V| exists|i: int| self.has_key_at(k, i),
            |k: K::V| self.entries@[choose|i: int| self.has_key_at(k, i)].1,
        )
    }

    proof fn lemma_entry(&self, i: int)
        requires
            self.wf(),
            0 <= i < self.entries@.len(),
        ensures
            self.view().contains_key(self.entries@[i].0@),
            self.view()[self.entries@[i].0@] == self.entries@[i].1,
    {
        let k = self.entries@[i].0@;
        assert(self.has_key_at(k, i));
        let j = choose|j: int| self.has_key_at(k, j);
        assert(self.has_key_at(k, j));
        if j != i {
            assert(self.entries@[i].0@ != self.entries@[j].0@);
        }
    }

    proof fn lemma_absent(&self, k: K::V)
        requires
            forall|i: int| 0 <= i < self.entries@.len() ==> #[trigger] self.entries@[i].0@ != k,
        ensures
            !self.view().contains_key(k),
    {
        if self.view().contains_key(k) {
            let i = choose|i: int| self.has_key_at(k, i);
            assert(self.entries@[i].0@ != k);
        }
    }

    /// An empty table.
    pub fn new() -> (t: Self)
        ensures
            t.wf(),
            t@ == Map::<K::V, V>::empty(),
    {
        let t = Table { entries: Vec::new() };
        assert(t@ =~= Map::<K::V, V>::empty());
        t
    }

    /// The position of the entry whose key is `k`, if any.
    fn find(&self, k: &K) -> (r: Option<usize>)
        requires
            self.wf(),
        ensures
            match r {
                Some(i) => i < self.entries@.len() && self.entries@[i as int].0@ == k@,
                None => !self@.contains_key(k@),
            },
    {
        let mut i: usize = 0;
        while i < self.entries.len()
            invariant
                i <= self.entries@.len(),
                forall|j: int| 0 <= j < i ==> #[trigger] self.entries@[j].0@ != k@,
            decreases self.entries@.len() - i,
        {
            if self.entries[i].0.same_key(k) {
                return Some(i);
            }
            i = i + 1;
        }
        proof {
            self.lemma_absent(k@);
        }
        None
    }

    /// Whether some entry has key `k`.
    pub fn contains(&self, k: &K) -> (r: bool)
        requires
            self.wf(),
        ensures
            r == self@.contains_key(k@),
    {
        match self.find(k) {
            Some(i) => {
                proof {
                    self.lemma_entry(i as int);
                }
                true
            },
            None => false,
        }
    }

    /// The value stored under `k`, if any.
    pub fn get(&self, k: &K) -> (r: Option<&V>)
        requires
            self.wf(),
        ensures
            match r {
                Some(v) => self@.contains_key(k@) && *v == self@[k@],
                None => !self@.contains_key(k@),
            },
    {
        match self.find(k) {
            Some(i) => {
                proof {
                    self.lemma_entry(i as int);
                }
                Some(&self.entries[i].1)
            },
            None => None,
        }
    }

    /// Stores `v` under `k`, replacing any earlier value.
    pub fn insert(&mut self, k: K, v: V)
        requires
            old(self).wf(),
        ensures
            final(self).wf(),
            final(self)@ == old(self)@.insert(k@, v),
    {
        let ghost kv = k@;
        match self.find(&k) {
            Some(i) => {
                self.entries.set(i, (k, v));
                proof {
                    let s = self.entries@;
                    let o = old(self).entries@;
                    assert forall|a: int, b: int|
                        0 <= a < s.len() && 0 <= b < s.len() && a != b implies
                        #[trigger] s[a].0@ != #[trigger] s[b].0@ by {
                        assert(o[a].0@ != o[b].0@);
                    }
                    self.lemma_entry(i as int);
                    assert forall|key: K::V| #[trigger] self@.contains_key(key) <==> old(self)@.insert(kv, v).contains_key(key) by {
                        if self@.contains_key(key) {
                            let j = choose|j: int| self.has_key_at(key, j);
                            if j != i {
                                assert(old(self).has_key_at(key, j));
                            }
                        }
                        if old(self)@.contains_key(key) {
                            let j = choose|j: int| old(self).has_key_at(key, j);
                            if j != i {
                                assert(self.has_key_at(key, j));
                            }
                        }
                    }
                    assert forall|key: K::V| #[trigger] self@.contains_key(key) implies self@[key] == old(self)@.insert(kv, v)[key] by {
                        let j = choose|j: int| self.has_key_at(key, j);
                        self.lemma_entry(j);
                        if j != i {
                            old(self).lemma_entry(j);
                        }
                    }
                    assert(self@ =~= old(self)@.insert(kv, v));
                }
            },
            None => {
                self.entries.push((k, v));
                proof {
                    let s = self.entries@;
                    let o = old(self).entries@;
                    let n = o.len() as int;
                    assert forall|a: int| 0 <= a < n implies #[trigger] o[a].0@ != kv by {
                        old(self).lemma_entry(a);
                    }
                    assert forall|a: int, b: int|
                        0 <= a < s.len() && 0 <= b < s.len() && a != b implies
                        #[trigger] s[a].0@ != #[trigger] s[b].0@ by {
                        if a < n && b < n {
                            assert(o[a].0@ != o[b].0@);
                        }
                    }
                    self.lemma_entry(n);
                    assert forall|key: K::V| #[trigger] self@.contains_key(key) <==> old(self)@.insert(kv, v).contains_key(key) by {
                        if self@.contains_key(key) {
                            let j = choose|j: int| self.has_key_at(key, j);
                            if j != n {
                                assert(old(self).has_key_at(key, j));
                            }
                        }
                        if old(self)@.contains_key(key) {
                            let j = choose|j: int| old(self).has_key_at(key, j);
                            assert(self.has_key_at(key, j));
                        }
                    }
                    assert forall|key: K::V| #[trigger] self@.contains_key(key) implies self@[key] == old(self)@.insert(kv, v)[key] by {
                        let j = choose|j: int| self.has_key_at(key, j);
                        self.lemma_entry(j);
                        if j != n {
                            old(self).lemma_entry(j);
                        }
                    }
                    assert(self@ =~= old(self)@.insert(kv, v));
                }
            },
        }
    }

    /// Deletes the entry at position `i`; the entries after it move down by one.
    fn remove_at(&mut self, i: usize)
        requires
            old(self).wf(),
            i < old(self).entries@.len(),
        ensures
            final(self).wf(),
            final(self).entries@ == old(self).entries@.remove(i as int),
            final(self)@ == old(self)@.remove(old(self).entries@[i as int].0@),
    {
        let ghost k = self.entries@[i as int].0@;
        self.entries.remove(i);
        proof {
            let s = self.entries@;
            let o = old(self).entries@;
            let ii = i as int;
            assert forall|a: int| 0 <= a < s.len() implies #[trigger] s[a] == o[if a < ii { a } else { a + 1 }] by {
            }
            assert forall|a: int, b: int|
                0 <= a < s.len() && 0 <= b < s.len() && a != b implies
                #[trigger] s[a].0@ != #[trigger] s[b].0@ by {
                let a2 = if a < ii { a } else { a + 1 };
                let b2 = if b < ii { b } else { b + 1 };
                assert(s[a] == o[a2]);
                assert(s[b] == o[b2]);
                assert(o[a2].0@ != o[b2].0@);
            }
            assert forall|key: K::V| #[trigger] self@.contains_key(key) <==> old(self)@.remove(k).contains_key(key) by {
                if self@.contains_key(key) {
                    let j = choose|j: int| self.has_key_at(key, j);
                    let j2 = if j < ii { j } else { j + 1 };
                    assert(s[j] == o[j2]);
                    assert(old(self).has_key_at(key, j2));
                    assert(o[j2].0@ != o[ii].0@);
                }
                if old(self)@.remove(k).contains_key(key) {
                    let j = choose|j: int| old(self).has_key_at(key, j);
                    assert(j != ii);
                    let j3 = if j < ii { j } else { j - 1 };
                    assert(s[j3] == o[j]);
                    assert(self.has_key_at(key, j3));
                }
            }
            assert forall|key: K::V| #[trigger] self@.contains_key(key) implies self@[key] == old(self)@.remove(k)[key] by {
                let j = choose|j: int| self.has_key_at(key, j);
                self.lemma_entry(j);
                let j2 = if j < ii { j } else { j + 1 };
                assert(s[j] == o[j2]);
                old(self).lemma_entry(j2);
            }
            assert(self@ =~= old(self)@.remove(k));
        }
    }

    /// Deletes the entry with key `k`; a missing key is a no-op.
    pub fn remove(&mut self, k: &K)
        requires
            old(self).wf(),
        ensures
            final(self).wf(),
            final(self)@ == old(self)@.remove(k@),
    {
        match self.find(k) {
            Some(i) => {
                self.remove_at(i);
            },
            None => {
                assert(self@ =~= old(self)@.remove(k@));
            },
        }
    }
}

impl<V> Table<(Vec<u8>, Vec<u8>), V> {
    /// Deletes every entry whose key's first component is `first`.
    pub fn remove_with_first(&mut self, first: &Vec<u8>)
        requires
            old(self).wf(),
        ensures
            final(self).wf(),
            final(self)@ == Map::new(
                |k: (Seq<u8>, Seq<u8>)| old(self)@.contains_key(k) && k.0 != first@,
                |k: (Seq<u8>, Seq<u8>)| old(self)@[k],
            ),
    {
        let ghost before = self@;
        let mut i: usize = 0;
        while i < self.entries.len()
            invariant
                self.wf(),
                i <= self.entries@.len(),
                forall|j: int| 0 <= j < i ==> #[trigger] self.entries@[j].0@.0 != first@,
                forall|k: (Seq<u8>, Seq<u8>)| #[trigger] self@.contains_key(k) ==> before.contains_key(k)
                    && self@[k] == before[k],
                forall|k: (Seq<u8>, Seq<u8>)| k.0 != first@ && #[trigger] before.contains_key(k) ==> self@.contains_key(k),
            decreases self.entries@.len() - i,
        {
            if bytes_equal(&self.entries[i].0.0, first) {
                let ghost prev = self@;
                let ghost gone = self.entries@[i as int].0@;
                let ghost o = self.entries@;
                self.remove_at(i);
                assert forall|j: int| 0 <= j < i implies #[trigger] self.entries@[j].0@.0 != first@ by {
                    assert(self.entries@[j] == o[j]);
                }
                assert forall|k: (Seq<u8>, Seq<u8>)| k.0 != first@ && #[trigger] before.contains_key(k) implies self@.contains_key(k) by {
                    assert(prev.contains_key(k));
                    assert(k != gone);
                }
            } else {
                i = i + 1;
            }
        }
        proof {
            let target = Map::new(
                |k: (Seq<u8>, Seq<u8>)| before.contains_key(k) && k.0 != first@,
                |k: (Seq<u8>, Seq<u8>)| before[k],
            );
            assert forall|k: (Seq<u8>, Seq<u8>)| #[trigger] self@.contains_key(k) implies k.0 != first@ by {
                let m = choose|m: int| self.has_key_at(k, m);
                assert(self.entries@[m].0@.0 != first@);
            }
            assert(self@ =~= target);
        }
    }
}

} // verus!
