//! A small map keyed by strings that keeps its entries in insertion order.

use vstd::prelude::*;
use crate::text::{str_eq, owned};

verus! {

/// Position of the first entry with key `k`.
pub open spec fn key_pos<V>(kv: Seq<(Seq<char>, V)>, k: Seq<char>) -> Option<int>
    decreases kv.len(),
{
    if kv.len() == 0 {
        None
    } else if kv[0].0 == k {
        Some(0)
    } else {
        match key_pos(kv.drop_first(), k) {
            Some(i) => Some(i + 1),
            None => None,
        }
    }
}

/// The value stored under `k`.
pub open spec fn lookup<V>(kv: Seq<(Seq<char>, V)>, k: Seq<char>) -> Option<V> {
    match key_pos(kv, k) {
        Some(i) => Some(kv[i].1),
        None => None,
    }
}

/// Entries after storing `v` under `k`: an existing entry keeps its place and
/// takes the new value, otherwise the entry is appended.
pub open spec fn kv_insert<V>(kv: Seq<(Seq<char>, V)>, k: Seq<char>, v: V) -> Seq<(Seq<char>, V)> {
    match key_pos(kv, k) {
        Some(i) => kv.update(i, (k, v)),
        None => kv.push((k, v)),
    }
}

/// Entries after removing the one with key `k`, if there is one.
pub open spec fn kv_remove<V>(kv: Seq<(Seq<char>, V)>, k: Seq<char>) -> Seq<(Seq<char>, V)> {
    match key_pos(kv, k) {
        Some(i) => kv.remove(i),
        None => kv,
    }
}

/// In a map without repeated keys, a removed key is no longer found.
pub proof fn lemma_remove_lookup<V>(kv: Seq<(Seq<char>, V)>, k: Seq<char>)
    requires
        distinct_keys(kv),
    ensures
        lookup(kv_remove(kv, k), k) is None,
{
    match key_pos(kv, k) {
        Some(i) => {
            lemma_key_pos_valid(kv, k);
            let r = kv.remove(i);
            assert forall|j: int| 0 <= j < r.len() implies r[j].0 != k by {
                let j2 = if j < i { j } else { j + 1 };
                assert(r[j] == kv[j2]);
            }
            lemma_key_pos_absent(r, k);
        },
        None => {},
    }
}

/// No key occurs twice.
pub open spec fn distinct_keys<V>(kv: Seq<(Seq<char>, V)>) -> bool {
    forall|i: int, j: int| 0 <= i < j < kv.len() ==> kv[i].0 != kv[j].0
}

/// The keys, in order.
pub open spec fn keys_of<V>(kv: Seq<(Seq<char>, V)>) -> Seq<Seq<char>> {
    kv.map_values(|e: (Seq<char>, V)| e.0)
}

/// The values, in order.
pub open spec fn values_of<V>(kv: Seq<(Seq<char>, V)>) -> Seq<V> {
    kv.map_values(|e: (Seq<char>, V)| e.1)
}

pub proof fn lemma_key_pos_found<V>(kv: Seq<(Seq<char>, V)>, k: Seq<char>, i: int)
    requires
        0 <= i < kv.len(),
        kv[i].0 == k,
        forall|j: int| 0 <= j < i ==> kv[j].0 != k,
    ensures
        key_pos(kv, k) == Some(i),
    decreases i,
{
    if i > 0 {
        lemma_key_pos_found(kv.drop_first(), k, i - 1);
    }
}

pub proof fn lemma_key_pos_complete<V>(kv: Seq<(Seq<char>, V)>, k: Seq<char>, j: int)
    requires
        0 <= j < kv.len(),
        kv[j].0 == k,
    ensures
        key_pos(kv, k) is Some,
    decreases j,
{
    if kv[0].0 != k {
        lemma_key_pos_complete(kv.drop_first(), k, j - 1);
    }
}

pub proof fn lemma_key_pos_absent<V>(kv: Seq<(Seq<char>, V)>, k: Seq<char>)
    requires
        forall|j: int| 0 <= j < kv.len() ==> kv[j].0 != k,
    ensures
        key_pos(kv, k) is None,
    decreases kv.len(),
{
    if kv.len() > 0 {
        lemma_key_pos_absent(kv.drop_first(), k);
    }
}

/// After storing `v` under `k`, looking `k` up finds `v`.
pub proof fn lemma_insert_lookup<V>(kv: Seq<(Seq<char>, V)>, k: Seq<char>, v: V)
    ensures
        lookup(kv_insert(kv, k, v), k) == Some(v),
{
    let kv2 = kv_insert(kv, k, v);
    match key_pos(kv, k) {
        Some(i) => {
            lemma_key_pos_valid(kv, k);
            assert forall|j: int| 0 <= j < i implies kv2[j].0 != k by {
                lemma_key_pos_first(kv, k, j);
            }
            lemma_key_pos_found(kv2, k, i);
        },
        None => {
            assert forall|j: int| 0 <= j < kv.len() implies kv2[j].0 != k by {
                if kv[j].0 == k {
                    lemma_key_pos_complete(kv, k, j);
                }
            }
            lemma_key_pos_found(kv2, k, kv.len() as int);
        },
    }
}

/// A found position holds the key.
pub proof fn lemma_key_pos_valid<V>(kv: Seq<(Seq<char>, V)>, k: Seq<char>)
    ensures
        key_pos(kv, k) matches Some(i) ==> 0 <= i < kv.len() && kv[i].0 == k,
    decreases kv.len(),
{
    if kv.len() > 0 && kv[0].0 != k {
        lemma_key_pos_valid(kv.drop_first(), k);
    }
}

/// No entry before the found position holds the key.
pub proof fn lemma_key_pos_first<V>(kv: Seq<(Seq<char>, V)>, k: Seq<char>, j: int)
    requires
        key_pos(kv, k) matches Some(i) && 0 <= j < i,
    ensures
        kv[j].0 != k,
    decreases kv.len(),
{
    lemma_key_pos_valid(kv, k);
    assert(kv.len() > 0);
    if kv[0].0 == k {
        assert(key_pos(kv, k) == Some(0int));
    } else if j > 0 {
        lemma_key_pos_first(kv.drop_first(), k, j - 1);
        assert(kv[j] == kv.drop_first()[j - 1]);
    }
}

/// A string-keyed map whose keys are distinct and whose entries keep the
/// order in which their keys were first inserted.
#[derive(Debug)]
pub struct StrMap<V> {
    entries: Vec<(String, V)>,
}

impl<V> View for StrMap<V> {
    type V = Seq<(Seq<char>, V)>;

    closed spec fn view(&self) -> Seq<(Seq<char>, V)> {
        Seq::new(self.entries@.len(), |i: int| (self.entries@[i].0@, self.entries@[i].1))
    }
}

impl<V> StrMap<V> {
    #[verifier::type_invariant]
    closed spec fn inv(self) -> bool {
        distinct_keys(self@)
    }

    /// An empty map.
    pub fn new() -> (m: Self)
        ensures
            m@ == Seq::<(Seq<char>, V)>::empty(),
    {
        let m = StrMap { entries: Vec::new() };
        assert(m@ =~= Seq::<(Seq<char>, V)>::empty());
        m
    }

    /// Number of entries.
    pub fn len(&self) -> (n: usize)
        ensures
            n == self@.len(),
    {
        self.entries.len()
    }

    /// Position of `key`, if present.
    pub fn position(&self, key: &str) -> (r: Option<usize>)
        ensures
            distinct_keys(self@),
            match r {
                Some(i) => key_pos(self@, key@) == Some(i as int) && i < self@.len() && self@[i as int].0
                    == key@,
                None => key_pos(self@, key@) is None,
            },
    {
        proof {
            use_type_invariant(self);
        }
        let mut i: usize = 0;
        while i < self.entries.len()
            invariant
                i <= self.entries.len(),
                distinct_keys(self@),
                forall|j: int| 0 <= j < i ==> self@[j].0 != key@,
            decreases self.entries.len() - i,
        {
            if str_eq(self.entries[i].0.as_str(), key) {
                proof {
                    lemma_key_pos_found(self@, key@, i as int);
                }
                return Some(i);
            }
            i += 1;
        }
        proof {
            lemma_key_pos_absent(self@, key@);
        }
        None
    }

    /// The value stored under `key`.
    pub fn get(&self, key: &str) -> (r: Option<&V>)
        ensures
            distinct_keys(self@),
            match r {
                Some(v) => lookup(self@, key@) == Some(*v),
                None => lookup(self@, key@) is None,
            },
    {
        match self.position(key) {
            Some(i) => Some(&self.entries[i].1),
            None => None,
        }
    }

    /// The key at position `i`.
    pub fn key_at(&self, i: usize) -> (k: &String)
        requires
            i < self@.len(),
        ensures
            k@ == self@[i as int].0,
    {
        &self.entries[i].0
    }

    /// The value at position `i`.
    pub fn value_at(&self, i: usize) -> (v: &V)
        requires
            i < self@.len(),
        ensures
            *v == self@[i as int].1,
    {
        &self.entries[i].1
    }

    /// Stores `value` under `key`.
    pub fn insert(&mut self, key: String, value: V)
        ensures
            final(self)@ == kv_insert(old(self)@, key@, value),
            distinct_keys(final(self)@),
    {
        proof {
            use_type_invariant(&*self);
        }
        match self.position(key.as_str()) {
            Some(i) => {
                self.replace_entry(i, key, value);
            },
            None => {
                self.push_entry(key, value);
            },
        }
        proof {
            use_type_invariant(&*self);
        }
    }

    /// Replaces the value at position `i`.
    pub fn replace_value(&mut self, i: usize, value: V)
        requires
            i < old(self)@.len(),
        ensures
            final(self)@ == old(self)@.update(i as int, (old(self)@[i as int].0, value)),
    {
        proof {
            use_type_invariant(&*self);
        }
        let ghost before = self@;
        let mut entries: Vec<(String, V)> = Vec::new();
        std::mem::swap(&mut entries, &mut self.entries);
        let (k, _old) = entries.remove(i);
        entries.insert(i, (k, value));
        assert(Seq::new(entries@.len(), |j: int| (entries@[j].0@, entries@[j].1)) =~= before.update(
            i as int,
            (before[i as int].0, value),
        ));
        self.entries = entries;
    }

    fn replace_entry(&mut self, i: usize, key: String, value: V)
        requires
            i < old(self)@.len(),
            old(self)@[i as int].0 == key@,
        ensures
            final(self)@ == old(self)@.update(i as int, (key@, value)),
    {
        self.replace_value(i, value);
    }

    fn push_entry(&mut self, key: String, value: V)
        requires
            key_pos(old(self)@, key@) is None,
        ensures
            final(self)@ == old(self)@.push((key@, value)),
    {
        proof {
            use_type_invariant(&*self);
        }
        let ghost before = self@;
        let ghost k = key@;
        proof {
            assert forall|j: int| 0 <= j < before.len() implies before[j].0 != k by {
                if before[j].0 == k {
                    lemma_key_pos_complete(before, k, j);
                }
            }
        }
        let mut entries: Vec<(String, V)> = Vec::new();
        std::mem::swap(&mut entries, &mut self.entries);
        entries.push((key, value));
        assert(Seq::new(entries@.len(), |j: int| (entries@[j].0@, entries@[j].1)) =~= before.push(
            (k, value),
        ));
        self.entries = entries;
    }

    /// A copy of the map, for values that are copied bit for bit.
    pub fn copy(&self) -> (r: Self)
        where V: Copy,
        ensures
            r@ == self@,
    {
        proof {
            use_type_invariant(self);
        }
        let mut entries: Vec<(String, V)> = Vec::new();
        let mut i: usize = 0;
        while i < self.entries.len()
            invariant
                i <= self.entries@.len(),
                entries@.len() == i,
                forall|j: int| 0 <= j < i ==> #[trigger] entries@[j].0@ == self.entries@[j].0@ && entries@[j].1 == self.entries@[j].1,
            decreases self.entries@.len() - i,
        {
            let k = self.entries[i].0.clone();
            let v = self.entries[i].1;
            entries.push((k, v));
            i += 1;
        }
        let ghost v = Seq::new(entries@.len(), |j: int| (entries@[j].0@, entries@[j].1));
        assert(v =~= self@);
        let r = StrMap { entries };
        assert(r@ =~= self@);
        r
    }

    /// Remove the entry with key `key`, returning its value if there was one.
    pub fn remove(&mut self, key: &str) -> (r: Option<V>)
        ensures
            final(self)@ == kv_remove(old(self)@, key@),
            r == lookup(old(self)@, key@),
            lookup(final(self)@, key@) is None,
    {
        proof {
            use_type_invariant(&*self);
            lemma_remove_lookup(self@, key@);
        }
        match self.position(key) {
            Some(i) => {
                let ghost before = self@;
                let mut entries: Vec<(String, V)> = Vec::new();
                std::mem::swap(&mut entries, &mut self.entries);
                let (_k, v) = entries.remove(i);
                let ghost after = Seq::new(entries@.len(), |j: int| (entries@[j].0@, entries@[j].1));
                assert(after =~= before.remove(i as int));
                assert forall|a: int, b: int| 0 <= a < b < after.len() implies after[a].0 != after[b].0 by {
                    let a2 = if a < i { a } else { a + 1 };
                    let b2 = if b < i { b } else { b + 1 };
                    assert(after[a] == before[a2]);
                    assert(after[b] == before[b2]);
                }
                self.entries = entries;
                assert(self@ =~= after);
                Some(v)
            },
            None => None,
        }
    }

    /// Removes every entry.
    pub fn clear(&mut self)
        ensures
            final(self)@ == Seq::<(Seq<char>, V)>::empty(),
    {
        self.entries = Vec::new();
        assert(self@ =~= Seq::<(Seq<char>, V)>::empty());
    }
}

} // verus!
