//! A table keyed by string identifiers that keeps its entries in the order
//! in which their keys first arrived.
//!
//! The model of a table is its sequence of `(key, value)` pairs, in which no
//! key occurs twice.

use vstd::prelude::*;
use crate::text::str_eq;

verus! {

/// No key occurs at two positions of `s`.
pub open spec fn distinct_keys<T>(s: Seq<(Seq<char>, T)>) -> bool {
    forall|i: int, j: int| 0 <= i < j < s.len() ==> s[i].0 != s[j].0
}

/// Some entry of `s` has the key `k`.
pub open spec fn has_key<T>(s: Seq<(Seq<char>, T)>, k: Seq<char>) -> bool {
    exists|i: int| 0 <= i < s.len() && #[trigger] s[i].0 == k
}

/// A position of the key `k` in `s`; meaningful only when `has_key(s, k)`.
pub open spec fn index_of<T>(s: Seq<(Seq<char>, T)>, k: Seq<char>) -> int {
    choose|i: int| 0 <= i < s.len() && #[trigger] s[i].0 == k
}

/// The value stored under `k`, if any.
pub open spec fn lookup<T>(s: Seq<(Seq<char>, T)>, k: Seq<char>) -> Option<T> {
    if has_key(s, k) {
        Some(s[index_of(s, k)].1)
    } else {
        None
    }
}

/// `s` with `v` stored under `k`: in place where the key is present, at the
/// end where it is new.
pub open spec fn put<T>(s: Seq<(Seq<char>, T)>, k: Seq<char>, v: T) -> Seq<(Seq<char>, T)> {
    if has_key(s, k) {
        s.update(index_of(s, k), (k, v))
    } else {
        s.push((k, v))
    }
}

/// `s` without the entry of key `k`.
pub open spec fn del<T>(s: Seq<(Seq<char>, T)>, k: Seq<char>) -> Seq<(Seq<char>, T)> {
    if has_key(s, k) {
        s.remove(index_of(s, k))
    } else {
        s
    }
}

/// The values of `s`, in order.
pub open spec fn values<T>(s: Seq<(Seq<char>, T)>) -> Seq<T> {
    s.map_values(|e: (Seq<char>, T)| e.1)
}

/// In a table with distinct keys the position of a present key is unique.
pub proof fn lemma_index_unique<T>(s: Seq<(Seq<char>, T)>, k: Seq<char>, i: int)
    requires
        distinct_keys(s),
        0 <= i < s.len(),
        s[i].0 == k,
    ensures
        has_key(s, k),
        index_of(s, k) == i,
{
    let j = index_of(s, k);
    if j < i {
        assert(s[j].0 != s[i].0);
    } else if i < j {
        assert(s[i].0 != s[j].0);
    }
}

/// Storing a value keeps the keys distinct, and the key then holds that value.
pub proof fn lemma_put<T>(s: Seq<(Seq<char>, T)>, k: Seq<char>, v: T)
    requires
        distinct_keys(s),
    ensures
        distinct_keys(put(s, k, v)),
        has_key(put(s, k, v), k),
        lookup(put(s, k, v), k) == Some(v),
        forall|o: Seq<char>| o != k ==> has_key(put(s, k, v), o) == has_key(s, o),
        forall|o: Seq<char>| o != k ==> lookup(put(s, k, v), o) == lookup(s, o),
{
    let t = put(s, k, v);
    let p: int = if has_key(s, k) { index_of(s, k) } else { s.len() as int };
    assert(t.len() > p && t[p] == (k, v));
    assert(forall|i: int| 0 <= i < t.len() && i != p ==> t[i] == s[i]);
    assert(forall|i: int| 0 <= i < s.len() && i != p ==> s[i].0 != k) by {
        if has_key(s, k) {
            assert forall|i: int| 0 <= i < s.len() && i != p implies s[i].0 != k by {
                if s[i].0 == k {
                    lemma_index_unique(s, k, i);
                }
            }
        }
    }
    assert(distinct_keys(t)) by {
        assert forall|i: int, j: int| 0 <= i < j < t.len() implies t[i].0 != t[j].0 by {
            if i != p && j != p {
                assert(s[i].0 != s[j].0);
            }
        }
    }
    lemma_index_unique(t, k, p);
    assert forall|o: Seq<char>| o != k implies has_key(t, o) == has_key(s, o) && lookup(t, o)
        == lookup(s, o) by {
        if has_key(s, o) {
            let i = index_of(s, o);
            assert(t[i] == s[i]);
            lemma_index_unique(t, o, i);
        }
        if has_key(t, o) {
            let i = index_of(t, o);
            assert(i != p);
            assert(s[i].0 == o);
            lemma_index_unique(s, o, i);
        }
    }
}

/// Removing a key keeps the keys distinct, and the key is then absent.
pub proof fn lemma_del<T>(s: Seq<(Seq<char>, T)>, k: Seq<char>)
    requires
        distinct_keys(s),
    ensures
        distinct_keys(del(s, k)),
        !has_key(del(s, k), k),
        forall|o: Seq<char>| o != k ==> has_key(del(s, k), o) == has_key(s, o),
        forall|o: Seq<char>| o != k ==> lookup(del(s, k), o) == lookup(s, o),
{
    let t = del(s, k);
    if has_key(s, k) {
        let p = index_of(s, k);
        assert(forall|i: int| 0 <= i < p ==> t[i] == s[i]);
        assert(forall|i: int| p <= i < t.len() ==> t[i] == s[i + 1]);
        assert forall|i: int| 0 <= i < s.len() && i != p implies s[i].0 != k by {
            if s[i].0 == k {
                lemma_index_unique(s, k, i);
            }
        }
        assert forall|i: int, j: int| 0 <= i < j < t.len() implies t[i].0 != t[j].0 by {
            let a = if i < p { i } else { i + 1 };
            let b = if j < p { j } else { j + 1 };
            assert(s[a].0 != s[b].0);
        }
        assert(!has_key(t, k)) by {
            if has_key(t, k) {
                let i = index_of(t, k);
                let a = if i < p { i } else { i + 1 };
                assert(s[a].0 == k);
            }
        }
        assert forall|o: Seq<char>| o != k implies has_key(t, o) == has_key(s, o) && lookup(t, o)
            == lookup(s, o) by {
            if has_key(s, o) {
                let i = index_of(s, o);
                let a = if i < p { i } else { i - 1 };
                assert(t[a] == s[i]);
                lemma_index_unique(t, o, a);
            }
            if has_key(t, o) {
                let i = index_of(t, o);
                let a = if i < p { i } else { i + 1 };
                assert(s[a] == t[i]);
                lemma_index_unique(s, o, a);
            }
        }
    }
}

/// Storing the same value under the same key twice changes nothing more.
pub proof fn lemma_put_idempotent<T>(s: Seq<(Seq<char>, T)>, k: Seq<char>, v: T)
    requires
        distinct_keys(s),
    ensures
        put(put(s, k, v), k, v) == put(s, k, v),
{
    let t = put(s, k, v);
    lemma_put(s, k, v);
    let p = index_of(t, k);
    assert(t[p].0 == k);
    assert(lookup(t, k) == Some(v));
    assert(t[p] == (k, v));
    assert(t.update(p, (k, v)) =~= t);
}

/// Removing the same key twice changes nothing more.
pub proof fn lemma_del_idempotent<T>(s: Seq<(Seq<char>, T)>, k: Seq<char>)
    requires
        distinct_keys(s),
    ensures
        del(del(s, k), k) == del(s, k),
{
    lemma_del(s, k);
}

/// A value stored over another under the same key leaves no trace of the
/// first.
pub proof fn lemma_put_put<T>(s: Seq<(Seq<char>, T)>, k: Seq<char>, v1: T, v2: T)
    requires
        distinct_keys(s),
    ensures
        put(put(s, k, v1), k, v2) == put(s, k, v2),
{
    let t = put(s, k, v1);
    lemma_put(s, k, v1);
    let p: int = if has_key(s, k) { index_of(s, k) } else { s.len() as int };
    assert(t[p].0 == k);
    lemma_index_unique(t, k, p);
    assert(t.update(p, (k, v2)) =~= put(s, k, v2));
}

/// Removing a key after storing under it is removing it at once.
pub proof fn lemma_del_put<T>(s: Seq<(Seq<char>, T)>, k: Seq<char>, v: T)
    requires
        distinct_keys(s),
        has_key(s, k),
    ensures
        del(put(s, k, v), k) == del(s, k),
{
    let t = put(s, k, v);
    lemma_put(s, k, v);
    let p = index_of(s, k);
    assert(t[p].0 == k);
    lemma_index_unique(t, k, p);
    assert(t.remove(p) =~= s.remove(p));
}

/// What is left after a removal was there before, under another key.
pub proof fn lemma_del_entries<T>(s: Seq<(Seq<char>, T)>, k: Seq<char>)
    requires
        distinct_keys(s),
    ensures
        forall|i: int|
            0 <= i < del(s, k).len() ==> (#[trigger] del(s, k)[i]).0 != k && s.contains(
                del(s, k)[i],
            ),
{
    let t = del(s, k);
    lemma_del(s, k);
    assert forall|i: int| 0 <= i < t.len() implies (#[trigger] t[i]).0 != k && s.contains(
        t[i],
    ) by {
        if has_key(s, k) {
            let p = index_of(s, k);
            let j = if i < p { i } else { i + 1 };
            assert(t[i] == s[j]);
        } else {
            assert(t[i] == s[i]);
        }
    }
}

/// A table from string keys to values.
#[derive(Debug)]
pub struct KeyedStore<V: View> {
    entries: Vec<(String, V)>,
}

impl<V: View> View for KeyedStore<V> {
    type V = Seq<(Seq<char>, V::V)>;

    closed spec fn view(&self) -> Seq<(Seq<char>, V::V)> {
        Seq::new(self.entries@.len(), |i: int| (self.entries@[i].0@, self.entries@[i].1@))
    }
}

impl<V: View> KeyedStore<V> {
    #[verifier::type_invariant]
    spec fn inv(&self) -> bool {
        distinct_keys(self@)
    }

    /// An empty table.
    pub fn new() -> (r: Self)
        ensures
            r@ == Seq::<(Seq<char>, V::V)>::empty(),
    {
        let r = KeyedStore { entries: Vec::new() };
        assert(r@ =~= Seq::<(Seq<char>, V::V)>::empty());
        r
    }

    /// The number of entries.
    pub fn len(&self) -> (r: usize)
        ensures
            r == self@.len(),
            distinct_keys(self@),
    {
        proof {
            use_type_invariant(self);
        }
        self.entries.len()
    }

    /// Whether the table has no entry.
    pub fn is_empty(&self) -> (r: bool)
        ensures
            r == (self@.len() == 0),
    {
        self.entries.len() == 0
    }

    /// The position of `key`, if it is present.
    pub fn position(&self, key: &str) -> (r: Option<usize>)
        ensures
            distinct_keys(self@),
            match r {
                Some(i) => i < self@.len() && has_key(self@, key@) && index_of(self@, key@) == i,
                None => !has_key(self@, key@),
            },
    {
        proof {
            use_type_invariant(self);
        }
        let mut i: usize = 0;
        while i < self.entries.len()
            invariant
                i <= self.entries@.len(),
                self@.len() == self.entries@.len(),
                distinct_keys(self@),
                forall|j: int| 0 <= j < i ==> self@[j].0 != key@,
            decreases self.entries.len() - i,
        {
            if str_eq(self.entries[i].0.as_str(), key) {
                proof {
                    assert(self@[i as int].0 == key@);
                    lemma_index_unique(self@, key@, i as int);
                }
                return Some(i);
            }
            i += 1;
        }
        None
    }

    /// Whether `key` is present.
    pub fn contains_key(&self, key: &str) -> (r: bool)
        ensures
            r == has_key(self@, key@),
    {
        self.position(key).is_some()
    }

    /// The key at position `i`.
    pub fn key_at(&self, i: usize) -> (r: &String)
        requires
            i < self@.len(),
        ensures
            r@ == self@[i as int].0,
    {
        &self.entries[i].0
    }

    /// The value at position `i`.
    pub fn value_at(&self, i: usize) -> (r: &V)
        requires
            i < self@.len(),
        ensures
            r@ == self@[i as int].1,
    {
        &self.entries[i].1
    }

    /// The value stored under `key`.
    pub fn get(&self, key: &str) -> (r: Option<&V>)
        ensures
            match r {
                Some(v) => lookup(self@, key@) == Some(v@),
                None => lookup(self@, key@) is None,
            },
    {
        match self.position(key) {
            Some(i) => Some(&self.entries[i].1),
            None => None,
        }
    }

    /// Stores `value` under `key` and returns the value it replaces.
    pub fn insert(&mut self, key: String, value: V) -> (r: Option<V>)
        ensures
            final(self)@ == put(old(self)@, key@, value@),
            match r {
                Some(v) => lookup(old(self)@, key@) == Some(v@),
                None => lookup(old(self)@, key@) is None,
            },
    {
        proof {
            use_type_invariant(&*self);
            lemma_put(self@, key@, value@);
        }
        let ghost before = self@;
        let ghost k = key@;
        let ghost val = value@;
        let found = self.position(&key);
        let mut entries: Vec<(String, V)> = Vec::new();
        std::mem::swap(&mut self.entries, &mut entries);
        let mut pair = (key, value);
        let r = match found {
            Some(i) => {
                std::mem::swap(&mut entries[i], &mut pair);
                Some(pair.1)
            },
            None => {
                entries.push(pair);
                None
            },
        };
        proof {
            assert(Seq::new(entries@.len(), |i: int| (entries@[i].0@, entries@[i].1@)) =~= put(
                before,
                k,
                val,
            ));
        }
        std::mem::swap(&mut self.entries, &mut entries);
        r
    }

    /// Removes `key` and returns the value it held.
    pub fn remove(&mut self, key: &str) -> (r: Option<V>)
        ensures
            final(self)@ == del(old(self)@, key@),
            match r {
                Some(v) => lookup(old(self)@, key@) == Some(v@),
                None => lookup(old(self)@, key@) is None,
            },
    {
        proof {
            use_type_invariant(&*self);
            lemma_del(self@, key@);
        }
        let ghost before = self@;
        match self.position(key) {
            Some(i) => {
                let mut entries: Vec<(String, V)> = Vec::new();
                std::mem::swap(&mut self.entries, &mut entries);
                let pair = entries.remove(i);
                proof {
                    assert(Seq::new(entries@.len(), |i: int| (entries@[i].0@, entries@[i].1@))
                        =~= del(before, key@));
                }
                std::mem::swap(&mut self.entries, &mut entries);
                Some(pair.1)
            },
            None => None,
        }
    }

    /// Removes the entry at position `i` and returns it.
    pub fn remove_at(&mut self, i: usize) -> (r: (String, V))
        requires
            i < old(self)@.len(),
        ensures
            final(self)@ == old(self)@.remove(i as int),
            r.0@ == old(self)@[i as int].0,
            r.1@ == old(self)@[i as int].1,
    {
        proof {
            use_type_invariant(&*self);
        }
        let ghost before = self@;
        let mut entries: Vec<(String, V)> = Vec::new();
        std::mem::swap(&mut self.entries, &mut entries);
        let pair = entries.remove(i);
        proof {
            let after = Seq::new(entries@.len(), |j: int| (entries@[j].0@, entries@[j].1@));
            assert(after =~= before.remove(i as int));
            assert forall|a: int, b: int| 0 <= a < b < after.len() implies after[a].0
                != after[b].0 by {
                let x = if a < i { a } else { a + 1 };
                let y = if b < i { b } else { b + 1 };
                assert(before[x].0 != before[y].0);
            }
        }
        std::mem::swap(&mut self.entries, &mut entries);
        pair
    }

    /// Removes every entry.
    pub fn clear(&mut self)
        ensures
            final(self)@ == Seq::<(Seq<char>, V::V)>::empty(),
    {
        let mut entries: Vec<(String, V)> = Vec::new();
        std::mem::swap(&mut self.entries, &mut entries);
        assert(self@ =~= Seq::<(Seq<char>, V::V)>::empty());
    }
}

/// Types that can be copied with their view kept.
pub trait Duplicate: View + Sized {
    /// A copy with the same view.
    fn duplicate(&self) -> (r: Self)
        ensures
            r@ == self@,
    ;
}

impl Duplicate for String {
    fn duplicate(&self) -> (r: Self) {
        self.clone()
    }
}

impl<V: Duplicate> KeyedStore<V> {
    /// Copies of the values, in order.
    pub fn values_vec(&self) -> (r: Vec<V>)
        ensures
            r@.map_values(|v: V| v@) == values(self@),
    {
        let mut out: Vec<V> = Vec::new();
        let mut i: usize = 0;
        while i < self.entries.len()
            invariant
                i <= self.entries@.len(),
                self@.len() == self.entries@.len(),
                out@.len() == i,
                forall|j: int| 0 <= j < i ==> out@[j]@ == self@[j].1,
            decreases self.entries.len() - i,
        {
            out.push(self.entries[i].1.duplicate());
            i += 1;
        }
        assert(out@.map_values(|v: V| v@) =~= values(self@));
        out
    }
}

impl<V: Duplicate> Duplicate for KeyedStore<V> {
    fn duplicate(&self) -> (r: Self) {
        proof {
            use_type_invariant(self);
        }
        let mut entries: Vec<(String, V)> = Vec::new();
        let mut i: usize = 0;
        while i < self.entries.len()
            invariant
                i <= self.entries@.len(),
                self@.len() == self.entries@.len(),
                entries@.len() == i,
                forall|j: int|
                    0 <= j < i ==> (entries@[j].0@, entries@[j].1@) == #[trigger] self@[j],
            decreases self.entries.len() - i,
        {
            entries.push((self.entries[i].0.clone(), self.entries[i].1.duplicate()));
            i += 1;
        }
        assert(Seq::new(entries@.len(), |i: int| (entries@[i].0@, entries@[i].1@)) =~= self@);
        KeyedStore { entries }
    }
}

impl<V: Duplicate> Clone for KeyedStore<V> {
    fn clone(&self) -> (r: Self)
        ensures
            r@ == self@,
    {
        self.duplicate()
    }
}

} // verus!
