//! A keyed table: a finite partial function from keys to values, held as a
//! list of entries in which no key occurs twice.
//!
//! The keys of the protocol store are identifiers and paths: structs over
//! strings and numbers. A table finds an entry by comparing keys with `same`,
//! whose contract says that it goes by the key's view, so what a lookup or a
//! change does is proved from the keys' own contracts and rests on no
//! ordering or hashing of theirs. The entries stand in the order in which
//! their keys first came in; a listing that is to come out in another order,
//! as the consensus states of a client by height, is put into it where it is
//! made.

use vstd::prelude::*;

verus! {

/// A value that a table can hold: its view is what contracts speak of, and a
/// copy of it has the same view.
pub trait Stored: Sized + View {
    /// Another value with the same view.
    fn duplicate(&self) -> (r: Self)
        ensures
            r@ == self@,
    ;
}

/// A key of a table: a value whose view says which entry it names.
pub trait Key: Stored {
    /// Whether `self` and `other` name the same entry.
    fn same(&self, other: &Self) -> (r: bool)
        ensures
            r == (self@ == other@),
    ;
}

/// Whether entry `i` of `s` is the one for key `k`.
pub open spec fn entry_for<K: Key, V: Stored>(s: Seq<(K, V)>, k: K::V, i: int) -> bool {
    0 <= i < s.len() && s[i].0@ == k
}

/// No two entries of `s` have the same key.
pub open spec fn distinct_keys<K: Key, V: Stored>(s: Seq<(K, V)>) -> bool {
    forall|i: int, j: int| 0 <= i < j < s.len() ==> s[i].0@ != s[j].0@
}

/// The partial function that the entries `s` stand for.
pub open spec fn entries_map<K: Key, V: Stored>(s: Seq<(K, V)>) -> Map<K::V, V::V> {
    Map::new(
        |k: K::V| exists|i: int| entry_for(s, k, i),
        |k: K::V| s[choose|i: int| entry_for(s, k, i)].1@,
    )
}

/// Where keys are distinct, entry `i` is what the map holds for its key.
pub proof fn lemma_entry_in_map<K: Key, V: Stored>(s: Seq<(K, V)>, i: int)
    requires
        distinct_keys(s),
        0 <= i < s.len(),
    ensures
        entries_map(s).contains_key(s[i].0@),
        entries_map(s)[s[i].0@] == s[i].1@,
{
    let k = s[i].0@;
    assert(entry_for(s, k, i));
    let j = choose|j: int| entry_for(s, k, j);
    assert(entry_for(s, k, j));
    if i < j {
        assert(s[i].0@ != s[j].0@);
    } else if j < i {
        assert(s[j].0@ != s[i].0@);
    }
}

/// Appending an entry with a fresh key inserts it into the map.
pub proof fn lemma_push_fresh<K: Key, V: Stored>(s: Seq<(K, V)>, k: K, v: V)
    requires
        distinct_keys(s),
        !entries_map(s).contains_key(k@),
    ensures
        distinct_keys(s.push((k, v))),
        entries_map(s.push((k, v))) == entries_map(s).insert(k@, v@),
{
    let t = s.push((k, v));
    assert forall|i: int, j: int| 0 <= i < j < t.len() implies t[i].0@ != t[j].0@ by {
        if j == s.len() {
            if t[i].0@ == k@ {
                assert(entry_for(s, k@, i));
            }
        }
    }
    let m = entries_map(s).insert(k@, v@);
    assert forall|x: K::V| entries_map(t).contains_key(x) <==> m.contains_key(x) by {
        if entries_map(t).contains_key(x) {
            let i = choose|i: int| entry_for(t, x, i);
            if i < s.len() {
                assert(entry_for(s, x, i));
            }
        }
        if m.contains_key(x) {
            if x == k@ {
                assert(entry_for(t, x, s.len() as int));
            } else {
                let i = choose|i: int| entry_for(s, x, i);
                assert(entry_for(t, x, i));
            }
        }
    }
    assert forall|x: K::V| entries_map(t).contains_key(x) implies entries_map(t)[x] == m[x] by {
        let i = choose|i: int| entry_for(t, x, i);
        lemma_entry_in_map(t, i);
        if i < s.len() {
            lemma_entry_in_map(s, i);
        }
    }
    assert(entries_map(t) =~= m);
}

/// Replacing the value of entry `i` overwrites the map at its key.
pub proof fn lemma_update_entry<K: Key, V: Stored>(s: Seq<(K, V)>, i: int, k: K, v: V)
    requires
        distinct_keys(s),
        0 <= i < s.len(),
        s[i].0@ == k@,
    ensures
        distinct_keys(s.update(i, (k, v))),
        entries_map(s.update(i, (k, v))) == entries_map(s).insert(k@, v@),
{
    let t = s.update(i, (k, v));
    assert forall|a: int, b: int| 0 <= a < b < t.len() implies t[a].0@ != t[b].0@ by {
        assert(s[a].0@ != s[b].0@);
    }
    let m = entries_map(s).insert(k@, v@);
    assert forall|x: K::V| entries_map(t).contains_key(x) <==> m.contains_key(x) by {
        if entries_map(t).contains_key(x) {
            let j = choose|j: int| entry_for(t, x, j);
            assert(entry_for(s, x, j));
        }
        if m.contains_key(x) {
            if x == k@ {
                assert(entry_for(t, x, i));
            } else {
                let j = choose|j: int| entry_for(s, x, j);
                assert(entry_for(t, x, j));
            }
        }
    }
    assert forall|x: K::V| entries_map(t).contains_key(x) implies entries_map(t)[x] == m[x] by {
        let j = choose|j: int| entry_for(t, x, j);
        lemma_entry_in_map(t, j);
        lemma_entry_in_map(s, j);
    }
    assert(entries_map(t) =~= m);
}

/// Taking entry `i` out removes its key from the map.
pub proof fn lemma_remove_entry<K: Key, V: Stored>(s: Seq<(K, V)>, i: int)
    requires
        distinct_keys(s),
        0 <= i < s.len(),
    ensures
        distinct_keys(s.remove(i)),
        entries_map(s.remove(i)) == entries_map(s).remove(s[i].0@),
{
    let t = s.remove(i);
    let k = s[i].0@;
    assert forall|a: int, b: int| 0 <= a < b < t.len() implies t[a].0@ != t[b].0@ by {
        let a0 = if a < i { a } else { a + 1 };
        let b0 = if b < i { b } else { b + 1 };
        assert(t[a] == s[a0]);
        assert(t[b] == s[b0]);
        assert(s[a0].0@ != s[b0].0@);
    }
    let m = entries_map(s).remove(k);
    assert forall|x: K::V| entries_map(t).contains_key(x) <==> m.contains_key(x) by {
        if entries_map(t).contains_key(x) {
            let j = choose|j: int| entry_for(t, x, j);
            let j0 = if j < i { j } else { j + 1 };
            assert(t[j] == s[j0]);
            assert(entry_for(s, x, j0));
            if j0 < i {
                assert(s[j0].0@ != s[i].0@);
            } else {
                assert(s[i].0@ != s[j0].0@);
            }
        }
        if m.contains_key(x) {
            let j = choose|j: int| entry_for(s, x, j);
            assert(j != i);
            let j1 = if j < i { j } else { j - 1 };
            assert(t[j1] == s[j]);
            assert(entry_for(t, x, j1));
        }
    }
    assert forall|x: K::V| entries_map(t).contains_key(x) implies entries_map(t)[x] == m[x] by {
        let j = choose|j: int| entry_for(t, x, j);
        let j0 = if j < i { j } else { j + 1 };
        assert(t[j] == s[j0]);
        lemma_entry_in_map(t, j);
        lemma_entry_in_map(s, j0);
    }
    assert(entries_map(t) =~= m);
}

/// A finite partial function from keys to values.
#[derive(Debug)]
pub struct Table<K: Key, V: Stored> {
    entries: Vec<(K, V)>,
}

impl<K: Key, V: Stored> View for Table<K, V> {
    type V = Map<K::V, V::V>;

    closed spec fn view(&self) -> Map<K::V, V::V> {
        entries_map(self.entries@)
    }
}

impl<K: Key, V: Stored> Table<K, V> {
    #[verifier::type_invariant]
    spec fn well_formed(self) -> bool {
        distinct_keys(self.entries@)
    }

    /// The entries in the order in which their keys first came in.
    pub closed spec fn entries(self) -> Seq<(K, V)> {
        self.entries@
    }

    /// The empty table.
    pub fn new() -> (r: Self)
        ensures
            r@ == Map::<K::V, V::V>::empty(),
            r.entries().len() == 0,
    {
        let r = Table { entries: Vec::new() };
        assert(r@ =~= Map::<K::V, V::V>::empty());
        r
    }

    /// The number of entries.
    pub fn len(&self) -> (n: usize)
        ensures
            n == self.entries().len(),
            distinct_keys(self.entries()),
            self@ == entries_map(self.entries()),
    {
        proof {
            use_type_invariant(self);
        }
        self.entries.len()
    }

    /// The place of the entry for `key`, if there is one.
    fn position(&self, key: &K) -> (r: Option<usize>)
        ensures
            match r {
                Some(i) => entry_for(self.entries@, key@, i as int),
                None => !self@.contains_key(key@),
            },
    {
        let mut i: usize = 0;
        while i < self.entries.len()
            invariant
                i <= self.entries.len(),
                forall|j: int| 0 <= j < i ==> self.entries@[j].0@ != key@,
            decreases self.entries.len() - i,
        {
            if self.entries[i].0.same(key) {
                return Some(i);
            }
            i += 1;
        }
        None
    }

    /// Whether the table has an entry for `key`.
    pub fn contains_key(&self, key: &K) -> (r: bool)
        ensures
            r == self@.contains_key(key@),
    {
        proof {
            use_type_invariant(self);
        }
        match self.position(key) {
            Some(i) => {
                proof {
                    lemma_entry_in_map(self.entries@, i as int);
                }
                true
            },
            None => false,
        }
    }

    /// The value for `key`, if there is one.
    pub fn get(&self, key: &K) -> (r: Option<&V>)
        ensures
            self@.contains_key(key@) ==> r is Some && r.unwrap()@ == self@[key@],
            !self@.contains_key(key@) ==> r is None,
    {
        proof {
            use_type_invariant(self);
        }
        match self.position(key) {
            Some(i) => {
                proof {
                    lemma_entry_in_map(self.entries@, i as int);
                }
                Some(&self.entries[i].1)
            },
            None => None,
        }
    }

    /// The key and value at place `i` of the listing.
    pub fn entry_at(&self, i: usize) -> (r: (&K, &V))
        requires
            i < self.entries().len(),
        ensures
            *r.0 == self.entries()[i as int].0,
            *r.1 == self.entries()[i as int].1,
            self@.contains_key(r.0@),
            self@[r.0@] == r.1@,
            distinct_keys(self.entries()),
            self@ == entries_map(self.entries()),
    {
        proof {
            use_type_invariant(self);
            lemma_entry_in_map(self.entries@, i as int);
        }
        (&self.entries[i].0, &self.entries[i].1)
    }

    /// Sets the value for `key`, replacing what was there.
    pub fn insert(&mut self, key: K, value: V)
        ensures
            final(self)@ == old(self)@.insert(key@, value@),
    {
        proof {
            use_type_invariant(&*self);
        }
        let found = self.position(&key);
        let mut entries: Vec<(K, V)> = Vec::new();
        std::mem::swap(&mut entries, &mut self.entries);
        match found {
            Some(i) => {
                proof {
                    lemma_update_entry(entries@, i as int, key, value);
                }
                entries.set(i, (key, value));
            },
            None => {
                proof {
                    lemma_push_fresh(entries@, key, value);
                }
                entries.push((key, value));
            },
        }
        self.entries = entries;
    }

    /// Takes the entry for `key` out and hands its value back.
    pub fn remove(&mut self, key: &K) -> (r: Option<V>)
        ensures
            final(self)@ == old(self)@.remove(key@),
            old(self)@.contains_key(key@) ==> r is Some && r.unwrap()@ == old(self)@[key@],
            !old(self)@.contains_key(key@) ==> r is None,
    {
        proof {
            use_type_invariant(&*self);
        }
        let found = self.position(key);
        match found {
            Some(i) => {
                let mut entries: Vec<(K, V)> = Vec::new();
                std::mem::swap(&mut entries, &mut self.entries);
                proof {
                    lemma_remove_entry(entries@, i as int);
                    lemma_entry_in_map(entries@, i as int);
                }
                let (_, v) = entries.remove(i);
                self.entries = entries;
                Some(v)
            },
            None => {
                assert(self@ =~= old(self)@.remove(key@));
                None
            },
        }
    }
    /// A copy of the keys, in listing order.
    pub fn keys(&self) -> (r: Vec<K>)
        ensures
            r@.len() == self.entries().len(),
            forall|i: int| 0 <= i < r@.len() ==> (#[trigger] r@[i])@ == self.entries()[i].0@,
            forall|i: int| 0 <= i < r@.len() ==> self@.contains_key((#[trigger] r@[i])@),
            forall|k: K::V| self@.contains_key(k) ==> exists|i: int| 0 <= i < r@.len() && r@[i]@ == k,
            forall|i: int, j: int| 0 <= i < j < r@.len() ==> r@[i]@ != r@[j]@,
    {
        proof {
            use_type_invariant(self);
        }
        let mut out: Vec<K> = Vec::new();
        let mut i: usize = 0;
        while i < self.entries.len()
            invariant
                i <= self.entries.len(),
                out@.len() == i,
                forall|j: int| 0 <= j < i ==> (#[trigger] out@[j])@ == self.entries@[j].0@,
            decreases self.entries.len() - i,
        {
            out.push(self.entries[i].0.duplicate());
            i += 1;
        }
        proof {
            assert forall|j: int| 0 <= j < out@.len() implies self@.contains_key(
                (#[trigger] out@[j])@,
            ) by {
                lemma_entry_in_map(self.entries@, j);
            }
            assert forall|k: K::V| self@.contains_key(k) implies exists|j: int|
                0 <= j < out@.len() && out@[j]@ == k by {
                let j = choose|j: int| entry_for(self.entries@, k, j);
                assert(out@[j]@ == k);
            }
        }
        out
    }
}

impl<K: Key, V: Stored> Clone for Table<K, V> {
    /// A table with the same contents.
    fn clone(&self) -> (r: Self)
        ensures
            r@ == self@,
    {
        proof {
            use_type_invariant(self);
        }
        let mut entries: Vec<(K, V)> = Vec::new();
        let mut i: usize = 0;
        while i < self.entries.len()
            invariant
                i <= self.entries.len(),
                entries@.len() == i,
                forall|j: int|
                    0 <= j < i ==> (#[trigger] entries@[j]).0@ == self.entries@[j].0@
                        && entries@[j].1@ == self.entries@[j].1@,
            decreases self.entries.len() - i,
        {
            entries.push((self.entries[i].0.duplicate(), self.entries[i].1.duplicate()));
            i += 1;
        }
        proof {
            let s = self.entries@;
            let t = entries@;
            assert forall|a: int, b: int| 0 <= a < b < t.len() implies t[a].0@ != t[b].0@ by {
                assert(s[a].0@ != s[b].0@);
            }
            assert forall|k: K::V| entries_map(t).contains_key(k) <==> entries_map(
                s,
            ).contains_key(k) by {
                if entries_map(t).contains_key(k) {
                    let j = choose|j: int| entry_for(t, k, j);
                    assert(entry_for(s, k, j));
                }
                if entries_map(s).contains_key(k) {
                    let j = choose|j: int| entry_for(s, k, j);
                    assert(entry_for(t, k, j));
                }
            }
            assert forall|k: K::V| entries_map(t).contains_key(k) implies entries_map(t)[k]
                == entries_map(s)[k] by {
                let j = choose|j: int| entry_for(t, k, j);
                lemma_entry_in_map(t, j);
                lemma_entry_in_map(s, j);
            }
            assert(entries_map(t) =~= entries_map(s));
        }
        Table { entries }
    }
}

} // verus!
