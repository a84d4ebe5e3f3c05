use vstd::prelude::*;

use crate::text::str_eq;

verus! {

/// The map that a list of keyed entries stands for, later entries taking precedence.
pub open spec fn entries_map<V>(s: Seq<(String, V)>) -> Map<Seq<char>, V>
    decreases s.len(),
{
    if s.len() == 0 {
        Map::empty()
    } else {
        entries_map(s.drop_last()).insert(s.last().0@, s.last().1)
    }
}

/// No two entries share a key.
pub open spec fn keys_unique<V>(s: Seq<(String, V)>) -> bool {
    forall|i: int, j: int| 0 <= i < j < s.len() ==> (#[trigger] s[i]).0@ != (#[trigger] s[j]).0@
}

proof fn lemma_map_finite<V>(s: Seq<(String, V)>)
    ensures
        entries_map(s).dom().finite(),
    decreases s.len(),
{
    if s.len() > 0 {
        lemma_map_finite(s.drop_last());
    }
}

proof fn lemma_map_len<V>(s: Seq<(String, V)>)
    requires
        keys_unique(s),
    ensures
        entries_map(s).dom().len() == s.len(),
    decreases s.len(),
{
    if s.len() > 0 {
        let t = s.drop_last();
        assert(keys_unique(t));
        lemma_map_len(t);
        lemma_map_finite(t);
        lemma_map_contains(t, s.last().0@);
        assert forall|j: int| 0 <= j < t.len() implies (#[trigger] t[j]).0@ != s.last().0@ by {
            assert(s[j].0@ != s[s.len() - 1].0@);
        }
    }
}

/// A key is in the map of unique entries exactly when an entry has it, and
/// then maps to that entry's value.
pub proof fn lemma_map_contains<V>(s: Seq<(String, V)>, k: Seq<char>)
    requires
        keys_unique(s),
    ensures
        entries_map(s).contains_key(k) <==> exists|i: int| 0 <= i < s.len() && (#[trigger] s[i]).0@ == k,
        forall|i: int| 0 <= i < s.len() && (#[trigger] s[i]).0@ == k ==> entries_map(s)[k] == s[i].1,
    decreases s.len(),
{
    if s.len() > 0 {
        let t = s.drop_last();
        assert(keys_unique(t));
        lemma_map_contains(t, k);
        if s.last().0@ == k {
            assert(s[s.len() - 1].0@ == k);
        } else {
            assert forall|i: int| 0 <= i < s.len() && (#[trigger] s[i]).0@ == k implies 0 <= i < t.len() && t[i] == s[i] by {
                if i == s.len() - 1 {
                    assert(s[i] == s.last());
                }
            }
            if entries_map(t).contains_key(k) {
                let i = choose|i: int| 0 <= i < t.len() && (#[trigger] t[i]).0@ == k;
                assert(s[i] == t[i]);
            }
        }
    }
}

proof fn lemma_map_update<V>(s: Seq<(String, V)>, i: int, e: (String, V))
    requires
        keys_unique(s),
        0 <= i < s.len(),
        s[i].0@ == e.0@,
    ensures
        keys_unique(s.update(i, e)),
        entries_map(s.update(i, e)) == entries_map(s).insert(e.0@, e.1),
    decreases s.len(),
{
    let u = s.update(i, e);
    assert(keys_unique(u)) by {
        assert forall|a: int, b: int| 0 <= a < b < u.len() implies (#[trigger] u[a]).0@ != (#[trigger] u[b]).0@ by {
            assert(s[a].0@ != s[b].0@);
        }
    }
    let t = s.drop_last();
    if i == s.len() - 1 {
        assert(u.drop_last() =~= t);
        assert(u.last() == e);
        lemma_map_contains(t, e.0@);
        assert forall|j: int| 0 <= j < t.len() implies (#[trigger] t[j]).0@ != e.0@ by {
            assert(s[j].0@ != s[i].0@);
        }
        assert(entries_map(u) =~= entries_map(s).insert(e.0@, e.1));
    } else {
        assert(keys_unique(t));
        lemma_map_update(t, i, e);
        assert(u.drop_last() =~= t.update(i, e));
        assert(u.last() == s.last());
        assert(s.last().0@ != e.0@) by {
            assert(s[i].0@ != s[s.len() - 1].0@);
        }
        assert(entries_map(u) =~= entries_map(s).insert(e.0@, e.1));
    }
}

proof fn lemma_map_insert_at<V>(s: Seq<(String, V)>, pos: int, e: (String, V))
    requires
        keys_unique(s),
        0 <= pos <= s.len(),
        forall|j: int| 0 <= j < s.len() ==> (#[trigger] s[j]).0@ != e.0@,
    ensures
        keys_unique(s.insert(pos, e)),
        entries_map(s.insert(pos, e)) == entries_map(s).insert(e.0@, e.1),
    decreases s.len(),
{
    let u = s.insert(pos, e);
    assert(keys_unique(u)) by {
        assert forall|a: int, b: int| 0 <= a < b < u.len() implies (#[trigger] u[a]).0@ != (#[trigger] u[b]).0@ by {
            let a2 = if a < pos { a } else { a - 1 };
            let b2 = if b < pos { b } else { b - 1 };
            if a != pos && b != pos {
                assert(u[a] == s[a2] && u[b] == s[b2]);
                assert(s[a2].0@ != s[b2].0@);
            } else if a == pos {
                assert(u[b] == s[b2]);
            } else {
                assert(u[a] == s[a2]);
            }
        }
    }
    if pos == s.len() {
        assert(u =~= s.push(e));
        assert(u.drop_last() =~= s);
    } else {
        let t = s.drop_last();
        assert(keys_unique(t));
        lemma_map_insert_at(t, pos, e);
        assert(u.drop_last() =~= t.insert(pos, e));
        assert(u.last() == s.last());
        assert(s.last().0@ != e.0@);
        assert(entries_map(u) =~= entries_map(s).insert(e.0@, e.1));
    }
}

proof fn lemma_map_remove<V>(s: Seq<(String, V)>, i: int)
    requires
        keys_unique(s),
        0 <= i < s.len(),
    ensures
        keys_unique(s.remove(i)),
        entries_map(s.remove(i)) == entries_map(s).remove(s[i].0@),
    decreases s.len(),
{
    let r = s.remove(i);
    assert(keys_unique(r)) by {
        assert forall|a: int, b: int| 0 <= a < b < r.len() implies (#[trigger] r[a]).0@ != (#[trigger] r[b]).0@ by {
            let a2 = if a < i { a } else { a + 1 };
            let b2 = if b < i { b } else { b + 1 };
            assert(r[a] == s[a2]);
            assert(r[b] == s[b2]);
            assert(s[a2].0@ != s[b2].0@);
        }
    }
    let t = s.drop_last();
    let k = s[i].0@;
    if i == s.len() - 1 {
        assert(r =~= t);
        lemma_map_contains(t, k);
        assert forall|j: int| 0 <= j < t.len() implies (#[trigger] t[j]).0@ != k by {
            assert(s[j].0@ != s[i].0@);
        }
        assert(entries_map(r) =~= entries_map(s).remove(k));
    } else {
        assert(keys_unique(t));
        lemma_map_remove(t, i);
        assert(r.drop_last() =~= t.remove(i));
        assert(r.last() == s.last());
        assert(s.last().0@ != k) by {
            assert(s[i].0@ != s[s.len() - 1].0@);
        }
        assert(entries_map(r) =~= entries_map(s).remove(k));
    }
}

/// A map from string keys to values, kept as a list of entries in the order the
/// keys were first added.
#[derive(Debug)]
pub struct KeyedStore<V> {
    entries: Vec<(String, V)>,
}

impl<V> KeyedStore<V> {
    /// No two entries share a key; every store keeps this.
    #[verifier::type_invariant]
    pub closed spec fn inv(self) -> bool {
        keys_unique(self.entries@)
    }

    /// A store that keeps its invariant has no two entries with one key.
    pub proof fn lemma_keys_unique(self)
        requires
            self.inv(),
        ensures
            keys_unique(self.entries()),
    {
    }

    /// The entries, in the order their keys were first added.
    pub closed spec fn entries(self) -> Seq<(String, V)> {
        self.entries@
    }

    /// The map of keys to values.
    pub closed spec fn map(self) -> Map<Seq<char>, V> {
        entries_map(self.entries@)
    }

    /// The map is the one that the entries stand for.
    pub proof fn lemma_map_of_entries(self)
        ensures
            self.map() == entries_map(self.entries()),
    {
    }

    /// What a read gives back of a write: after `insert(k, v)`, `get(k)` finds
    /// `v`; after `remove(k)`, `get(k)` finds nothing; either way every other key
    /// finds what it found before.
    pub proof fn lemma_read_after_write(self, k: Seq<char>, v: V, other: Seq<char>)
        requires
            other != k,
        ensures
            self.map().insert(k, v).contains_key(k),
            self.map().insert(k, v)[k] == v,
            self.map().insert(k, v).contains_key(other) == self.map().contains_key(other),
            self.map().contains_key(other) ==> self.map().insert(k, v)[other] == self.map()[other],
            !self.map().remove(k).contains_key(k),
            self.map().remove(k).contains_key(other) == self.map().contains_key(other),
            self.map().contains_key(other) ==> self.map().remove(k)[other] == self.map()[other],
    {
    }

    /// An empty map.
    pub fn new() -> (r: Self)
        ensures
            r.map() == Map::<Seq<char>, V>::empty(),
            r.entries().len() == 0,
    {
        KeyedStore { entries: Vec::new() }
    }

    /// The number of keys.
    pub fn len(&self) -> (r: usize)
        ensures
            r == self.entries().len(),
            self.map().dom().finite(),
            self.map().dom().len() == r,
    {
        proof {
            use_type_invariant(self);
            lemma_map_finite(self.entries@);
            lemma_map_len(self.entries@);
        }
        self.entries.len()
    }

    fn find(&self, key: &str) -> (r: Option<usize>)
        ensures
            r matches Some(i) ==> i < self.entries@.len() && self.entries@[i as int].0@ == key@,
            r is None ==> forall|i: int| 0 <= i < self.entries@.len() ==> (#[trigger] self.entries@[i]).0@ != key@,
    {
        let mut i: usize = 0;
        while i < self.entries.len()
            invariant
                i <= self.entries@.len(),
                forall|j: int| 0 <= j < i ==> (#[trigger] self.entries@[j]).0@ != key@,
            decreases self.entries@.len() - i,
        {
            if str_eq(self.entries[i].0.as_str(), key) {
                return Some(i);
            }
            i = i + 1;
        }
        None
    }

    /// The value for `key`, if there is one.
    pub fn get(&self, key: &str) -> (r: Option<&V>)
        ensures
            r matches Some(v) ==> self.map().contains_key(key@) && *v == self.map()[key@],
            r is None <==> !self.map().contains_key(key@),
    {
        proof {
            use_type_invariant(self);
            lemma_map_contains(self.entries@, key@);
        }
        match self.find(key) {
            Some(i) => Some(&self.entries[i].1),
            None => None,
        }
    }

    /// Whether there is a value for `key`.
    pub fn contains_key(&self, key: &str) -> (r: bool)
        ensures
            r == self.map().contains_key(key@),
    {
        self.get(key).is_some()
    }

    /// The key and value of the entry at position `i`.
    pub fn entry_at(&self, i: usize) -> (r: (&String, &V))
        requires
            i < self.entries().len(),
        ensures
            *r.0 == self.entries()[i as int].0,
            *r.1 == self.entries()[i as int].1,
            self.map().contains_key(r.0@),
            self.map()[r.0@] == *r.1,
    {
        proof {
            use_type_invariant(self);
            lemma_map_contains(self.entries@, self.entries@[i as int].0@);
        }
        let e = &self.entries[i];
        (&e.0, &e.1)
    }

    /// Sets the value for `key`, replacing any value it had.
    pub fn insert(&mut self, key: String, value: V)
        ensures
            final(self).map() == old(self).map().insert(key@, value),
            old(self).map().contains_key(key@) ==> final(self).entries().len() == old(self).entries().len(),
            !old(self).map().contains_key(key@) ==> final(self).entries() == old(self).entries().push((key, value)),
    {
        proof {
            use_type_invariant(&*self);
            lemma_map_contains(self.entries@, key@);
        }
        match self.find(key.as_str()) {
            Some(i) => {
                proof {
                    lemma_map_update(self.entries@, i as int, (key, value));
                }
                let mut es: Vec<(String, V)> = Vec::new();
                std::mem::swap(&mut es, &mut self.entries);
                es.set(i, (key, value));
                self.entries = es;
            },
            None => {
                let ghost e = (key, value);
                assert(keys_unique(self.entries@.push(e))) by {
                    let s = self.entries@.push(e);
                    assert forall|a: int, b: int| 0 <= a < b < s.len() implies (#[trigger] s[a]).0@ != (#[trigger] s[b]).0@ by {
                        if b == s.len() - 1 {
                            assert(s[a] == self.entries@[a]);
                        } else {
                            assert(s[a] == self.entries@[a]);
                            assert(s[b] == self.entries@[b]);
                        }
                    }
                }
                assert(self.entries@.push(e).drop_last() =~= self.entries@);
                let mut es: Vec<(String, V)> = Vec::new();
                std::mem::swap(&mut es, &mut self.entries);
                es.push((key, value));
                self.entries = es;
            },
        }
    }

    /// Runs `f` on the value of `key`, if there is one, and gives back what `f`
    /// answered; the value `f` leaves behind replaces the old one.
    pub fn update_with<R, F: FnOnce(&mut V) -> R>(&mut self, key: &str, f: F) -> (r: Option<R>)
        requires
            forall|v: &mut V| call_requires(f, (v,)),
        ensures
            match r {
                None => !old(self).map().contains_key(key@) && final(self).map() == old(self).map(),
                Some(out) => old(self).map().contains_key(key@) && exists|m: &mut V| {
                    &&& *m == old(self).map()[key@]
                    &&& call_ensures(f, (m,), out)
                    &&& final(self).map() == old(self).map().insert(key@, *final(m))
                },
            },
    {
        let ghost before = self.map();
        match self.take_entry(key) {
            Some((pos, k, mut v)) => {
                let out = f(&mut v);
                self.put_entry(pos, k, v);
                assert(self.map() =~= before.insert(key@, v));
                Some(out)
            },
            None => {
                assert(self.map() =~= before);
                None
            },
        }
    }

    /// Takes out the entry for `key`, with its position, to be put back by `put_entry`.
    pub fn take_entry(&mut self, key: &str) -> (r: Option<(usize, String, V)>)
        ensures
            final(self).map() == old(self).map().remove(key@),
            r matches Some((pos, k, v)) ==> {
                &&& old(self).map().contains_key(key@)
                &&& v == old(self).map()[key@]
                &&& k@ == key@
                &&& pos <= final(self).entries().len()
                &&& final(self).entries() == old(self).entries().remove(pos as int)
                &&& old(self).entries()[pos as int] == (k, v)
            },
            r is None <==> !old(self).map().contains_key(key@),
            r is None ==> final(self).entries() == old(self).entries(),
    {
        proof {
            use_type_invariant(&*self);
            lemma_map_contains(self.entries@, key@);
        }
        match self.find(key) {
            Some(i) => {
                proof {
                    lemma_map_remove(self.entries@, i as int);
                }
                let mut es: Vec<(String, V)> = Vec::new();
                std::mem::swap(&mut es, &mut self.entries);
                let e = es.remove(i);
                self.entries = es;
                Some((i, e.0, e.1))
            },
            None => {
                assert(old(self).map().remove(key@) =~= old(self).map());
                None
            },
        }
    }

    /// Puts an entry back at position `pos`, for a key that has no entry.
    pub fn put_entry(&mut self, pos: usize, key: String, value: V)
        requires
            pos <= old(self).entries().len(),
            !old(self).map().contains_key(key@),
        ensures
            final(self).map() == old(self).map().insert(key@, value),
            final(self).entries() == old(self).entries().insert(pos as int, (key, value)),
    {
        proof {
            use_type_invariant(&*self);
            lemma_map_contains(self.entries@, key@);
            lemma_map_insert_at(self.entries@, pos as int, (key, value));
        }
        let mut es: Vec<(String, V)> = Vec::new();
        std::mem::swap(&mut es, &mut self.entries);
        es.insert(pos, (key, value));
        self.entries = es;
    }

    /// Takes out the value for `key`, if there is one.
    pub fn remove(&mut self, key: &str) -> (r: Option<V>)
        ensures
            final(self).map() == old(self).map().remove(key@),
            r matches Some(v) ==> old(self).map().contains_key(key@) && v == old(self).map()[key@],
            r is None <==> !old(self).map().contains_key(key@),
    {
        proof {
            use_type_invariant(&*self);
            lemma_map_contains(self.entries@, key@);
        }
        match self.find(key) {
            Some(i) => {
                proof {
                    lemma_map_remove(self.entries@, i as int);
                }
                let mut es: Vec<(String, V)> = Vec::new();
                std::mem::swap(&mut es, &mut self.entries);
                let e = es.remove(i);
                self.entries = es;
                Some(e.1)
            },
            None => {
                assert(old(self).map().remove(key@) =~= old(self).map());
                None
            },
        }
    }
}

} // verus!
