//! A small map keyed by strings, kept as an association list with each key once.

use vstd::prelude::*;
use crate::text::{chars_eq, chars_of};

verus! {

/// The map an association list denotes, later pairs overriding earlier ones.
pub open spec fn entries_map<V>(e: Seq<(String, V)>) -> Map<Seq<char>, V>
    decreases e.len(),
{
    if e.len() == 0 {
        Map::empty()
    } else {
        entries_map(e.drop_last()).insert(e.last().0@, e.last().1)
    }
}

/// No key occurs twice.
pub open spec fn distinct_keys<V>(e: Seq<(String, V)>) -> bool {
    forall|i: int, j: int| 0 <= i < j < e.len() ==> e[i].0@ != e[j].0@
}

/// With distinct keys, the map of a list of entries holds exactly the listed keys, each
/// with its entry's value.
pub proof fn lemma_entries_map_key<V>(e: Seq<(String, V)>, k: Seq<char>)
    requires
        distinct_keys(e),
    ensures
        entries_map(e).contains_key(k) <==> exists|i: int| 0 <= i < e.len() && e[i].0@ == k,
        forall|i: int| 0 <= i < e.len() && e[i].0@ == k ==> entries_map(e)[k] == e[i].1,
    decreases e.len(),
{
    if e.len() > 0 {
        let d = e.drop_last();
        assert(distinct_keys(d));
        lemma_entries_map_key(d, k);
        if entries_map(d).contains_key(k) {
            let i = choose|i: int| 0 <= i < d.len() && d[i].0@ == k;
            assert(e[i].0@ == k);
        }
        if exists|i: int| 0 <= i < e.len() && e[i].0@ == k {
            let i = choose|i: int| 0 <= i < e.len() && e[i].0@ == k;
            if i < e.len() - 1 {
                assert(d[i].0@ == k);
            }
        }
    }
}

proof fn lemma_entries_map_update<V>(e: Seq<(String, V)>, j: int, k: String, v: V)
    requires
        distinct_keys(e),
        0 <= j < e.len(),
        e[j].0@ == k@,
    ensures
        entries_map(e.update(j, (k, v))) =~= entries_map(e).insert(k@, v),
    decreases e.len(),
{
    let u = e.update(j, (k, v));
    if j == e.len() - 1 {
        assert(u.drop_last() =~= e.drop_last());
    } else {
        let d = e.drop_last();
        assert(u.drop_last() =~= d.update(j, (k, v)));
        lemma_entries_map_update(d, j, k, v);
        assert(e.last().0@ != k@);
    }
}

proof fn lemma_entries_map_remove<V>(e: Seq<(String, V)>, j: int)
    requires
        distinct_keys(e),
        0 <= j < e.len(),
    ensures
        entries_map(e.remove(j)) =~= entries_map(e).remove(e[j].0@),
        distinct_keys(e.remove(j)),
    decreases e.len(),
{
    let r = e.remove(j);
    let k = e[j].0@;
    if j == e.len() - 1 {
        assert(r =~= e.drop_last());
        lemma_entries_map_key(e.drop_last(), k);
        assert(!entries_map(e.drop_last()).contains_key(k));
    } else {
        let d = e.drop_last();
        assert(r.drop_last() =~= d.remove(j));
        assert(r.last() == e.last());
        lemma_entries_map_remove(d, j);
        assert(e.last().0@ != k);
    }
    assert forall|a: int, b: int| 0 <= a < b < r.len() implies r[a].0@ != r[b].0@ by {
        let a2 = if a < j { a } else { a + 1 };
        let b2 = if b < j { b } else { b + 1 };
        assert(r[a] == e[a2]);
        assert(r[b] == e[b2]);
    }
}

proof fn lemma_entries_map_len<V>(e: Seq<(String, V)>)
    requires
        distinct_keys(e),
    ensures
        entries_map(e).dom().finite(),
        entries_map(e).dom().len() == e.len(),
    decreases e.len(),
{
    if e.len() > 0 {
        let d = e.drop_last();
        lemma_entries_map_len(d);
        lemma_entries_map_key(d, e.last().0@);
        assert(!entries_map(d).contains_key(e.last().0@));
        assert(entries_map(e).dom() =~= entries_map(d).dom().insert(e.last().0@));
    } else {
        assert(entries_map(e).dom() =~= Set::<Seq<char>>::empty());
    }
}

/// A map from strings to values.
#[derive(Debug, Clone)]
pub struct StrMap<V> {
    entries: Vec<(String, V)>,
}

impl<V> View for StrMap<V> {
    type V = Map<Seq<char>, V>;

    closed spec fn view(&self) -> Map<Seq<char>, V> {
        entries_map(self.entries@)
    }
}

impl<V> StrMap<V> {
    pub closed spec fn wf(&self) -> bool {
        distinct_keys(self.entries@)
    }

    pub fn new() -> (r: StrMap<V>)
        ensures
            r.wf(),
            r@ == Map::<Seq<char>, V>::empty(),
    {
        StrMap { entries: Vec::new() }
    }

    fn find(&self, key: &str) -> (r: Option<usize>)
        requires
            self.wf(),
        ensures
            r is Some ==> r->0 < self.entries.len() && self.entries@[r->0 as int].0@ == key@,
            r is None ==> forall|i: int| 0 <= i < self.entries.len() ==> self.entries@[i].0@ != key@,
    {
        let kv = chars_of(key);
        let mut i: usize = 0;
        while i < self.entries.len()
            invariant
                kv@ == key@,
                i <= self.entries.len(),
                forall|j: int| 0 <= j < i ==> self.entries@[j].0@ != key@,
            decreases self.entries.len() - i,
        {
            let ek = chars_of(self.entries[i].0.as_str());
            if chars_eq(&ek, &kv) {
                return Some(i);
            }
            i = i + 1;
        }
        None
    }

    /// Sets `key` to `value`, replacing an earlier value.
    pub fn insert(&mut self, key: String, value: V)
        requires
            old(self).wf(),
        ensures
            final(self).wf(),
            final(self)@ == old(self)@.insert(key@, value),
    {
        match self.find(key.as_str()) {
            Some(j) => {
                proof {
                    lemma_entries_map_update(self.entries@, j as int, key, value);
                }
                let ghost before = self.entries@;
                self.entries.set(j, (key, value));
                assert(self.entries@ =~= before.update(j as int, (key, value)));
                assert(distinct_keys(self.entries@)) by {
                    assert forall|a: int, b: int| 0 <= a < b < self.entries@.len() implies self.entries@[a].0@
                        != self.entries@[b].0@ by {
                        if a != j as int && b != j as int {
                            assert(self.entries@[a] == before[a]);
                            assert(self.entries@[b] == before[b]);
                        }
                    }
                }
            },
            None => {
                let ghost before = self.entries@;
                self.entries.push((key, value));
                assert(self.entries@.drop_last() =~= before);
            },
        }
    }

    /// Removes `key` if present.
    pub fn remove(&mut self, key: &str)
        requires
            old(self).wf(),
        ensures
            final(self).wf(),
            final(self)@ == old(self)@.remove(key@),
    {
        match self.find(key) {
            Some(j) => {
                proof {
                    lemma_entries_map_remove(self.entries@, j as int);
                }
                self.entries.remove(j);
            },
            None => {
                proof {
                    lemma_entries_map_key(self.entries@, key@);
                }
                assert(old(self)@.remove(key@) =~= old(self)@);
            },
        }
    }

    /// The value of `key`, if present.
    pub fn get(&self, key: &str) -> (r: Option<&V>)
        requires
            self.wf(),
        ensures
            r is Some <==> self@.contains_key(key@),
            r is Some ==> *r->0 == self@[key@],
    {
        proof {
            lemma_entries_map_key(self.entries@, key@);
        }
        match self.find(key) {
            Some(j) => Some(&self.entries[j].1),
            None => None,
        }
    }

    /// Whether `key` is present.
    pub fn contains_key(&self, key: &str) -> (r: bool)
        requires
            self.wf(),
        ensures
            r == self@.contains_key(key@),
    {
        proof {
            lemma_entries_map_key(self.entries@, key@);
        }
        self.find(key).is_some()
    }

    /// The number of keys.
    pub fn len(&self) -> (r: usize)
        requires
            self.wf(),
        ensures
            r == self@.dom().len(),
    {
        proof {
            lemma_entries_map_len(self.entries@);
        }
        self.entries.len()
    }

    /// The keys, each once.
    pub fn keys(&self) -> (r: Vec<String>)
        requires
            self.wf(),
        ensures
            r@.len() == self@.dom().len(),
            forall|i: int| 0 <= i < r@.len() ==> self@.contains_key(#[trigger] r@[i]@),
            forall|k: Seq<char>| self@.contains_key(k) ==> exists|i: int| 0 <= i < r@.len() && r@[i]@ == k,
            forall|i: int, j: int| 0 <= i < j < r@.len() ==> r@[i]@ != r@[j]@,
    {
        proof {
            lemma_entries_map_len(self.entries@);
        }
        let mut r: Vec<String> = Vec::new();
        let mut i: usize = 0;
        while i < self.entries.len()
            invariant
                self.wf(),
                i <= self.entries.len(),
                r@.len() == i,
                forall|j: int| 0 <= j < i ==> #[trigger] r@[j]@ == self.entries@[j].0@,
            decreases self.entries.len() - i,
        {
            r.push(self.entries[i].0.clone());
            i = i + 1;
        }
        proof {
            assert forall|a: int| 0 <= a < r@.len() implies self@.contains_key(#[trigger] r@[a]@) by {
                lemma_entries_map_key(self.entries@, r@[a]@);
            }
            assert forall|k: Seq<char>| self@.contains_key(k) implies exists|a: int|
                0 <= a < r@.len() && r@[a]@ == k by {
                lemma_entries_map_key(self.entries@, k);
                let a = choose|a: int| 0 <= a < self.entries@.len() && self.entries@[a].0@ == k;
                assert(r@[a]@ == k);
            }
        }
        r
    }
}

} // verus!
