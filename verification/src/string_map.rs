//! A map keyed by strings, kept as a list of entries whose keys are distinct.

use vstd::prelude::*;
use crate::text::str_eq;

verus! {

/// The keys of a list of entries, in order.
pub open spec fn keys_of<V>(s: Seq<(String, V)>) -> Seq<Seq<char>> {
    s.map_values(|e: (String, V)| e.0@)
}

/// No two entries of the list share a key.
pub open spec fn distinct_keys<V>(s: Seq<(String, V)>) -> bool {
    forall|i: int, j: int|
        0 <= i < s.len() && 0 <= j < s.len() && i != j ==> #[trigger] s[i].0@ != #[trigger] s[j].0@
}

/// Some entry of the list has key `k`.
pub open spec fn has_key<V>(s: Seq<(String, V)>, k: Seq<char>) -> bool {
    exists|i: int| 0 <= i < s.len() && #[trigger] s[i].0@ == k
}

/// The map that a list of entries with distinct keys stands for.
pub open spec fn entries_map<V>(s: Seq<(String, V)>) -> Map<Seq<char>, V> {
    Map::new(
        |k: Seq<char>| has_key(s, k),
        |k: Seq<char>| s[choose|i: int| 0 <= i < s.len() && #[trigger] s[i].0@ == k].1,
    )
}

/// A map from strings to values.  Its view is a map from the keys'
/// character sequences to the values.
#[derive(Debug)]
pub struct StringMap<V> {
    entries: Vec<(String, V)>,
}

impl<V> View for StringMap<V> {
    type V = Map<Seq<char>, V>;

    closed spec fn view(&self) -> Map<Seq<char>, V> {
        entries_map(self.entries@)
    }
}

/// In a list with distinct keys, the entry at `i` is the one the map finds
/// for its key.
pub proof fn lemma_entries_map_at<V>(s: Seq<(String, V)>, i: int)
    requires
        distinct_keys(s),
        0 <= i < s.len(),
    ensures
        entries_map(s).dom().contains(s[i].0@),
        entries_map(s)[s[i].0@] == s[i].1,
{
    assert(has_key(s, s[i].0@));
}

/// The map of a list with distinct keys has as many keys as the list has
/// entries.
pub proof fn lemma_entries_map_len<V>(s: Seq<(String, V)>)
    requires
        distinct_keys(s),
    ensures
        entries_map(s).dom() == keys_of(s).to_set(),
        entries_map(s).len() == s.len(),
{
    let ks = keys_of(s);
    assert(entries_map(s).dom() =~= ks.to_set()) by {
        assert forall|k: Seq<char>| entries_map(s).dom().contains(k) implies ks.to_set().contains(
            k,
        ) by {
            let i = choose|i: int| 0 <= i < s.len() && #[trigger] s[i].0@ == k;
            assert(ks[i] == k);
        }
        assert forall|k: Seq<char>| ks.to_set().contains(k) implies entries_map(
            s,
        ).dom().contains(k) by {
            let i = choose|i: int| 0 <= i < ks.len() && ks[i] == k;
            assert(s[i].0@ == k);
        }
    }
    assert(ks.no_duplicates()) by {
        assert forall|i: int, j: int| 0 <= i < ks.len() && 0 <= j < ks.len() && i != j implies ks[i]
            != ks[j] by {
            assert(s[i].0@ != s[j].0@);
        }
    }
    ks.unique_seq_to_set();
}

/// What is stored under a key is what looking the key up gives, and storing
/// under one key leaves what every other key gives as it was.
pub proof fn lemma_get_after_insert<V>(m: Map<Seq<char>, V>, k: Seq<char>, v: V, other: Seq<char>)
    requires
        other != k,
    ensures
        m.insert(k, v).dom().contains(k),
        m.insert(k, v)[k] == v,
        m.insert(k, v).dom().contains(other) == m.dom().contains(other),
        m.dom().contains(other) ==> m.insert(k, v)[other] == m[other],
{
}

/// Storing the same key twice keeps only the later value.
pub proof fn lemma_insert_overwrites<V>(m: Map<Seq<char>, V>, k: Seq<char>, v1: V, v2: V)
    ensures
        m.insert(k, v1).insert(k, v2) == m.insert(k, v2),
{
    assert(m.insert(k, v1).insert(k, v2) =~= m.insert(k, v2));
}

impl<V> StringMap<V> {
    #[verifier::type_invariant]
    spec fn inv(self) -> bool {
        distinct_keys(self.entries@)
    }

    /// An empty map.
    pub fn new() -> (m: Self)
        ensures
            m@ == Map::<Seq<char>, V>::empty(),
    {
        let m = StringMap { entries: Vec::new() };
        assert(m@ =~= Map::<Seq<char>, V>::empty());
        m
    }

    /// The map whose entries are `es`.
    pub fn from_entries(es: Vec<(String, V)>) -> (m: Self)
        requires
            distinct_keys(es@),
        ensures
            m@ == entries_map(es@),
    {
        StringMap { entries: es }
    }

    /// The entries of the map, each key once.
    pub fn entries(&self) -> (r: &Vec<(String, V)>)
        ensures
            distinct_keys(r@),
            entries_map(r@) == self@,
    {
        proof {
            use_type_invariant(self);
        }
        &self.entries
    }

    /// The number of keys.
    pub fn len(&self) -> (n: usize)
        ensures
            n == self@.len(),
    {
        proof {
            use_type_invariant(self);
            lemma_entries_map_len(self.entries@);
        }
        self.entries.len()
    }

    /// Whether the map has no key.
    pub fn is_empty(&self) -> (b: bool)
        ensures
            b == (self@.len() == 0),
            b == (self@ == Map::<Seq<char>, V>::empty()),
    {
        proof {
            use_type_invariant(self);
            lemma_entries_map_len(self.entries@);
            if self.entries.len() > 0 {
                lemma_entries_map_at(self.entries@, 0);
                assert(!Map::<Seq<char>, V>::empty().dom().contains(self.entries@[0].0@));
            } else {
                assert(self@ =~= Map::<Seq<char>, V>::empty());
            }
        }
        self.entries.len() == 0
    }

    /// The position of the entry with key `key`, if there is one.
    fn find(&self, key: &str) -> (r: Option<usize>)
        ensures
            match r {
                Some(i) => i < self.entries@.len() && self.entries@[i as int].0@ == key@,
                None => !has_key(self.entries@, key@),
            },
    {
        let mut i: usize = 0;
        while i < self.entries.len()
            invariant
                i <= self.entries@.len(),
                forall|j: int| 0 <= j < i ==> #[trigger] self.entries@[j].0@ != key@,
            decreases self.entries@.len() - i,
        {
            if str_eq(self.entries[i].0.as_str(), key) {
                return Some(i);
            }
            i = i + 1;
        }
        None
    }

    /// The value stored under `key`.
    pub fn get(&self, key: &str) -> (r: Option<&V>)
        ensures
            match r {
                Some(v) => self@.dom().contains(key@) && self@[key@] == *v,
                None => !self@.dom().contains(key@),
            },
    {
        proof {
            use_type_invariant(self);
        }
        match self.find(key) {
            Some(i) => {
                proof {
                    lemma_entries_map_at(self.entries@, i as int);
                }
                Some(&self.entries[i].1)
            },
            None => None,
        }
    }

    /// Whether a value is stored under `key`.
    pub fn contains_key(&self, key: &str) -> (b: bool)
        ensures
            b == self@.dom().contains(key@),
    {
        proof {
            use_type_invariant(self);
        }
        self.find(key).is_some()
    }

    /// Stores `value` under `key`, replacing what was stored there.
    pub fn insert(&mut self, key: String, value: V)
        ensures
            final(self)@ == old(self)@.insert(key@, value),
    {
        proof {
            use_type_invariant(&*self);
        }
        let ghost old_entries = self.entries@;
        let ghost k = key@;
        let found = self.find(key.as_str());
        let mut entries: Vec<(String, V)> = Vec::new();
        std::mem::swap(&mut entries, &mut self.entries);
        match found {
            Some(i) => {
                entries.set(i, (key, value));
                proof {
                    let s = entries@;
                    assert(distinct_keys(s)) by {
                        assert forall|a: int, b: int|
                            0 <= a < s.len() && 0 <= b < s.len() && a != b implies #[trigger] s[a].0@
                            != #[trigger] s[b].0@ by {
                            if a != i && b != i {
                                assert(s[a] == old_entries[a] && s[b] == old_entries[b]);
                            } else if a == i {
                                assert(old_entries[i as int].0@ == k);
                                assert(old_entries[a].0@ != old_entries[b].0@);
                            } else {
                                assert(old_entries[i as int].0@ == k);
                                assert(old_entries[a].0@ != old_entries[b].0@);
                            }
                        }
                    }
                    assert(entries_map(s) =~= entries_map(old_entries).insert(k, value)) by {
                        assert forall|q: Seq<char>|
                            #![auto]
                            entries_map(s).dom().contains(q) == entries_map(old_entries).insert(
                                k,
                                value,
                            ).dom().contains(q) by {
                            if has_key(s, q) {
                                let j = choose|j: int| 0 <= j < s.len() && #[trigger] s[j].0@ == q;
                                if j != i {
                                    assert(old_entries[j].0@ == q);
                                }
                            }
                            if has_key(old_entries, q) {
                                let j = choose|j: int|
                                    0 <= j < old_entries.len() && #[trigger] old_entries[j].0@ == q;
                                if j != i {
                                    assert(s[j].0@ == q);
                                } else {
                                    assert(s[i as int].0@ == q);
                                }
                            }
                            if q == k {
                                assert(s[i as int].0@ == q);
                            }
                        }
                        assert forall|q: Seq<char>|
                            #![auto]
                            entries_map(s).dom().contains(q) implies entries_map(s)[q]
                                == entries_map(old_entries).insert(k, value)[q] by {
                            let j = choose|j: int| 0 <= j < s.len() && #[trigger] s[j].0@ == q;
                            lemma_entries_map_at(s, j);
                            if j != i {
                                lemma_entries_map_at(old_entries, j);
                                assert(s[j] == old_entries[j]);
                            }
                        }
                    }
                }
            },
            None => {
                entries.push((key, value));
                proof {
                    let s = entries@;
                    assert(s =~= old_entries.push((key, value)));
                    assert(distinct_keys(s)) by {
                        assert forall|a: int, b: int|
                            0 <= a < s.len() && 0 <= b < s.len() && a != b implies #[trigger] s[a].0@
                            != #[trigger] s[b].0@ by {
                            if a < old_entries.len() && b < old_entries.len() {
                                assert(s[a] == old_entries[a] && s[b] == old_entries[b]);
                            } else if a < old_entries.len() {
                                assert(s[a] == old_entries[a]);
                            } else {
                                assert(s[b] == old_entries[b]);
                            }
                        }
                    }
                    let n = old_entries.len() as int;
                    assert(entries_map(s) =~= entries_map(old_entries).insert(k, value)) by {
                        assert forall|q: Seq<char>|
                            #![auto]
                            entries_map(s).dom().contains(q) == entries_map(old_entries).insert(
                                k,
                                value,
                            ).dom().contains(q) by {
                            if has_key(s, q) {
                                let j = choose|j: int| 0 <= j < s.len() && #[trigger] s[j].0@ == q;
                                if j < n {
                                    assert(old_entries[j].0@ == q);
                                }
                            }
                            if has_key(old_entries, q) {
                                let j = choose|j: int|
                                    0 <= j < old_entries.len() && #[trigger] old_entries[j].0@ == q;
                                assert(s[j].0@ == q);
                            }
                            if q == k {
                                assert(s[n].0@ == q);
                            }
                        }
                        assert forall|q: Seq<char>|
                            #![auto]
                            entries_map(s).dom().contains(q) implies entries_map(s)[q]
                                == entries_map(old_entries).insert(k, value)[q] by {
                            let j = choose|j: int| 0 <= j < s.len() && #[trigger] s[j].0@ == q;
                            lemma_entries_map_at(s, j);
                            if j < n {
                                lemma_entries_map_at(old_entries, j);
                                assert(s[j] == old_entries[j]);
                            }
                        }
                    }
                }
            },
        }
        self.entries = entries;
    }
}

} // verus!
