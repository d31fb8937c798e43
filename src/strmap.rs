//! A map from strings to strings that keeps its keys in the order they were first inserted.
use vstd::prelude::*;
use crate::text::str_eq;

verus! {

/// The view of a map: its entries in insertion order.
pub type Pairs = Seq<(Seq<char>, Seq<char>)>;

/// Index of the last entry of `s` with key `k`, or -1 where there is none.
pub open spec fn key_index(s: Pairs, k: Seq<char>) -> int
    decreases s.len(),
{
    if s.len() == 0 {
        -1
    } else if s.last().0 == k {
        s.len() - 1
    } else {
        key_index(s.drop_last(), k)
    }
}

/// Whether some entry of `s` has key `k`.
pub open spec fn has_key(s: Pairs, k: Seq<char>) -> bool {
    key_index(s, k) >= 0
}

/// The value stored under `k`.
pub open spec fn value_of(s: Pairs, k: Seq<char>) -> Option<Seq<char>> {
    if has_key(s, k) {
        Some(s[key_index(s, k)].1)
    } else {
        None
    }
}

/// `s` with `v` stored under `k`: an existing entry keeps its place and takes the new value,
/// a new key goes at the end.
pub open spec fn map_insert(s: Pairs, k: Seq<char>, v: Seq<char>) -> Pairs {
    if has_key(s, k) {
        s.update(key_index(s, k), (k, v))
    } else {
        s.push((k, v))
    }
}

/// `s` after inserting each pair of `ps` in order.
pub open spec fn insert_all(s: Pairs, ps: Pairs) -> Pairs
    decreases ps.len(),
{
    if ps.len() == 0 {
        s
    } else {
        map_insert(insert_all(s, ps.drop_last()), ps.last().0, ps.last().1)
    }
}

/// No two entries share a key.
pub open spec fn keys_distinct(s: Pairs) -> bool {
    forall|i: int, j: int| 0 <= i < j < s.len() ==> s[i].0 != s[j].0
}

pub proof fn lemma_key_index(s: Pairs, k: Seq<char>)
    ensures
        -1 <= key_index(s, k) < s.len(),
        key_index(s, k) >= 0 ==> s[key_index(s, k)].0 == k,
        key_index(s, k) == -1 ==> forall|i: int| 0 <= i < s.len() ==> s[i].0 != k,
    decreases s.len(),
{
    if s.len() > 0 {
        lemma_key_index(s.drop_last(), k);
        if s.last().0 != k {
            assert forall|i: int| 0 <= i < s.len() - 1 implies s[i] == s.drop_last()[i] by {}
        }
    }
}

pub proof fn lemma_insert_keeps_distinct(s: Pairs, k: Seq<char>, v: Seq<char>)
    requires
        keys_distinct(s),
    ensures
        keys_distinct(map_insert(s, k, v)),
{
    lemma_key_index(s, k);
}

/// A string-keyed map of strings, in insertion order.
#[derive(Debug)]
pub struct StrMap {
    entries: Vec<(String, String)>,
}

impl View for StrMap {
    type V = Pairs;

    closed spec fn view(&self) -> Pairs {
        self.entries@.map_values(|e: (String, String)| (e.0@, e.1@))
    }
}

impl StrMap {
    /// No two entries share a key.
    #[verifier::type_invariant]
    spec fn distinct_keys(self) -> bool {
        keys_distinct(self@)
    }

    /// An empty map.
    pub fn new() -> (r: StrMap)
        ensures
            r@ == Seq::<(Seq<char>, Seq<char>)>::empty(),
    {
        let entries: Vec<(String, String)> = Vec::new();
        proof {
            assert(entries@.map_values(|e: (String, String)| (e.0@, e.1@)) =~= Seq::empty());
        }
        StrMap { entries }
    }

    /// Number of entries.
    pub fn len(&self) -> (r: usize)
        ensures
            r == self@.len(),
    {
        self.entries.len()
    }

    /// Whether the map has no entry.
    pub fn is_empty(&self) -> (r: bool)
        ensures
            r == (self@.len() == 0),
    {
        self.entries.len() == 0
    }

    /// The key and value of entry `i`.
    pub fn entry(&self, i: usize) -> (r: (&String, &String))
        requires
            i < self@.len(),
        ensures
            r.0@ == self@[i as int].0,
            r.1@ == self@[i as int].1,
    {
        (&self.entries[i].0, &self.entries[i].1)
    }

    fn find(&self, k: &str) -> (r: Option<usize>)
        ensures
            match r {
                Some(i) => i as int == key_index(self@, k@),
                None => key_index(self@, k@) == -1,
            },
    {
        let mut i: usize = self.entries.len();
        proof {
            assert(self@.take(i as int) =~= self@);
        }
        while i > 0
            invariant
                i <= self@.len(),
                key_index(self@, k@) == key_index(self@.take(i as int), k@),
            decreases i,
        {
            proof {
                assert(self@.take(i as int).drop_last() =~= self@.take(i - 1));
            }
            if str_eq(self.entries[i - 1].0.as_str(), k) {
                return Some(i - 1);
            }
            i = i - 1;
        }
        None
    }

    /// Whether some entry has key `k`.
    pub fn contains_key(&self, k: &str) -> (r: bool)
        ensures
            r == has_key(self@, k@),
    {
        self.find(k).is_some()
    }

    /// The value stored under `k`.
    pub fn get(&self, k: &str) -> (r: Option<&String>)
        ensures
            match r {
                Some(v) => value_of(self@, k@) == Some(v@),
                None => value_of(self@, k@) is None,
            },
    {
        proof {
            lemma_key_index(self@, k@);
        }
        match self.find(k) {
            Some(i) => Some(&self.entries[i].1),
            None => None,
        }
    }

    /// Stores `v` under `k`, replacing the value of an existing entry.
    pub fn insert(&mut self, k: String, v: String)
        ensures
            final(self)@ == map_insert(old(self)@, k@, v@),
    {
        proof {
            use_type_invariant(&*self);
            lemma_insert_keeps_distinct(self@, k@, v@);
            lemma_key_index(self@, k@);
        }
        let found = self.find(k.as_str());
        let mut taken = StrMap::new();
        core::mem::swap(self, &mut taken);
        let mut entries = taken.entries;
        match found {
            Some(i) => {
                entries.set(i, (k, v));
            },
            None => {
                entries.push((k, v));
            },
        }
        proof {
            assert(entries@.map_values(|e: (String, String)| (e.0@, e.1@)) =~= map_insert(
                old(self)@,
                k@,
                v@,
            ));
        }
        *self = StrMap { entries };
    }
}

impl Clone for StrMap {
    fn clone(&self) -> (r: StrMap)
        ensures
            r@ == self@,
    {
        proof {
            use_type_invariant(self);
        }
        let mut entries: Vec<(String, String)> = Vec::new();
        let mut i: usize = 0;
        while i < self.entries.len()
            invariant
                i <= self@.len(),
                entries@.map_values(|e: (String, String)| (e.0@, e.1@)) =~= self@.take(i as int),
            decreases self@.len() - i,
        {
            let ghost before = entries@;
            entries.push((self.entries[i].0.clone(), self.entries[i].1.clone()));
            proof {
                assert(self@[i as int] == (self.entries@[i as int].0@, self.entries@[i as int].1@));
                assert(entries@.map_values(|e: (String, String)| (e.0@, e.1@)) =~= before.map_values(
                    |e: (String, String)| (e.0@, e.1@),
                ).push(self@[i as int]));
                assert(entries@.map_values(|e: (String, String)| (e.0@, e.1@)) =~= self@.take(
                    i + 1,
                ));
            }
            i = i + 1;
        }
        proof {
            assert(self@.take(i as int) =~= self@);
        }
        StrMap { entries }
    }
}

} // verus!
