//! An insertion-ordered map from strings to strings.
//!
//! Headers, form parameters and form replies are all string maps whose later
//! insertions replace earlier ones. `StrMap` keeps its keys unique and
//! remembers the order in which keys first arrived, so that a map can be
//! written out (as a form body, say) in a definite order.
use vstd::prelude::*;

use crate::text::str_eq;

verus! {

/// Character views of key-value pairs.
pub type Pairs = Seq<(Seq<char>, Seq<char>)>;

/// No key occurs twice.
pub open spec fn keys_unique(p: Pairs) -> bool {
    forall|i: int, j: int| 0 <= i < j < p.len() ==> p[i].0 != p[j].0
}

/// Whether some pair has key `k`.
pub open spec fn has_key(p: Pairs, k: Seq<char>) -> bool {
    exists|i: int| 0 <= i < p.len() && p[i].0 == k
}

/// The position of the pair with key `k`.
pub open spec fn key_index(p: Pairs, k: Seq<char>) -> int {
    choose|i: int| 0 <= i < p.len() && p[i].0 == k
}

/// The map that a sequence of pairs with unique keys stands for.
pub open spec fn pairs_to_map(p: Pairs) -> Map<Seq<char>, Seq<char>> {
    Map::new(|k: Seq<char>| has_key(p, k), |k: Seq<char>| p[key_index(p, k)].1)
}

/// What inserting `(k, v)` does to the pairs: the value of an existing key
/// is replaced in place, a new key goes to the end.
pub open spec fn pairs_insert(p: Pairs, k: Seq<char>, v: Seq<char>) -> Pairs {
    if has_key(p, k) {
        p.update(key_index(p, k), (k, v))
    } else {
        p.push((k, v))
    }
}

/// The character views of a vector of string pairs.
pub open spec fn entries_view(e: Seq<(String, String)>) -> Pairs {
    e.map_values(|x: (String, String)| (x.0@, x.1@))
}

proof fn lemma_key_index(p: Pairs, i: int)
    requires
        keys_unique(p),
        0 <= i < p.len(),
    ensures
        has_key(p, p[i].0),
        key_index(p, p[i].0) == i,
{
    assert(has_key(p, p[i].0));
    let j = key_index(p, p[i].0);
    if j != i {
        if j < i {
            assert(p[j].0 != p[i].0);
        } else {
            assert(p[i].0 != p[j].0);
        }
    }
}

/// Inserting into pairs with unique keys keeps the keys unique and inserts
/// into the map they stand for: a later read of the key gives the new value,
/// and every other key keeps its value.
pub proof fn lemma_pairs_insert(p: Pairs, k: Seq<char>, v: Seq<char>)
    requires
        keys_unique(p),
    ensures
        keys_unique(pairs_insert(p, k, v)),
        pairs_to_map(pairs_insert(p, k, v)) == pairs_to_map(p).insert(k, v),
{
    let q = pairs_insert(p, k, v);
    if has_key(p, k) {
        let i = key_index(p, k);
        assert forall|a: int, b: int| 0 <= a < b < q.len() implies q[a].0 != q[b].0 by {
            assert(p[a].0 != p[b].0);
        }
        assert forall|x: Seq<char>| has_key(q, x) == has_key(p, x) by {
            if has_key(p, x) {
                let j = key_index(p, x);
                assert(q[j].0 == x);
            }
            if has_key(q, x) {
                let j = key_index(q, x);
                assert(p[j].0 == x);
            }
        }
        assert forall|x: Seq<char>| has_key(q, x) implies q[key_index(q, x)].1 == (if x == k {
            v
        } else {
            p[key_index(p, x)].1
        }) by {
            let j = key_index(q, x);
            lemma_key_index(q, j);
            if x != k {
                lemma_key_index(p, j);
            } else {
                lemma_key_index(q, i);
            }
        }
    } else {
        assert forall|a: int, b: int| 0 <= a < b < q.len() implies q[a].0 != q[b].0 by {
            if b == p.len() {
                assert(p[a].0 != k);
            } else {
                assert(p[a].0 != p[b].0);
            }
        }
        assert forall|x: Seq<char>| has_key(q, x) == (has_key(p, x) || x == k) by {
            if has_key(p, x) {
                let j = key_index(p, x);
                assert(q[j].0 == x);
            }
            if x == k {
                assert(q[p.len() as int].0 == x);
            }
            if has_key(q, x) && x != k {
                let j = key_index(q, x);
                assert(p[j].0 == x);
            }
        }
        assert forall|x: Seq<char>| has_key(q, x) implies q[key_index(q, x)].1 == (if x == k {
            v
        } else {
            p[key_index(p, x)].1
        }) by {
            let j = key_index(q, x);
            lemma_key_index(q, j);
            if x != k {
                lemma_key_index(p, j);
            } else {
                lemma_key_index(q, p.len() as int);
            }
        }
    }
    assert(pairs_to_map(q) =~= pairs_to_map(p).insert(k, v));
}

/// A map from strings to strings that remembers the order in which keys arrived.
pub struct StrMap {
    entries: Vec<(String, String)>,
}

impl StrMap {
    /// The key-value pairs, in the order in which their keys were first inserted.
    pub closed spec fn pairs(&self) -> Pairs {
        entries_view(self.entries@)
    }

    #[verifier::type_invariant]
    spec fn keys_are_unique(self) -> bool {
        keys_unique(entries_view(self.entries@))
    }

    /// An empty map.
    pub fn new() -> (r: Self)
        ensures
            r.pairs() == Seq::<(Seq<char>, Seq<char>)>::empty(),
            r@ == Map::<Seq<char>, Seq<char>>::empty(),
    {
        let r = StrMap { entries: Vec::new() };
        assert(r@ =~= Map::<Seq<char>, Seq<char>>::empty());
        r
    }

    /// The number of keys.
    pub fn len(&self) -> (r: usize)
        ensures
            r == self.pairs().len(),
    {
        self.entries.len()
    }

    /// The position of key `k` among the pairs, if it is there.
    fn find(&self, k: &str) -> (r: Option<usize>)
        ensures
            r is None ==> !has_key(self.pairs(), k@),
            r matches Some(i) ==> i < self.pairs().len() && self.pairs()[i as int].0 == k@
                && key_index(self.pairs(), k@) == i,
    {
        proof {
            use_type_invariant(self);
        }
        let mut i: usize = 0;
        while i < self.entries.len()
            invariant
                i <= self.entries@.len(),
                keys_unique(self.pairs()),
                forall|j: int| 0 <= j < i ==> self.pairs()[j].0 != k@,
            decreases self.entries@.len() - i,
        {
            if str_eq(self.entries[i].0.as_str(), k) {
                proof {
                    lemma_key_index(self.pairs(), i as int);
                }
                return Some(i);
            }
            i = i + 1;
        }
        None
    }

    /// Whether key `k` is present.
    pub fn contains_key(&self, k: &str) -> (r: bool)
        ensures
            r == self@.contains_key(k@),
    {
        self.find(k).is_some()
    }

    /// The value of key `k`, if it is present.
    pub fn get(&self, k: &str) -> (r: Option<&String>)
        ensures
            r is None ==> !self@.contains_key(k@),
            r matches Some(v) ==> self@.contains_key(k@) && self@[k@] == v@,
    {
        match self.find(k) {
            Some(i) => Some(&self.entries[i].1),
            None => None,
        }
    }

    /// Sets key `k` to `v`. An existing key keeps its position; a new key goes last.
    pub fn insert(&mut self, k: &str, v: String)
        ensures
            final(self)@ == old(self)@.insert(k@, v@),
            final(self).pairs() == pairs_insert(old(self).pairs(), k@, v@),
    {
        proof {
            use_type_invariant(&*self);
            lemma_pairs_insert(self.pairs(), k@, v@);
        }
        let ghost old_entries = self.entries@;
        match self.find(k) {
            Some(i) => {
                let mut entries = Vec::new();
                std::mem::swap(&mut entries, &mut self.entries);
                entries.set(i, (k.to_owned(), v));
                assert(entries_view(entries@) =~= pairs_insert(entries_view(old_entries), k@, v@));
                self.entries = entries;
            },
            None => {
                let mut entries = Vec::new();
                std::mem::swap(&mut entries, &mut self.entries);
                entries.push((k.to_owned(), v));
                assert(entries_view(entries@) =~= pairs_insert(entries_view(old_entries), k@, v@));
                self.entries = entries;
            },
        }
    }

    /// The key-value pairs, in insertion order; no key occurs twice.
    pub fn entries(&self) -> (r: &Vec<(String, String)>)
        ensures
            entries_view(r@) == self.pairs(),
            keys_unique(self.pairs()),
    {
        proof {
            use_type_invariant(self);
        }
        &self.entries
    }
}

impl View for StrMap {
    type V = Map<Seq<char>, Seq<char>>;

    open spec fn view(&self) -> Map<Seq<char>, Seq<char>> {
        pairs_to_map(self.pairs())
    }
}

} // verus!
