//! An association vector from string keys to values.
//!
//! Both of the store's in-memory maps (scalar entries and named lists) are
//! kept as a vector of key/value pairs with pairwise-distinct keys. The
//! mathematical view of such a vector is a `Map` from the key's character
//! sequence to the value's deep view.

use vstd::prelude::*;

verus! {

/// True when no two pairs of `s` carry the same key text.
pub open spec fn keys_distinct<V>(s: Seq<(String, V)>) -> bool {
    forall|i: int, j: int| 0 <= i < j < s.len() ==> s[i].0@ != s[j].0@
}

/// The map denoted by an association sequence; a later pair wins over an
/// earlier one with the same key.
pub open spec fn pairs_to_map<V: DeepView>(s: Seq<(String, V)>) -> Map<Seq<char>, V::V>
    decreases s.len(),
{
    if s.len() == 0 {
        Map::empty()
    } else {
        pairs_to_map(s.drop_last()).insert(s.last().0@, s.last().1.deep_view())
    }
}

/// The keys of an association sequence, in order.
pub open spec fn key_seq<V>(s: Seq<(String, V)>) -> Seq<Seq<char>> {
    s.map_values(|p: (String, V)| p.0@)
}

pub proof fn lemma_pairs_to_map_contains<V: DeepView>(s: Seq<(String, V)>, k: Seq<char>)
    ensures
        pairs_to_map(s).contains_key(k) <==> exists|i: int| 0 <= i < s.len() && s[i].0@ == k,
    decreases s.len(),
{
    if s.len() > 0 {
        lemma_pairs_to_map_contains(s.drop_last(), k);
        if s.last().0@ == k {
            assert(s[s.len() - 1].0@ == k);
        } else if pairs_to_map(s).contains_key(k) {
            let i = choose|i: int| 0 <= i < s.drop_last().len() && s.drop_last()[i].0@ == k;
            assert(s[i].0@ == k);
        } else {
            assert forall|i: int| 0 <= i < s.len() implies s[i].0@ != k by {
                if i < s.len() - 1 {
                    assert(s.drop_last()[i].0@ == s[i].0@);
                }
            }
        }
    }
}

pub proof fn lemma_pairs_to_map_lookup<V: DeepView>(s: Seq<(String, V)>, i: int)
    requires
        keys_distinct(s),
        0 <= i < s.len(),
    ensures
        pairs_to_map(s).contains_key(s[i].0@),
        pairs_to_map(s)[s[i].0@] == s[i].1.deep_view(),
    decreases s.len(),
{
    lemma_pairs_to_map_contains(s, s[i].0@);
    if i < s.len() - 1 {
        assert(s.drop_last()[i] == s[i]);
        lemma_pairs_to_map_lookup(s.drop_last(), i);
        assert(s[s.len() - 1].0@ != s[i].0@);
    }
}

pub proof fn lemma_pairs_to_map_push<V: DeepView>(s: Seq<(String, V)>, key: String, v: V)
    ensures
        pairs_to_map(s.push((key, v))) == pairs_to_map(s).insert(key@, v.deep_view()),
{
    assert(s.push((key, v)).drop_last() =~= s);
    assert(s.push((key, v)).last() == (key, v));
}

pub proof fn lemma_pairs_to_map_remove_absent<V: DeepView>(s: Seq<(String, V)>, k: Seq<char>)
    requires
        forall|i: int| 0 <= i < s.len() ==> s[i].0@ != k,
    ensures
        pairs_to_map(s).remove(k) =~= pairs_to_map(s),
{
    lemma_pairs_to_map_contains(s, k);
}

pub proof fn lemma_pairs_to_map_remove_at<V: DeepView>(s: Seq<(String, V)>, i: int)
    requires
        keys_distinct(s),
        0 <= i < s.len(),
    ensures
        pairs_to_map(s.remove(i)) =~= pairs_to_map(s).remove(s[i].0@),
        keys_distinct(s.remove(i)),
    decreases s.len(),
{
    let k = s[i].0@;
    if i == s.len() - 1 {
        assert(s.remove(i) =~= s.drop_last());
        assert forall|j: int| 0 <= j < s.drop_last().len() implies s.drop_last()[j].0@ != k by {
            assert(s[j].0@ == s.drop_last()[j].0@);
        }
        lemma_pairs_to_map_remove_absent(s.drop_last(), k);
    } else {
        let t = s.drop_last();
        lemma_pairs_to_map_remove_at(t, i);
        assert(s.remove(i).drop_last() =~= t.remove(i));
        assert(s.remove(i).last() == s.last());
        assert(s.last().0@ != k);
    }
}

pub proof fn lemma_pairs_to_map_dom_len<V: DeepView>(s: Seq<(String, V)>)
    requires
        keys_distinct(s),
    ensures
        pairs_to_map(s).dom().finite(),
        pairs_to_map(s).dom().len() == s.len(),
    decreases s.len(),
{
    if s.len() > 0 {
        let t = s.drop_last();
        lemma_pairs_to_map_dom_len(t);
        lemma_pairs_to_map_contains(t, s.last().0@);
        assert forall|j: int| 0 <= j < t.len() implies t[j].0@ != s.last().0@ by {
            assert(t[j].0@ == s[j].0@);
            assert(s[j].0@ != s[s.len() - 1].0@);
        }
        assert(!pairs_to_map(t).contains_key(s.last().0@));
        assert(pairs_to_map(s).dom() =~= pairs_to_map(t).dom().insert(s.last().0@));
    }
}

/// Compares two string slices for equality of their text.
///
/// Relies on `str`'s `PartialEq`, which compares the underlying bytes; two
/// string slices are byte-equal exactly when their character sequences are
/// equal.
#[verifier::external_body]
fn str_eq(a: &str, b: &str) -> (r: bool)
    ensures
        r == (a@ == b@),
{
    a == b
}

/// An association vector keeping at most one entry per key.
pub struct KvVec<V> {
    pairs: Vec<(String, V)>,
}

impl<V: DeepView> View for KvVec<V> {
    type V = Map<Seq<char>, V::V>;

    open spec fn view(&self) -> Map<Seq<char>, V::V> {
        pairs_to_map(self.pairs_seq())
    }
}

impl<V> KvVec<V> {
    /// The pairs currently held, in storage order.
    pub closed spec fn pairs_seq(self) -> Seq<(String, V)> {
        self.pairs@
    }

    /// The keys currently held, in storage order.
    pub open spec fn keys(self) -> Seq<Seq<char>> {
        key_seq(self.pairs_seq())
    }

    /// Well-formedness: keys are pairwise distinct. Constructors establish
    /// it and every method preserves it.
    pub open spec fn wf(self) -> bool {
        keys_distinct(self.pairs_seq())
    }

    /// A borrow of the pairs, for handing the whole store to a codec.
    pub fn entries(&self) -> (r: &Vec<(String, V)>)
        ensures
            r@ == self.pairs_seq(),
    {
        &self.pairs
    }

    /// The vector a codec decoded, taken over as a map.
    pub fn from_entries(pairs: Vec<(String, V)>) -> (r: Self)
        requires
            keys_distinct(pairs@),
        ensures
            r.wf(),
            r.pairs_seq() == pairs@,
    {
        KvVec { pairs }
    }
}

impl<V: DeepView> KvVec<V> {
    pub proof fn lemma_keys_dom(self)
        requires
            self.wf(),
        ensures
            self@.dom().finite(),
            self@.dom().len() == self.keys().len(),
            forall|k: Seq<char>| self@.contains_key(k) <==> self.keys().contains(k),
    {
        lemma_pairs_to_map_dom_len(self.pairs@);
        assert forall|k: Seq<char>| self@.contains_key(k) implies self.keys().contains(k) by {
            lemma_pairs_to_map_contains(self.pairs@, k);
            let i = choose|i: int| 0 <= i < self.pairs@.len() && self.pairs@[i].0@ == k;
            assert(self.keys()[i] == k);
        }
        assert forall|k: Seq<char>| self.keys().contains(k) implies self@.contains_key(k) by {
            let i = choose|i: int| 0 <= i < self.keys().len() && self.keys()[i] == k;
            lemma_pairs_to_map_contains(self.pairs@, k);
            assert(self.pairs@[i].0@ == k);
        }
    }

    /// The pair at index `i` is the map entry for its key.
    pub proof fn lemma_pairs_lookup(self, i: int)
        requires
            self.wf(),
            0 <= i < self.pairs_seq().len(),
        ensures
            self@.contains_key(self.pairs_seq()[i].0@),
            self@[self.pairs_seq()[i].0@] == self.pairs_seq()[i].1.deep_view(),
    {
        lemma_pairs_to_map_lookup(self.pairs@, i);
    }

    pub fn new() -> (r: Self)
        ensures
            r.wf(),
            r@ == Map::<Seq<char>, V::V>::empty(),
            r.keys() == Seq::<Seq<char>>::empty(),
    {
        let r = KvVec { pairs: Vec::new() };
        proof {
            assert(r.keys() =~= Seq::<Seq<char>>::empty());
        }
        r
    }

    pub fn len(&self) -> (n: usize)
        requires
            self.wf(),
        ensures
            n == self.keys().len(),
            n == self@.dom().len(),
    {
        proof {
            self.lemma_keys_dom();
        }
        self.pairs.len()
    }

    fn find_index(&self, key: &str) -> (r: Option<usize>)
        ensures
            match r {
                Some(i) => i < self.pairs@.len() && self.pairs@[i as int].0@ == key@,
                None => forall|i: int| 0 <= i < self.pairs@.len() ==> self.pairs@[i].0@ != key@,
            },
    {
        let mut i: usize = 0;
        while i < self.pairs.len()
            invariant
                i <= self.pairs@.len(),
                forall|j: int| 0 <= j < i ==> self.pairs@[j].0@ != key@,
            decreases self.pairs@.len() - i,
        {
            if str_eq(self.pairs[i].0.as_str(), key) {
                return Some(i);
            }
            i = i + 1;
        }
        None
    }

    pub fn contains(&self, key: &str) -> (b: bool)
        ensures
            b == self@.contains_key(key@),
    {
        proof {
            lemma_pairs_to_map_contains(self.pairs@, key@);
        }
        self.find_index(key).is_some()
    }

    pub fn get(&self, key: &str) -> (r: Option<&V>)
        requires
            self.wf(),
        ensures
            match r {
                Some(v) => self@.contains_key(key@) && v.deep_view() == self@[key@],
                None => !self@.contains_key(key@),
            },
    {
        proof {
            lemma_pairs_to_map_contains(self.pairs@, key@);
        }
        match self.find_index(key) {
            Some(i) => {
                proof {
                    lemma_pairs_to_map_lookup(self.pairs@, i as int);
                }
                Some(&self.pairs[i].1)
            },
            None => None,
        }
    }

    /// Inserts or overwrites the entry under `key`, returning the value it
    /// replaced, if any.
    pub fn insert(&mut self, key: String, value: V) -> (prev: Option<V>)
        requires
            old(self).wf(),
        ensures
            final(self).wf(),
            final(self)@ == old(self)@.insert(key@, value.deep_view()),
            match prev {
                Some(v) => old(self)@.contains_key(key@) && v.deep_view() == old(self)@[key@],
                None => !old(self)@.contains_key(key@),
            },
            final(self).keys().len() == old(self).keys().len() + (
            if old(self)@.contains_key(key@) {
                0int
            } else {
                1int
            }),
    {
        proof {
            lemma_pairs_to_map_contains(self.pairs@, key@);
        }
        let prev = match self.find_index(key.as_str()) {
            Some(i) => {
                proof {
                    lemma_pairs_to_map_lookup(self.pairs@, i as int);
                    lemma_pairs_to_map_remove_at(self.pairs@, i as int);
                }
                let p = self.pairs.remove(i);
                Some(p.1)
            },
            None => {
                proof {
                    lemma_pairs_to_map_remove_absent(self.pairs@, key@);
                }
                None
            },
        };
        proof {
            lemma_pairs_to_map_contains(self.pairs@, key@);
        }
        let ghost before_push = self.pairs@;
        proof {
            lemma_pairs_to_map_push(before_push, key, value);
        }
        self.pairs.push((key, value));
        proof {
            assert(keys_distinct(self.pairs@)) by {
                assert(forall|i: int|
                    0 <= i < before_push.len() ==> self.pairs@[i] == before_push[i]);
            }
            assert(final(self)@ =~= old(self)@.insert(key@, value.deep_view()));
        }
        prev
    }

    /// Removes the entry under `key`, returning its value if it was present.
    pub fn remove(&mut self, key: &str) -> (prev: Option<V>)
        requires
            old(self).wf(),
        ensures
            final(self).wf(),
            final(self)@ == old(self)@.remove(key@),
            match prev {
                Some(v) => old(self)@.contains_key(key@) && v.deep_view() == old(self)@[key@],
                None => !old(self)@.contains_key(key@),
            },
            final(self).keys().len() == old(self).keys().len() - (
            if old(self)@.contains_key(key@) {
                1int
            } else {
                0int
            }),
    {
        proof {
            lemma_pairs_to_map_contains(self.pairs@, key@);
        }
        match self.find_index(key) {
            Some(i) => {
                proof {
                    lemma_pairs_to_map_lookup(self.pairs@, i as int);
                    lemma_pairs_to_map_remove_at(self.pairs@, i as int);
                }
                let p = self.pairs.remove(i);
                proof {
                    assert(final(self)@ =~= old(self)@.remove(key@));
                }
                Some(p.1)
            },
            None => {
                proof {
                    lemma_pairs_to_map_remove_absent(self.pairs@, key@);
                    assert(final(self)@ =~= old(self)@.remove(key@));
                }
                None
            },
        }
    }

    /// A copy of all keys, in storage order.
    pub fn keys_vec(&self) -> (r: Vec<String>)
        ensures
            r@.map_values(|s: String| s@) == self.keys(),
    {
        let mut r: Vec<String> = Vec::new();
        let mut i: usize = 0;
        while i < self.pairs.len()
            invariant
                i <= self.pairs@.len(),
                r@.len() == i,
                forall|j: int| 0 <= j < i ==> r@[j]@ == self.pairs@[j].0@,
            decreases self.pairs@.len() - i,
        {
            r.push(self.pairs[i].0.clone());
            i = i + 1;
        }
        proof {
            assert(r@.map_values(|s: String| s@) =~= self.keys());
        }
        r
    }
}

} // verus!
