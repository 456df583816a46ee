//! A small map keyed by strings (asset symbols, account addresses), stored as
//! a vector of distinct keys with their values.

use vstd::prelude::*;

verus! {

/// The map that a sequence of `(key, value)` pairs denotes: a later pair
/// overrides an earlier one with the same key.
pub open spec fn pairs_to_map<V>(s: Seq<(String, V)>) -> Map<Seq<char>, V>
    decreases s.len(),
{
    if s.len() == 0 {
        Map::empty()
    } else {
        pairs_to_map(s.drop_last()).insert(s.last().0@, s.last().1)
    }
}

/// No two pairs share a key.
pub open spec fn keys_distinct<V>(s: Seq<(String, V)>) -> bool {
    forall|i: int, j: int| 0 <= i < s.len() && 0 <= j < s.len() && i != j ==> s[i].0@ != s[j].0@
}

/// A key is present in the map exactly when some pair carries it.
proof fn lemma_pairs_to_map_dom<V>(s: Seq<(String, V)>, k: Seq<char>)
    ensures
        pairs_to_map(s).contains_key(k) <==> exists|i: int| 0 <= i < s.len() && s[i].0@ == k,
    decreases s.len(),
{
    if s.len() > 0 {
        lemma_pairs_to_map_dom(s.drop_last(), k);
        if pairs_to_map(s).contains_key(k) {
            if k == s.last().0@ {
                assert(s[s.len() - 1].0@ == k);
            } else {
                let i = choose|i: int| 0 <= i < s.drop_last().len() && s.drop_last()[i].0@ == k;
                assert(s[i].0@ == k);
            }
        }
        if exists|i: int| 0 <= i < s.len() && s[i].0@ == k {
            let i = choose|i: int| 0 <= i < s.len() && s[i].0@ == k;
            if i < s.len() - 1 {
                assert(s.drop_last()[i].0@ == k);
            }
        }
    }
}

/// With distinct keys, the value of a key is the value of the pair carrying it.
proof fn lemma_pairs_to_map_value<V>(s: Seq<(String, V)>, i: int)
    requires
        keys_distinct(s),
        0 <= i < s.len(),
    ensures
        pairs_to_map(s).contains_key(s[i].0@),
        pairs_to_map(s)[s[i].0@] == s[i].1,
    decreases s.len(),
{
    if i < s.len() - 1 {
        let t = s.drop_last();
        assert(keys_distinct(t));
        assert(t[i] == s[i]);
        lemma_pairs_to_map_value(t, i);
        assert(s[i].0@ != s.last().0@);
    }
}

/// Replacing the value of the pair at `i` replaces the value of its key.
proof fn lemma_pairs_to_map_update<V>(s: Seq<(String, V)>, i: int, key: String, v: V)
    requires
        keys_distinct(s),
        0 <= i < s.len(),
        key@ == s[i].0@,
    ensures
        keys_distinct(s.update(i, (key, v))),
        pairs_to_map(s.update(i, (key, v))) == pairs_to_map(s).insert(s[i].0@, v),
    decreases s.len(),
{
    let u = s.update(i, (key, v));
    assert(keys_distinct(u)) by {
        assert forall|a: int, b: int| 0 <= a < u.len() && 0 <= b < u.len() && a != b implies u[a].0@
            != u[b].0@ by {
            assert(u[a].0@ == s[a].0@);
            assert(u[b].0@ == s[b].0@);
        }
    }
    if i == s.len() - 1 {
        assert(u.drop_last() == s.drop_last());
        assert(pairs_to_map(s.drop_last()).insert(s[i].0@, s[i].1).insert(s[i].0@, v)
            =~= pairs_to_map(s.drop_last()).insert(s[i].0@, v));
    } else {
        let t = s.drop_last();
        assert(keys_distinct(t));
        lemma_pairs_to_map_update(t, i, key, v);
        assert(u.drop_last() == t.update(i, (key, v)));
        assert(s[i].0@ != s.last().0@);
        assert(pairs_to_map(t).insert(s[i].0@, v).insert(s.last().0@, s.last().1)
            =~= pairs_to_map(t).insert(s.last().0@, s.last().1).insert(s[i].0@, v));
    }
}

/// Removing the pair at `i` removes its key.
proof fn lemma_pairs_to_map_remove<V>(s: Seq<(String, V)>, i: int)
    requires
        keys_distinct(s),
        0 <= i < s.len(),
    ensures
        pairs_to_map(s.remove(i)) == pairs_to_map(s).remove(s[i].0@),
    decreases s.len(),
{
    let r = s.remove(i);
    if i == s.len() - 1 {
        assert(r == s.drop_last());
        lemma_pairs_to_map_dom(s.drop_last(), s[i].0@);
        assert(!pairs_to_map(s.drop_last()).contains_key(s[i].0@));
        assert(pairs_to_map(s.drop_last()) =~= pairs_to_map(s.drop_last()).insert(
            s[i].0@,
            s[i].1,
        ).remove(s[i].0@));
    } else {
        let t = s.drop_last();
        assert(keys_distinct(t));
        lemma_pairs_to_map_remove(t, i);
        assert(r.drop_last() == t.remove(i));
        assert(r.last() == s.last());
        assert(s[i].0@ != s.last().0@);
        assert(pairs_to_map(t).remove(s[i].0@).insert(s.last().0@, s.last().1)
            =~= pairs_to_map(t).insert(s.last().0@, s.last().1).remove(s[i].0@));
    }
}

/// A map from strings to values with at most one entry per key.
pub struct KeyedStore<V> {
    entries: Vec<(String, V)>,
}

impl<V> View for KeyedStore<V> {
    type V = Map<Seq<char>, V>;

    closed spec fn view(&self) -> Map<Seq<char>, V> {
        pairs_to_map(self.entries@)
    }
}

impl<V> KeyedStore<V> {
    #[verifier::type_invariant]
    closed spec fn keys_are_distinct(self) -> bool {
        keys_distinct(self.entries@)
    }

    /// An empty store.
    pub fn new() -> (s: Self)
        ensures
            s@ == Map::<Seq<char>, V>::empty(),
    {
        KeyedStore { entries: Vec::new() }
    }

    /// Number of keys in the store.
    pub fn len(&self) -> (n: usize)
        ensures
            n == self@.dom().len(),
            self@.dom().finite(),
    {
        proof {
            use_type_invariant(self);
            self.lemma_dom_len();
        }
        self.entries.len()
    }

    proof fn lemma_dom_len(&self)
        requires
            keys_distinct(self.entries@),
        ensures
            self@.dom().finite(),
            self@.dom().len() == self.entries@.len(),
    {
        Self::lemma_seq_dom_len(self.entries@);
    }

    proof fn lemma_seq_dom_len(s: Seq<(String, V)>)
        requires
            keys_distinct(s),
        ensures
            pairs_to_map(s).dom().finite(),
            pairs_to_map(s).dom().len() == s.len(),
        decreases s.len(),
    {
        if s.len() > 0 {
            let t = s.drop_last();
            assert(keys_distinct(t));
            Self::lemma_seq_dom_len(t);
            lemma_pairs_to_map_dom(t, s.last().0@);
            if pairs_to_map(t).contains_key(s.last().0@) {
                let i = choose|i: int| 0 <= i < t.len() && t[i].0@ == s.last().0@;
                assert(s[i].0@ == s[s.len() - 1].0@);
            }
        }
    }

    /// Index of the entry carrying `k`, if any.
    fn find(&self, k: &String) -> (r: Option<usize>)
        ensures
            match r {
                Some(i) => i < self.entries@.len() && self.entries@[i as int].0@ == k@,
                None => forall|i: int|
                    0 <= i < self.entries@.len() ==> self.entries@[i].0@ != k@,
            },
    {
        let mut i: usize = 0;
        while i < self.entries.len()
            invariant
                i <= self.entries@.len(),
                forall|j: int| 0 <= j < i ==> self.entries@[j].0@ != k@,
            decreases self.entries@.len() - i,
        {
            if self.entries[i].0 == *k {
                return Some(i);
            }
            i = i + 1;
        }
        None
    }

    /// Whether `k` has a value.
    pub fn contains(&self, k: &String) -> (r: bool)
        ensures
            r == self@.contains_key(k@),
    {
        proof {
            lemma_pairs_to_map_dom(self.entries@, k@);
        }
        self.find(k).is_some()
    }

    /// The value stored under `k`.
    pub fn get(&self, k: &String) -> (r: Option<&V>)
        ensures
            r == (if self@.contains_key(k@) {
                Some(&self@[k@])
            } else {
                None
            }),
    {
        proof {
            use_type_invariant(self);
            lemma_pairs_to_map_dom(self.entries@, k@);
        }
        match self.find(k) {
            Some(i) => {
                proof {
                    lemma_pairs_to_map_value(self.entries@, i as int);
                }
                Some(&self.entries[i].1)
            },
            None => None,
        }
    }

    /// Stores `v` under `k`, replacing any previous value.
    pub fn set(&mut self, k: String, v: V)
        ensures
            final(self)@ == old(self)@.insert(k@, v),
    {
        proof {
            use_type_invariant(&*self);
        }
        match self.find(&k) {
            Some(i) => {
                proof {
                    lemma_pairs_to_map_update(self.entries@, i as int, k, v);
                }
                let ghost key = k;
                let mut entries = Vec::new();
                std::mem::swap(&mut entries, &mut self.entries);
                let ghost before = entries@;
                entries.set(i, (k, v));
                assert(entries@ =~= before.update(i as int, (key, v)));
                self.entries = entries;
            },
            None => {
                let ghost before = self.entries@;
                let mut entries = Vec::new();
                std::mem::swap(&mut entries, &mut self.entries);
                let ghost ks = k@;
                entries.push((k, v));
                assert(entries@.drop_last() =~= before);
                assert(keys_distinct(entries@));
                self.entries = entries;
                proof {
                    assert(entries@.last().0@ == ks);
                }
            },
        }
    }

    /// Removes any value stored under `k`.
    pub fn remove(&mut self, k: &String)
        ensures
            final(self)@ == old(self)@.remove(k@),
    {
        proof {
            use_type_invariant(&*self);
            lemma_pairs_to_map_dom(self.entries@, k@);
        }
        match self.find(k) {
            Some(i) => {
                proof {
                    lemma_pairs_to_map_remove(self.entries@, i as int);
                }
                let mut entries = Vec::new();
                std::mem::swap(&mut entries, &mut self.entries);
                let ghost before = entries@;
                entries.remove(i);
                assert(keys_distinct(entries@)) by {
                    assert forall|a: int, b: int|
                        0 <= a < entries@.len() && 0 <= b < entries@.len() && a != b implies
                        entries@[a].0@ != entries@[b].0@ by {
                        let a2 = if a < i { a } else { a + 1 };
                        let b2 = if b < i { b } else { b + 1 };
                        assert(entries@[a] == before[a2]);
                        assert(entries@[b] == before[b2]);
                    }
                }
                self.entries = entries;
            },
            None => {
                assert(old(self)@.remove(k@) =~= old(self)@);
            },
        }
    }
}

/// Some element of `s` has the view `x`.
pub open spec fn has_str(s: Seq<String>, x: Seq<char>) -> bool {
    exists|i: int| 0 <= i < s.len() && s[i]@ == x
}

/// The views of the strings of a list.
pub open spec fn named_in(names: Seq<String>) -> Set<Seq<char>> {
    Set::new(|k: Seq<char>| has_str(names, k))
}

/// No two strings of the list have the same view.
pub open spec fn distinct_names(s: Seq<String>) -> bool {
    forall|i: int, j: int| 0 <= i < j < s.len() ==> s[i]@ != s[j]@
}

/// The predicate "is not `x`" on strings.
pub open spec fn not_named(x: Seq<char>) -> spec_fn(String) -> bool {
    |s: String| s@ != x
}

/// Whether `v` holds a string equal to `x`.
pub fn contains_str(v: &Vec<String>, x: &String) -> (r: bool)
    ensures
        r == has_str(v@, x@),
{
    let mut i: usize = 0;
    while i < v.len()
        invariant
            i <= v@.len(),
            forall|j: int| 0 <= j < i ==> v@[j]@ != x@,
        decreases v@.len() - i,
    {
        if v[i] == *x {
            return true;
        }
        i = i + 1;
    }
    false
}

/// `v` without the strings equal to `x`, in the same order.
pub fn without_str(v: &Vec<String>, x: &String) -> (r: Vec<String>)
    ensures
        r@ == v@.filter(not_named(x@)),
{
    let mut r: Vec<String> = Vec::new();
    let mut i: usize = 0;
    while i < v.len()
        invariant
            i <= v@.len(),
            r@ == v@.take(i as int).filter(not_named(x@)),
        decreases v@.len() - i,
    {
        proof {
            reveal_with_fuel(Seq::<_>::filter, 1);
            assert(v@.take(i + 1).drop_last() =~= v@.take(i as int));
        }
        if v[i] != *x {
            r.push(v[i].clone());
        }
        i = i + 1;
    }
    assert(v@.take(v@.len() as int) =~= v@);
    r
}

impl<V> KeyedStore<V> {
    /// The stored pairs, one per key.
    pub fn pairs(&self) -> (r: &Vec<(String, V)>)
        ensures
            pairs_to_map(r@) == self@,
            keys_distinct(r@),
    {
        proof {
            use_type_invariant(self);
        }
        &self.entries
    }

    /// Every key of the store is carried by one of its pairs.
    pub proof fn lemma_pairs_cover(s: Seq<(String, V)>, k: Seq<char>)
        ensures
            pairs_to_map(s).contains_key(k) <==> exists|i: int| 0 <= i < s.len() && s[i].0@ == k,
    {
        lemma_pairs_to_map_dom(s, k);
    }

    /// The value of a key carried by the pair at `i`.
    pub proof fn lemma_pairs_value(s: Seq<(String, V)>, i: int)
        requires
            keys_distinct(s),
            0 <= i < s.len(),
        ensures
            pairs_to_map(s).contains_key(s[i].0@),
            pairs_to_map(s)[s[i].0@] == s[i].1,
    {
        lemma_pairs_to_map_value(s, i);
    }
}

} // verus!
