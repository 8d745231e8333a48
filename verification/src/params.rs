//! Parameter sets: a mapping from parameter name to string value with unique
//! keys, the input of validation, canonicalization and signing.

use vstd::prelude::*;

verus! {

/// The map described by a sequence of key/value pairs; later pairs win.
pub open spec fn map_of<V>(s: Seq<(Seq<char>, V)>) -> Map<Seq<char>, V>
    decreases s.len(),
{
    if s.len() == 0 {
        Map::empty()
    } else {
        map_of(s.drop_last()).insert(s.last().0, s.last().1)
    }
}

/// The keys of a pair sequence, in order.
pub open spec fn keys_of<V>(s: Seq<(Seq<char>, V)>) -> Seq<Seq<char>> {
    s.map_values(|p: (Seq<char>, V)| p.0)
}

/// No key occurs twice.
pub open spec fn unique_keys<V>(s: Seq<(Seq<char>, V)>) -> bool {
    keys_of(s).no_duplicates()
}

/// Some pair of `s` carries the key `k`.
pub open spec fn has_key<V>(s: Seq<(Seq<char>, V)>, k: Seq<char>) -> bool {
    exists|i: int| 0 <= i < s.len() && (#[trigger] s[i]).0 == k
}

/// A key is in the map exactly when some pair carries it.
pub proof fn lemma_map_of_dom<V>(s: Seq<(Seq<char>, V)>, k: Seq<char>)
    ensures
        map_of(s).contains_key(k) == has_key(s, k),
    decreases s.len(),
{
    if s.len() == 0 {
    } else {
        lemma_map_of_dom(s.drop_last(), k);
        if s.last().0 == k {
            assert(s[s.len() - 1].0 == k);
        } else {
            assert(forall|i: int| 0 <= i < s.len() - 1 ==> s.drop_last()[i] == s[i]);
            if has_key(s, k) {
                let i = choose|i: int| 0 <= i < s.len() && (#[trigger] s[i]).0 == k;
                assert(i < s.len() - 1);
                assert(s.drop_last()[i].0 == k);
            }
        }
    }
}

/// With unique keys, the pair at the key's index gives the map's value.
pub proof fn lemma_map_of_index<V>(s: Seq<(Seq<char>, V)>, i: int)
    requires
        unique_keys(s),
        0 <= i < s.len(),
    ensures
        map_of(s).contains_key(s[i].0),
        map_of(s)[s[i].0] == s[i].1,
    decreases s.len(),
{
    assert(keys_of(s)[i] == s[i].0);
    if i == s.len() - 1 {
        assert(map_of(s).contains_key(s[i].0));
    } else {
        assert(keys_of(s.drop_last()) =~= keys_of(s).drop_last());
        lemma_map_of_index(s.drop_last(), i);
        assert(s.drop_last()[i] == s[i]);
        assert(keys_of(s)[s.len() - 1] == s.last().0);
        assert(s.last().0 != s[i].0);
    }
}

/// Appending a fresh pair inserts it into the map.
pub proof fn lemma_map_of_push<V>(s: Seq<(Seq<char>, V)>, k: Seq<char>, v: V)
    ensures
        map_of(s.push((k, v))) == map_of(s).insert(k, v),
{
    assert(s.push((k, v)).drop_last() =~= s);
    assert(s.push((k, v)).last() == (k, v));
}

/// Overwriting the pair that carries `k` updates the map at `k`.
pub proof fn lemma_map_of_update<V>(s: Seq<(Seq<char>, V)>, i: int, v: V)
    requires
        unique_keys(s),
        0 <= i < s.len(),
    ensures
        map_of(s.update(i, (s[i].0, v))) == map_of(s).insert(s[i].0, v),
    decreases s.len(),
{
    let k = s[i].0;
    let t = s.update(i, (k, v));
    if i == s.len() - 1 {
        assert(t.drop_last() =~= s.drop_last());
        assert(t.last() == (k, v));
        assert(map_of(t) == map_of(s.drop_last()).insert(k, v));
        assert(map_of(s) == map_of(s.drop_last()).insert(k, s[i].1));
        assert(map_of(s).insert(k, v) =~= map_of(s.drop_last()).insert(k, v));
    } else {
        assert(keys_of(s.drop_last()) =~= keys_of(s).drop_last());
        assert(t.drop_last() =~= s.drop_last().update(i, (k, v)));
        assert(s.drop_last()[i] == s[i]);
        lemma_map_of_update(s.drop_last(), i, v);
        assert(t.last() == s.last());
        assert(keys_of(s)[s.len() - 1] == s.last().0);
        assert(keys_of(s)[i] == k);
        assert(s.last().0 != k);
        assert(map_of(t) == map_of(s.drop_last()).insert(k, v).insert(s.last().0, s.last().1));
        assert(map_of(s).insert(k, v) =~= map_of(s.drop_last()).insert(k, v).insert(
            s.last().0,
            s.last().1,
        ));
    }
}

/// Removing the pair that carries `k` removes `k` from the map.
pub proof fn lemma_map_of_remove<V>(s: Seq<(Seq<char>, V)>, i: int)
    requires
        unique_keys(s),
        0 <= i < s.len(),
    ensures
        map_of(s.remove(i)) == map_of(s).remove(s[i].0),
    decreases s.len(),
{
    let k = s[i].0;
    let t = s.remove(i);
    if i == s.len() - 1 {
        assert(t =~= s.drop_last());
        lemma_map_of_dom(s.drop_last(), k);
        assert(keys_of(s.drop_last()) =~= keys_of(s).drop_last());
        assert forall|j: int| 0 <= j < s.len() - 1 implies (#[trigger] s.drop_last()[j]).0
            != k by {
            assert(keys_of(s)[j] == s[j].0);
            assert(keys_of(s)[s.len() - 1] == k);
        }
        assert(!has_key(s.drop_last(), k));
        assert(map_of(s.drop_last()).remove(k) =~= map_of(s.drop_last()));
        assert(map_of(s) == map_of(s.drop_last()).insert(k, s.last().1));
        assert(map_of(s).remove(k) =~= map_of(s.drop_last()));
    } else {
        assert(keys_of(s.drop_last()) =~= keys_of(s).drop_last());
        assert(s.drop_last()[i] == s[i]);
        lemma_map_of_remove(s.drop_last(), i);
        assert(t.drop_last() =~= s.drop_last().remove(i));
        assert(t.last() == s.last());
        assert(map_of(t) == map_of(s.drop_last()).remove(k).insert(s.last().0, s.last().1));
        assert(keys_of(s)[s.len() - 1] == s.last().0);
        assert(keys_of(s)[i] == k);
        assert(s.last().0 != k);
        assert(map_of(s).remove(k) =~= map_of(s.drop_last()).remove(k).insert(
            s.last().0,
            s.last().1,
        ));
    }
}

/// The map described by a pair sequence has a finite domain.
pub proof fn lemma_map_of_finite<V>(s: Seq<(Seq<char>, V)>)
    ensures
        map_of(s).dom().finite(),
    decreases s.len(),
{
    if s.len() > 0 {
        lemma_map_of_finite(s.drop_last());
    }
}

/// With unique keys, a pair is in the sequence exactly when the map sends its
/// key to its value.
pub proof fn lemma_map_of_pair<V>(s: Seq<(Seq<char>, V)>, k: Seq<char>, v: V)
    requires
        unique_keys(s),
    ensures
        s.contains((k, v)) == (map_of(s).contains_key(k) && map_of(s)[k] == v),
{
    lemma_map_of_dom(s, k);
    if s.contains((k, v)) {
        let i = choose|i: int| 0 <= i < s.len() && s[i] == (k, v);
        lemma_map_of_index(s, i);
    } else if map_of(s).contains_key(k) && map_of(s)[k] == v {
        let i = choose|i: int| 0 <= i < s.len() && (#[trigger] s[i]).0 == k;
        lemma_map_of_index(s, i);
        assert(s[i] == (k, v));
    }
}

/// Pair sequences with unique keys that are permutations of one another
/// describe the same map: the map does not depend on insertion order.
pub proof fn lemma_map_of_permutation<V>(s1: Seq<(Seq<char>, V)>, s2: Seq<(Seq<char>, V)>)
    requires
        unique_keys(s1),
        unique_keys(s2),
        s1.to_multiset() == s2.to_multiset(),
    ensures
        map_of(s1) == map_of(s2),
{
    broadcast use vstd::seq_lib::group_to_multiset_ensures;

    assert forall|k: Seq<char>| #[trigger] map_of(s1).contains_key(k) implies map_of(
        s2,
    ).contains_key(k) && map_of(s2)[k] == map_of(s1)[k] by {
        let v = map_of(s1)[k];
        lemma_map_of_pair(s1, k, v);
        assert(s1.contains((k, v)));
        assert(s1.to_multiset().contains((k, v)));
        assert(s2.contains((k, v)));
        lemma_map_of_pair(s2, k, v);
    }
    assert forall|k: Seq<char>| #[trigger] map_of(s2).contains_key(k) implies map_of(
        s1,
    ).contains_key(k) by {
        let v = map_of(s2)[k];
        lemma_map_of_pair(s2, k, v);
        assert(s2.contains((k, v)));
        assert(s2.to_multiset().contains((k, v)));
        assert(s1.contains((k, v)));
        lemma_map_of_pair(s1, k, v);
    }
    assert(map_of(s1) =~= map_of(s2));
}

/// Removing an element keeps a sequence free of duplicates.
proof fn lemma_no_duplicates_remove<A>(s: Seq<A>, i: int)
    requires
        s.no_duplicates(),
        0 <= i < s.len(),
    ensures
        s.remove(i).no_duplicates(),
{
    let t = s.remove(i);
    assert forall|p: int, q: int|
        0 <= p < t.len() && 0 <= q < t.len() && p != q implies t[p] != t[q] by {
        assert(t[p] == (if p < i {
            s[p]
        } else {
            s[p + 1]
        }));
        assert(t[q] == (if q < i {
            s[q]
        } else {
            s[q + 1]
        }));
    }
}

/// The views of a vector of owned string pairs.
pub open spec fn entries_view(s: Seq<(String, String)>) -> Seq<(Seq<char>, Seq<char>)> {
    s.map_values(|p: (String, String)| (p.0@, p.1@))
}

/// A set of request parameters: parameter names mapped to string values.
/// Keys are unique; insertion order is kept but never affects the canonical
/// forms derived from the set.
pub struct ParamSet {
    entries: Vec<(String, String)>,
}

impl ParamSet {
    /// The stored pairs, in insertion order.
    pub closed spec fn pairs(&self) -> Seq<(Seq<char>, Seq<char>)> {
        entries_view(self.entries@)
    }

    /// Well-formed: no parameter name occurs twice.
    pub open spec fn wf(&self) -> bool {
        unique_keys(self.pairs())
    }

    /// The mapping the set denotes.
    pub open spec fn view(&self) -> Map<Seq<char>, Seq<char>> {
        map_of(self.pairs())
    }

    /// An empty parameter set.
    pub fn new() -> (r: ParamSet)
        ensures
            r.wf(),
            r@ == Map::<Seq<char>, Seq<char>>::empty(),
            r.pairs() == Seq::<(Seq<char>, Seq<char>)>::empty(),
    {
        let r = ParamSet { entries: Vec::new() };
        proof {
            assert(r.pairs() =~= Seq::<(Seq<char>, Seq<char>)>::empty());
        }
        r
    }

    /// The index of the pair carrying key `k`, if any.
    fn find(&self, k: &str) -> (r: Option<usize>)
        ensures
            match r {
                Some(i) => 0 <= i < self.pairs().len() && self.pairs()[i as int].0 == k@,
                None => !has_key(self.pairs(), k@),
            },
    {
        let n = self.entries.len();
        let mut i: usize = 0;
        while i < n
            invariant
                0 <= i <= n,
                n == self.entries.len(),
                forall|j: int| 0 <= j < i ==> (#[trigger] self.pairs()[j]).0 != k@,
            decreases n - i,
        {
            if crate::lex::str_eq(self.entries[i].0.as_str(), k) {
                proof {
                    assert(self.pairs()[i as int].0 == k@);
                }
                return Some(i);
            }
            proof {
                assert(self.pairs()[i as int].0 == self.entries@[i as int].0@);
            }
            i = i + 1;
        }
        None
    }

    /// Whether a parameter of this name is present.
    pub fn contains_key(&self, k: &str) -> (r: bool)
        ensures
            r == self@.contains_key(k@),
    {
        proof {
            lemma_map_of_dom(self.pairs(), k@);
        }
        match self.find(k) {
            Some(_) => true,
            None => false,
        }
    }

    /// The value of the parameter named `k`, if present.
    pub fn get(&self, k: &str) -> (r: Option<&String>)
        requires
            self.wf(),
        ensures
            match r {
                Some(v) => self@.contains_key(k@) && v@ == self@[k@],
                None => !self@.contains_key(k@),
            },
    {
        proof {
            lemma_map_of_dom(self.pairs(), k@);
        }
        match self.find(k) {
            Some(i) => {
                proof {
                    lemma_map_of_index(self.pairs(), i as int);
                }
                Some(&self.entries[i].1)
            },
            None => None,
        }
    }

    /// Insert or overwrite the parameter named `k`.
    pub fn insert(&mut self, k: &str, v: &str)
        requires
            old(self).wf(),
        ensures
            final(self).wf(),
            final(self)@ == old(self)@.insert(k@, v@),
            !old(self)@.contains_key(k@) ==> final(self).pairs() == old(self).pairs().push(
                (k@, v@),
            ),
    {
        proof {
            lemma_map_of_dom(self.pairs(), k@);
        }
        match self.find(k) {
            Some(i) => {
                proof {
                    lemma_map_of_update(self.pairs(), i as int, v@);
                }
                self.entries.set(i, (k.to_owned(), v.to_owned()));
                proof {
                    assert(self.pairs() =~= old(self).pairs().update(i as int, (k@, v@)));
                    assert(keys_of(self.pairs()) =~= keys_of(old(self).pairs()));
                }
            },
            None => {
                self.entries.push((k.to_owned(), v.to_owned()));
                proof {
                    assert(self.pairs() =~= old(self).pairs().push((k@, v@)));
                    lemma_map_of_push(old(self).pairs(), k@, v@);
                    assert(keys_of(self.pairs()) =~= keys_of(old(self).pairs()).push(k@));
                    assert(forall|j: int|
                        0 <= j < old(self).pairs().len() ==> (#[trigger] old(self).pairs()[j]).0
                            == keys_of(old(self).pairs())[j]);
                }
            },
        }
    }

    /// Remove the parameter named `k`, if present.
    pub fn remove(&mut self, k: &str)
        requires
            old(self).wf(),
        ensures
            final(self).wf(),
            final(self)@ == old(self)@.remove(k@),
    {
        proof {
            lemma_map_of_dom(self.pairs(), k@);
        }
        match self.find(k) {
            Some(i) => {
                proof {
                    lemma_map_of_remove(self.pairs(), i as int);
                }
                self.entries.remove(i);
                proof {
                    assert(self.pairs() =~= old(self).pairs().remove(i as int));
                    assert(keys_of(self.pairs()) =~= keys_of(old(self).pairs()).remove(i as int));
                    lemma_no_duplicates_remove(keys_of(old(self).pairs()), i as int);
                }
            },
            None => {
                proof {
                    assert(old(self)@.remove(k@) =~= old(self)@);
                }
            },
        }
    }

    /// How many parameters the set holds.
    pub fn len(&self) -> (r: usize)
        ensures
            r == self.pairs().len(),
    {
        self.entries.len()
    }

    /// Whether the set holds no parameters.
    pub fn is_empty(&self) -> (r: bool)
        ensures
            r == (self.pairs().len() == 0),
    {
        self.entries.len() == 0
    }

    /// The stored pairs, for iteration.
    pub fn entries(&self) -> (r: &Vec<(String, String)>)
        ensures
            entries_view(r@) == self.pairs(),
    {
        &self.entries
    }
}

} // verus!
