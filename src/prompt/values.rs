//! Variable bindings: a map from variable name to text.

use vstd::prelude::*;
use crate::text::{owned, same_text};

verus! {

/// No two entries of a keyed list share a key.
pub open spec fn keys_unique<V>(entries: Seq<(String, V)>) -> bool {
    forall|i: int, j: int|
        0 <= i < entries.len() && 0 <= j < entries.len() && i != j ==> #[trigger] entries[i].0@
            != #[trigger] entries[j].0@
}

/// The map that a list of pairs describes, a later pair overriding an earlier
/// one with the same key.
pub open spec fn pairs_map(s: Seq<(String, String)>) -> Map<Seq<char>, Seq<char>>
    decreases s.len(),
{
    if s.len() == 0 {
        Map::empty()
    } else {
        pairs_map(s.drop_last()).insert(s.last().0@, s.last().1@)
    }
}

/// A key is bound exactly when some pair carries it.
pub proof fn lemma_pairs_map_keys(s: Seq<(String, String)>, k: Seq<char>)
    ensures
        pairs_map(s).contains_key(k) <==> exists|i: int| 0 <= i < s.len() && #[trigger] s[i].0@ == k,
    decreases s.len(),
{
    if s.len() > 0 {
        lemma_pairs_map_keys(s.drop_last(), k);
        if pairs_map(s).contains_key(k) && k != s.last().0@ {
            let i = choose|i: int| 0 <= i < s.drop_last().len() && #[trigger] s.drop_last()[i].0@ == k;
            assert(s[i].0@ == k);
        }
        if exists|i: int| 0 <= i < s.len() && #[trigger] s[i].0@ == k {
            let i = choose|i: int| 0 <= i < s.len() && #[trigger] s[i].0@ == k;
            if i < s.len() - 1 {
                assert(s.drop_last()[i].0@ == k);
            }
        }
    }
}

/// With unique keys, each pair's key is bound to that pair's value.
pub proof fn lemma_pairs_map_value(s: Seq<(String, String)>, i: int)
    requires
        keys_unique(s),
        0 <= i < s.len(),
    ensures
        pairs_map(s).contains_key(s[i].0@),
        pairs_map(s)[s[i].0@] == s[i].1@,
    decreases s.len(),
{
    if i < s.len() - 1 {
        let d = s.drop_last();
        assert(d[i] == s[i]);
        assert(keys_unique(d)) by {
            assert forall|a: int, b: int|
                0 <= a < d.len() && 0 <= b < d.len() && a != b implies #[trigger] d[a].0@
                != #[trigger] d[b].0@ by {
                assert(d[a] == s[a] && d[b] == s[b]);
            }
        }
        lemma_pairs_map_value(d, i);
        assert(s[i].0@ != s[s.len() - 1].0@);
    }
}

/// Replacing the value of a pair, keys unique, rebinds that key alone.
pub proof fn lemma_pairs_map_update(s: Seq<(String, String)>, i: int, p: (String, String))
    requires
        keys_unique(s),
        0 <= i < s.len(),
        p.0@ == s[i].0@,
    ensures
        keys_unique(s.update(i, p)),
        pairs_map(s.update(i, p)) == pairs_map(s).insert(p.0@, p.1@),
{
    let t = s.update(i, p);
    assert(keys_unique(t)) by {
        assert forall|a: int, b: int|
            0 <= a < t.len() && 0 <= b < t.len() && a != b implies #[trigger] t[a].0@
            != #[trigger] t[b].0@ by {
            assert(t[a].0@ == s[a].0@ && t[b].0@ == s[b].0@);
        }
    }
    let m = pairs_map(s).insert(p.0@, p.1@);
    assert forall|k: Seq<char>| #[trigger] pairs_map(t).contains_key(k) == m.contains_key(k) by {
        lemma_pairs_map_keys(s, k);
        lemma_pairs_map_keys(t, k);
        if exists|j: int| 0 <= j < s.len() && #[trigger] s[j].0@ == k {
            let j = choose|j: int| 0 <= j < s.len() && #[trigger] s[j].0@ == k;
            assert(t[j].0@ == k);
        }
        if exists|j: int| 0 <= j < t.len() && #[trigger] t[j].0@ == k {
            let j = choose|j: int| 0 <= j < t.len() && #[trigger] t[j].0@ == k;
            assert(s[j].0@ == k);
        }
    }
    assert forall|k: Seq<char>| #[trigger] pairs_map(t).contains_key(k) implies pairs_map(t)[k]
        == m[k] by {
        lemma_pairs_map_keys(t, k);
        let j = choose|j: int| 0 <= j < t.len() && #[trigger] t[j].0@ == k;
        lemma_pairs_map_value(t, j);
        if j != i {
            lemma_pairs_map_value(s, j);
        }
    }
    assert(pairs_map(t) =~= m);
}

/// The variable bindings of one generation run.
#[derive(Debug)]
pub struct TemplateValues {
    values: Vec<(String, String)>,
}

impl View for TemplateValues {
    type V = Map<Seq<char>, Seq<char>>;

    closed spec fn view(&self) -> Map<Seq<char>, Seq<char>> {
        pairs_map(self.values@)
    }
}

impl TemplateValues {
    /// Each variable is bound at most once.
    pub closed spec fn well_formed(&self) -> bool {
        keys_unique(self.values@)
    }

    pub fn new() -> (r: Self)
        ensures
            r.well_formed(),
            r@ == Map::<Seq<char>, Seq<char>>::empty(),
    {
        TemplateValues { values: Vec::new() }
    }

    /// Bindings made from pairs, a later pair overriding an earlier one with
    /// the same key.
    pub fn from_pairs(pairs: Vec<(String, String)>) -> (r: Self)
        ensures
            r.well_formed(),
            r@ == pairs_map(pairs@),
    {
        let ghost given = pairs@;
        let mut r = TemplateValues::new();
        r.extend(pairs);
        assert(Map::<Seq<char>, Seq<char>>::empty().union_prefer_right(pairs_map(given)) =~= pairs_map(
            given,
        ));
        r
    }

    /// The position of `key`, if it is bound.
    fn position(&self, key: &str) -> (r: Option<usize>)
        requires
            self.well_formed(),
        ensures
            match r {
                Some(i) => i < self.values@.len() && self.values@[i as int].0@ == key@,
                None => !self@.contains_key(key@),
            },
    {
        let mut i: usize = 0;
        while i < self.values.len()
            invariant
                i <= self.values@.len(),
                forall|j: int| 0 <= j < i ==> #[trigger] self.values@[j].0@ != key@,
            decreases self.values.len() - i,
        {
            if same_text(self.values[i].0.as_str(), key) {
                return Some(i);
            }
            i = i + 1;
        }
        proof {
            lemma_pairs_map_keys(self.values@, key@);
        }
        None
    }

    /// Binds `key` to `value`, replacing an earlier binding of `key`.
    pub fn set(&mut self, key: &str, value: &str)
        requires
            old(self).well_formed(),
        ensures
            final(self).well_formed(),
            final(self)@ == old(self)@.insert(key@, value@),
    {
        let pair = (owned(key), owned(value));
        match self.position(key) {
            Some(i) => {
                proof {
                    lemma_pairs_map_update(self.values@, i as int, pair);
                }
                self.values[i] = pair;
            },
            None => {
                proof {
                    assert forall|j: int| 0 <= j < self.values@.len() implies #[trigger] self.values@[j].0@
                        != key@ by {
                        lemma_pairs_map_keys(self.values@, key@);
                    }
                }
                let ghost before = self.values@;
                self.values.push(pair);
                assert(self.values@.drop_last() =~= before);
            },
        }
    }

    pub fn get(&self, key: &str) -> (r: Option<&String>)
        requires
            self.well_formed(),
        ensures
            match r {
                Some(v) => self@.contains_key(key@) && self@[key@] == v@,
                None => !self@.contains_key(key@),
            },
    {
        match self.position(key) {
            Some(i) => {
                proof {
                    lemma_pairs_map_value(self.values@, i as int);
                }
                Some(&self.values[i].1)
            },
            None => None,
        }
    }

    pub fn contains(&self, key: &str) -> (r: bool)
        requires
            self.well_formed(),
        ensures
            r == self@.contains_key(key@),
    {
        match self.position(key) {
            Some(i) => {
                proof {
                    lemma_pairs_map_value(self.values@, i as int);
                }
                true
            },
            None => false,
        }
    }

    /// The bindings as pairs, each variable once.
    pub fn into_map(self) -> (r: Vec<(String, String)>)
        requires
            self.well_formed(),
        ensures
            keys_unique(r@),
            pairs_map(r@) == self@,
    {
        self.values
    }

    /// The bindings as pairs, each variable once.
    pub fn entries(&self) -> (r: &Vec<(String, String)>)
        requires
            self.well_formed(),
        ensures
            keys_unique(r@),
            pairs_map(r@) == self@,
    {
        &self.values
    }

    /// Binds every pair of `other` in turn, so that its bindings override the
    /// existing ones, and a later pair of `other` an earlier one.
    pub fn extend(&mut self, other: Vec<(String, String)>)
        requires
            old(self).well_formed(),
        ensures
            final(self).well_formed(),
            final(self)@ == old(self)@.union_prefer_right(pairs_map(other@)),
    {
        let mut i: usize = 0;
        assert(other@.subrange(0, 0) =~= Seq::<(String, String)>::empty());
        assert(old(self)@.union_prefer_right(Map::empty()) =~= old(self)@);
        while i < other.len()
            invariant
                i <= other@.len(),
                self.well_formed(),
                self@ == old(self)@.union_prefer_right(pairs_map(other@.subrange(0, i as int))),
            decreases other.len() - i,
        {
            let ghost before = pairs_map(other@.subrange(0, i as int));
            self.set(other[i].0.as_str(), other[i].1.as_str());
            assert(other@.subrange(0, i + 1).drop_last() =~= other@.subrange(0, i as int));
            assert(pairs_map(other@.subrange(0, i + 1)) == before.insert(other@[i as int].0@, other@[i as int].1@));
            i = i + 1;
            assert(self@ =~= old(self)@.union_prefer_right(pairs_map(other@.subrange(0, i as int))));
        }
        assert(other@.subrange(0, other@.len() as int) =~= other@);
    }
}

} // verus!
