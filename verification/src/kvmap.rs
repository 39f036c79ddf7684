//! A verified association map from string keys to string values.
//!
//! Configuration fragments carry several mapping-valued fields (environment
//! variables, labels, annotations, secret files).  Merging two fragments
//! takes the key-wise union of such a field, with the incoming side winning
//! on key collision.  `KvMap` is the container for those fields: a vector of
//! unique-keyed pairs whose view is a `Map<Seq<char>, Seq<char>>`.

use vstd::prelude::*;

verus! {

/// Mathematical contents of a pair sequence: later pairs win.
pub open spec fn map_of(s: Seq<(String, String)>) -> Map<Seq<char>, Seq<char>>
    decreases s.len(),
{
    if s.len() == 0 {
        Map::empty()
    } else {
        map_of(s.drop_last()).insert(s.last().0@, s.last().1@)
    }
}

/// Key uniqueness of a pair sequence.
pub open spec fn unique_keys(s: Seq<(String, String)>) -> bool {
    forall|i: int, j: int| 0 <= i < j < s.len() ==> s[i].0@ != s[j].0@
}

/// A key is in the contents exactly when some pair carries it.
pub proof fn lemma_map_of_contains(s: Seq<(String, String)>, k: Seq<char>)
    ensures
        map_of(s).contains_key(k) <==> exists|i: int| 0 <= i < s.len() && s[i].0@ == k,
    decreases s.len(),
{
    if s.len() > 0 {
        lemma_map_of_contains(s.drop_last(), k);
        if s.last().0@ != k && map_of(s).contains_key(k) {
            let i = choose|i: int| 0 <= i < s.drop_last().len() && s.drop_last()[i].0@ == k;
            assert(s[i].0@ == k);
        }
        if exists|i: int| 0 <= i < s.len() && s[i].0@ == k {
            let i = choose|i: int| 0 <= i < s.len() && s[i].0@ == k;
            if i < s.len() - 1 {
                assert(s.drop_last()[i].0@ == k);
            }
        }
    }
}

/// With unique keys, the pair carrying a key gives its value.
pub proof fn lemma_map_of_index(s: Seq<(String, String)>, i: int)
    requires
        unique_keys(s),
        0 <= i < s.len(),
    ensures
        map_of(s).contains_key(s[i].0@),
        map_of(s)[s[i].0@] == s[i].1@,
    decreases s.len(),
{
    lemma_map_of_contains(s, s[i].0@);
    if i < s.len() - 1 {
        assert(s.drop_last()[i] == s[i]);
        lemma_map_of_index(s.drop_last(), i);
    }
}

/// Updating the pair that carries a key is an insert on the contents.
proof fn lemma_map_of_update(s: Seq<(String, String)>, i: int, p: (String, String))
    requires
        unique_keys(s),
        0 <= i < s.len(),
        s[i].0@ == p.0@,
    ensures
        map_of(s.update(i, p)) =~= map_of(s).insert(p.0@, p.1@),
    decreases s.len(),
{
    if i == s.len() - 1 {
        assert(s.update(i, p).drop_last() =~= s.drop_last());
    } else {
        assert(s.update(i, p).drop_last() =~= s.drop_last().update(i, p));
        lemma_map_of_update(s.drop_last(), i, p);
        assert(s.update(i, p).last() == s.last());
        lemma_map_of_index(s, i);
    }
}

/// Association map with string keys and values; insertion order is kept.
#[derive(Clone, Debug, PartialEq, Eq)]
pub struct KvMap {
    pub pairs: Vec<(String, String)>,
}

impl View for KvMap {
    type V = Map<Seq<char>, Seq<char>>;

    open spec fn view(&self) -> Map<Seq<char>, Seq<char>> {
        map_of(self.pairs@)
    }
}

impl Default for KvMap {
    /// The empty map.
    fn default() -> (r: KvMap)
        ensures
            r.wf(),
            r@ == Map::<Seq<char>, Seq<char>>::empty(),
    {
        KvMap::new()
    }
}

impl KvMap {
    /// Key uniqueness; established by the constructor, kept by every method.
    pub open spec fn wf(&self) -> bool {
        unique_keys(self.pairs@)
    }

    /// The pairs in insertion order, as a sequence of views.
    pub open spec fn entries(&self) -> Seq<(Seq<char>, Seq<char>)> {
        self.pairs@.map_values(|p: (String, String)| (p.0@, p.1@))
    }

    pub fn new() -> (r: KvMap)
        ensures
            r.wf(),
            r@ == Map::<Seq<char>, Seq<char>>::empty(),
            r.entries() =~= Seq::<(Seq<char>, Seq<char>)>::empty(),
    {
        KvMap { pairs: Vec::new() }
    }

    pub fn len(&self) -> (n: usize)
        ensures
            n == self.pairs@.len(),
    {
        self.pairs.len()
    }

    /// Number of pairs; equals the cardinality of the view's domain when `wf`.
    pub fn is_empty(&self) -> (b: bool)
        requires
            self.wf(),
        ensures
            b == (self@ =~= Map::<Seq<char>, Seq<char>>::empty()),
    {
        proof {
            if self.pairs@.len() > 0 {
                lemma_map_of_index(self.pairs@, 0);
            } else {
                assert(self@ =~= Map::<Seq<char>, Seq<char>>::empty());
            }
        }
        self.pairs.len() == 0
    }

    /// The pair at an index, for iteration by callers.
    pub fn pair_at(&self, i: usize) -> (p: (&String, &String))
        requires
            i < self.pairs@.len(),
        ensures
            p.0@ == self.entries()[i as int].0,
            p.1@ == self.entries()[i as int].1,
    {
        let p = &self.pairs[i];
        (&p.0, &p.1)
    }

    fn position_of(&self, key: &String) -> (r: Option<usize>)
        ensures
            match r {
                Some(i) => i < self.pairs@.len() && self.pairs@[i as int].0@ == key@,
                None => forall|i: int| 0 <= i < self.pairs@.len() ==> self.pairs@[i].0@ != key@,
            },
    {
        let n = self.pairs.len();
        let mut i: usize = 0;
        while i < n
            invariant
                n == self.pairs@.len(),
                i <= n,
                forall|j: int| 0 <= j < i ==> self.pairs@[j].0@ != key@,
            decreases n - i,
        {
            if self.pairs[i].0 == *key {
                return Some(i);
            }
            i += 1;
        }
        None
    }

    pub fn get(&self, key: &String) -> (r: Option<&String>)
        requires
            self.wf(),
        ensures
            match r {
                Some(v) => self@.contains_key(key@) && v@ == self@[key@],
                None => !self@.contains_key(key@),
            },
    {
        proof {
            lemma_map_of_contains(self.pairs@, key@);
        }
        match self.position_of(key) {
            Some(i) => {
                proof {
                    lemma_map_of_index(self.pairs@, i as int);
                }
                Some(&self.pairs[i].1)
            },
            None => None,
        }
    }

    pub fn contains_key(&self, key: &String) -> (b: bool)
        requires
            self.wf(),
        ensures
            b == self@.contains_key(key@),
    {
        self.get(key).is_some()
    }

    /// Insert a pair; an existing pair with the same key is overwritten in
    /// place, a new key is appended at the end.
    pub fn insert(&mut self, key: String, value: String)
        requires
            old(self).wf(),
        ensures
            final(self).wf(),
            final(self)@ == old(self)@.insert(key@, value@),
    {
        let ghost gk = key@;
        let ghost gv = value@;
        match self.position_of(&key) {
            Some(i) => {
                proof {
                    lemma_map_of_update(self.pairs@, i as int, (key, value));
                }
                self.pairs[i] = (key, value);
                proof {
                    assert(self@ =~= old(self)@.insert(gk, gv));
                }
            },
            None => {
                self.pairs.push((key, value));
                proof {
                    assert(self.pairs@.drop_last() =~= old(self).pairs@);
                    assert(self@ =~= old(self)@.insert(gk, gv));
                    assert forall|i: int, j: int|
                        0 <= i < j < self.pairs@.len() implies self.pairs@[i].0@ != self
                        .pairs@[j].0@ by {
                        if j == self.pairs@.len() - 1 {
                            assert(old(self).pairs@[i].0@ != gk);
                        }
                    }
                }
            },
        }
    }

    /// A fresh map with the same pairs in the same order.
    pub fn duplicate(&self) -> (r: KvMap)
        ensures
            r.pairs@ == self.pairs@,
            r@ == self@,
            r.wf() == self.wf(),
    {
        let mut pairs: Vec<(String, String)> = Vec::new();
        let n = self.pairs.len();
        let mut i: usize = 0;
        while i < n
            invariant
                n == self.pairs@.len(),
                i <= n,
                pairs@ =~= self.pairs@.take(i as int),
            decreases n - i,
        {
            let p = &self.pairs[i];
            pairs.push((p.0.clone(), p.1.clone()));
            i += 1;
        }
        proof {
            assert(self.pairs@.take(n as int) =~= self.pairs@);
        }
        KvMap { pairs }
    }

    /// Key-wise union of two maps; `other` wins on key collision.
    pub fn merge(&self, other: &KvMap) -> (r: KvMap)
        requires
            self.wf(),
            other.wf(),
        ensures
            r.wf(),
            r@ == self@.union_prefer_right(other@),
    {
        let mut acc = self.duplicate();
        proof {
            assert(acc@ =~= self@.union_prefer_right(map_of(other.pairs@.take(0))));
        }
        let n = other.pairs.len();
        let mut i: usize = 0;
        while i < n
            invariant
                n == other.pairs@.len(),
                i <= n,
                acc.wf(),
                other.wf(),
                acc@ == self@.union_prefer_right(map_of(other.pairs@.take(i as int))),
            decreases n - i,
        {
            let p = &other.pairs[i];
            let (k, v) = (p.0.clone(), p.1.clone());
            proof {
                assert(other.pairs@.take(i + 1).drop_last() =~= other.pairs@.take(i as int));
                assert(self@.union_prefer_right(map_of(other.pairs@.take(i + 1))) =~= self@
                    .union_prefer_right(map_of(other.pairs@.take(i as int))).insert(k@, v@));
            }
            acc.insert(k, v);
            i += 1;
        }
        proof {
            assert(other.pairs@.take(n as int) =~= other.pairs@);
        }
        acc
    }
}

} // verus!
