//! A string-keyed map held as a vector of key/value pairs.
//!
//! Keys are unique; inserting an existing key overwrites its value in
//! place. The abstract value of a map is a `Map` from character
//! sequences (the keys' contents) to values, so contracts elsewhere in
//! the crate can speak of key-wise unions directly.

use vstd::prelude::*;

verus! {

/// A finite map from string keys to values of type `V`.
#[derive(Debug)]
pub struct StrMap<V> {
    pairs: Vec<(String, V)>,
}

/// No two pairs carry the same key.
spec fn unique_keys<V>(pairs: Seq<(String, V)>) -> bool {
    forall|i: int, j: int|
        0 <= i < j < pairs.len() ==> pairs[i].0@ != pairs[j].0@
}

/// The map described by a pair sequence; a later pair overrides an
/// earlier one with the same key.
spec fn map_of<V>(pairs: Seq<(String, V)>) -> Map<Seq<char>, V>
    decreases pairs.len(),
{
    if pairs.len() == 0 {
        Map::empty()
    } else {
        map_of(pairs.drop_last()).insert(pairs.last().0@, pairs.last().1)
    }
}

impl<V> View for StrMap<V> {
    type V = Map<Seq<char>, V>;

    closed spec fn view(&self) -> Map<Seq<char>, V> {
        map_of(self.pairs@)
    }
}

proof fn lemma_map_of_contains<V>(pairs: Seq<(String, V)>, k: Seq<char>)
    ensures
        map_of(pairs).contains_key(k) <==> exists|i: int|
            0 <= i < pairs.len() && pairs[i].0@ == k,
    decreases pairs.len(),
{
    if pairs.len() > 0 {
        lemma_map_of_contains(pairs.drop_last(), k);
        if pairs.last().0@ == k {
            assert(pairs[pairs.len() - 1].0@ == k);
        } else if exists|i: int| 0 <= i < pairs.drop_last().len() && pairs.drop_last()[i].0@ == k {
            let i = choose|i: int| 0 <= i < pairs.drop_last().len() && pairs.drop_last()[i].0@ == k;
            assert(pairs[i].0@ == k);
        } else if exists|i: int| 0 <= i < pairs.len() && pairs[i].0@ == k {
            let i = choose|i: int| 0 <= i < pairs.len() && pairs[i].0@ == k;
            assert(pairs.drop_last()[i].0@ == k);
        }
    }
}

proof fn lemma_map_of_index<V>(pairs: Seq<(String, V)>, i: int)
    requires
        unique_keys(pairs),
        0 <= i < pairs.len(),
    ensures
        map_of(pairs).contains_key(pairs[i].0@),
        map_of(pairs)[pairs[i].0@] == pairs[i].1,
    decreases pairs.len(),
{
    if i < pairs.len() - 1 {
        assert(pairs.drop_last()[i] == pairs[i]);
        lemma_map_of_index(pairs.drop_last(), i);
        assert(pairs.last().0@ != pairs[i].0@);
    }
}

proof fn lemma_map_of_dom_len<V>(pairs: Seq<(String, V)>)
    requires
        unique_keys(pairs),
    ensures
        map_of(pairs).dom().finite(),
        map_of(pairs).dom().len() == pairs.len(),
    decreases pairs.len(),
{
    if pairs.len() == 0 {
        assert(map_of(pairs).dom() =~= Set::<Seq<char>>::empty());
    } else {
        lemma_map_of_dom_len(pairs.drop_last());
        lemma_map_of_contains(pairs.drop_last(), pairs.last().0@);
        assert(forall|i: int|
            0 <= i < pairs.drop_last().len() ==> pairs.drop_last()[i].0@ != pairs.last().0@);
        assert(!map_of(pairs.drop_last()).contains_key(pairs.last().0@));
    }
}

proof fn lemma_map_of_push<V>(pairs: Seq<(String, V)>, k: String, v: V)
    ensures
        map_of(pairs.push((k, v))) == map_of(pairs).insert(k@, v),
{
    assert(pairs.push((k, v)).drop_last() =~= pairs);
    assert(pairs.push((k, v)).last() == (k, v));
}

proof fn lemma_map_of_update<V>(pairs: Seq<(String, V)>, i: int, k: String, v: V)
    requires
        unique_keys(pairs),
        0 <= i < pairs.len(),
        pairs[i].0@ == k@,
    ensures
        map_of(pairs.update(i, (k, v))) == map_of(pairs).insert(k@, v),
    decreases pairs.len(),
{
    let upd = pairs.update(i, (k, v));
    if i == pairs.len() - 1 {
        assert(upd.drop_last() =~= pairs.drop_last());
        assert(upd.last() == (k, v));
        assert(map_of(pairs.drop_last()).insert(pairs.last().0@, pairs.last().1).insert(k@, v)
            =~= map_of(pairs.drop_last()).insert(k@, v));
    } else {
        assert(upd.drop_last() =~= pairs.drop_last().update(i, (k, v)));
        assert(upd.last() == pairs.last());
        lemma_map_of_update(pairs.drop_last(), i, k, v);
        assert(pairs.last().0@ != k@);
        assert(map_of(pairs.drop_last()).insert(k@, v).insert(pairs.last().0@, pairs.last().1)
            =~= map_of(pairs.drop_last()).insert(pairs.last().0@, pairs.last().1).insert(k@, v));
    }
}

proof fn lemma_union_insert_right<V>(a: Map<Seq<char>, V>, b: Map<Seq<char>, V>, k: Seq<char>, v: V)
    ensures
        a.union_prefer_right(b.insert(k, v)) == a.union_prefer_right(b).insert(k, v),
{
    assert(a.union_prefer_right(b.insert(k, v)) =~= a.union_prefer_right(b).insert(k, v));
}

impl<V: Clone> Clone for StrMap<V> {
    /// The clone holds exactly the keys of the original; each value is
    /// a clone of the original's value under the same key.
    fn clone(&self) -> (res: Self)
        ensures
            res@.dom() == self@.dom(),
            forall|k: Seq<char>| #[trigger]
                res@.dom().contains(k) ==> cloned::<V>(self@[k], res@[k]),
    {
        proof {
            use_type_invariant(self);
        }
        let mut pairs: Vec<(String, V)> = Vec::new();
        let n = self.pairs.len();
        let mut i: usize = 0;
        while i < n
            invariant
                i <= n,
                n == self.pairs@.len(),
                pairs@.len() == i,
                forall|j: int| 0 <= j < i ==> pairs@[j].0 == self.pairs@[j].0,
                forall|j: int| 0 <= j < i ==> cloned::<V>(self.pairs@[j].1, pairs@[j].1),
            decreases n - i,
        {
            let k = self.pairs[i].0.clone();
            let v = self.pairs[i].1.clone();
            pairs.push((k, v));
            i = i + 1;
        }
        let res = StrMap { pairs };
        proof {
            assert(unique_keys(res.pairs@));
            assert forall|k: Seq<char>|
                res@.dom().contains(k) <==> self@.dom().contains(k) by {
                lemma_map_of_contains(res.pairs@, k);
                lemma_map_of_contains(self.pairs@, k);
                if res@.dom().contains(k) {
                    let j = choose|j: int|
                        0 <= j < res.pairs@.len() && res.pairs@[j].0@ == k;
                    assert(self.pairs@[j].0@ == k);
                }
                if self@.dom().contains(k) {
                    let j = choose|j: int|
                        0 <= j < self.pairs@.len() && self.pairs@[j].0@ == k;
                    assert(res.pairs@[j].0@ == k);
                }
            }
            assert(res@.dom() =~= self@.dom());
            assert forall|k: Seq<char>| #[trigger]
                res@.dom().contains(k) implies cloned::<V>(self@[k], res@[k]) by {
                lemma_map_of_contains(res.pairs@, k);
                let j = choose|j: int| 0 <= j < res.pairs@.len() && res.pairs@[j].0@ == k;
                lemma_map_of_index(res.pairs@, j);
                lemma_map_of_index(self.pairs@, j);
            }
        }
        res
    }
}

impl<V> StrMap<V> {
    #[verifier::type_invariant]
    spec fn wf(&self) -> bool {
        unique_keys(self.pairs@)
    }

    /// An empty map.
    pub fn new() -> (r: Self)
        ensures
            r@ == Map::<Seq<char>, V>::empty(),
    {
        let m = StrMap { pairs: Vec::new() };
        proof {
            assert(m@ =~= Map::<Seq<char>, V>::empty());
        }
        m
    }

    /// Index of the pair holding `key`, if one does.
    fn find_idx(&self, key: &String) -> (r: Option<usize>)
        ensures
            match r {
                Some(i) => i < self.pairs@.len() && self.pairs@[i as int].0@ == key@,
                None => forall|j: int| 0 <= j < self.pairs@.len() ==> self.pairs@[j].0@ != key@,
            },
    {
        let mut i: usize = 0;
        let n = self.pairs.len();
        while i < n
            invariant
                i <= n,
                n == self.pairs@.len(),
                forall|j: int| 0 <= j < i ==> self.pairs@[j].0@ != key@,
            decreases n - i,
        {
            if self.pairs[i].0 == *key {
                return Some(i);
            }
            i = i + 1;
        }
        None
    }

    /// The number of keys in the map.
    pub fn len(&self) -> (r: usize)
        ensures
            r == self@.dom().len(),
    {
        proof {
            use_type_invariant(self);
            lemma_map_of_dom_len(self.pairs@);
        }
        self.pairs.len()
    }

    /// Whether the map holds no key at all.
    pub fn is_empty(&self) -> (r: bool)
        ensures
            r == (self@.dom().len() == 0),
    {
        self.len() == 0
    }

    /// Whether `key` is present.
    pub fn contains_key(&self, key: &String) -> (r: bool)
        ensures
            r == self@.contains_key(key@),
    {
        proof {
            use_type_invariant(self);
            lemma_map_of_contains(self.pairs@, key@);
        }
        match self.find_idx(key) {
            Some(_) => true,
            None => false,
        }
    }

    /// The value held under `key`, if any.
    pub fn get(&self, key: &String) -> (r: Option<&V>)
        ensures
            match r {
                Some(v) => self@.contains_key(key@) && *v == self@[key@],
                None => !self@.contains_key(key@),
            },
    {
        proof {
            use_type_invariant(self);
        }
        match self.find_idx(key) {
            Some(i) => {
                proof {
                    lemma_map_of_index(self.pairs@, i as int);
                }
                Some(&self.pairs[i].1)
            },
            None => {
                proof {
                    lemma_map_of_contains(self.pairs@, key@);
                }
                None
            },
        }
    }

    /// Bind `key` to `value`; an existing binding of `key` is
    /// overwritten in place.
    pub fn insert(&mut self, key: String, value: V)
        ensures
            final(self)@ == old(self)@.insert(key@, value),
    {
        proof {
            use_type_invariant(&*self);
        }
        let found = self.find_idx(&key);
        let mut pairs: Vec<(String, V)> = Vec::new();
        core::mem::swap(&mut pairs, &mut self.pairs);
        let ghost orig = pairs@;
        match found {
            Some(i) => {
                let _replaced = pairs.remove(i);
                pairs.insert(i, (key, value));
                proof {
                    assert(pairs@ =~= orig.update(i as int, (key, value)));
                    lemma_map_of_update(orig, i as int, key, value);
                    assert(unique_keys(pairs@));
                }
            },
            None => {
                pairs.push((key, value));
                proof {
                    lemma_map_of_push(orig, key, value);
                    assert(unique_keys(pairs@));
                }
            },
        }
        self.pairs = pairs;
    }

    /// Fold every pair of `other` into `self`; on a key collision the
    /// entry of `other` wins.
    pub fn extend(&mut self, other: StrMap<V>)
        ensures
            final(self)@ == old(self)@.union_prefer_right(other@),
    {
        proof {
            use_type_invariant(&*self);
            use_type_invariant(&other);
        }
        let ghost base = self@;
        let mut o = other;
        let mut rest: Vec<(String, V)> = Vec::new();
        core::mem::swap(&mut rest, &mut o.pairs);
        let ghost full = rest@;
        while rest.len() > 0
            invariant
                unique_keys(full),
                rest@.len() <= full.len(),
                rest@ == full.skip(full.len() - rest@.len()),
                self@ == base.union_prefer_right(map_of(full.take(full.len() - rest@.len()))),
            decreases rest@.len(),
        {
            let ghost done = full.len() - rest@.len();
            let ghost pre = rest@;
            let (k, v) = rest.remove(0);
            proof {
                assert(pre[0] == full[done]);
                assert((k, v) == full[done]);
                assert(rest@ =~= full.skip(done + 1)) by {
                    assert forall|i: int| 0 <= i < rest@.len() implies rest@[i] == full.skip(
                        done + 1,
                    )[i] by {
                        assert(rest@[i] == pre[i + 1]);
                        assert(pre[i + 1] == full[done + 1 + i]);
                    }
                }
                assert(full.take(done + 1) =~= full.take(done).push(full[done]));
                lemma_map_of_push(full.take(done), k, v);
                lemma_union_insert_right(base, map_of(full.take(done)), k@, v);
            }
            self.insert(k, v);
            proof {
                assert(full.len() - rest@.len() == done + 1);
                assert(self@ == base.union_prefer_right(map_of(full.take(done + 1))));
            }
        }
        proof {
            assert(full.take(full.len() as int) =~= full);
            assert(other@ == map_of(full));
        }
    }
}

} // verus!
