//! A map from strings to values that remembers the order in which keys were
//! first inserted. Used for provider tables, per-tool permissions, tool
//! metadata and environment variables.
use vstd::prelude::*;

use crate::json::{JsonValue, JsonView};
use crate::text::{chars_eq, chars_of};

verus! {

/// Whether the keys of `s` are pairwise distinct.
pub open spec fn distinct_keys<V>(s: Seq<(Seq<char>, V)>) -> bool {
    forall|i: int, j: int| 0 <= i < j < s.len() ==> #[trigger] s[i].0 != #[trigger] s[j].0
}

/// Whether `k` is the key of some entry of `s`.
pub open spec fn has_key<V>(s: Seq<(Seq<char>, V)>, k: Seq<char>) -> bool {
    exists|i: int| 0 <= i < s.len() && #[trigger] s[i].0 == k
}

/// The index of an entry of `s` whose key is `k`.
pub open spec fn key_index<V>(s: Seq<(Seq<char>, V)>, k: Seq<char>) -> int {
    choose|i: int| 0 <= i < s.len() && #[trigger] s[i].0 == k
}

/// The map that an association list with distinct keys denotes.
pub open spec fn pairs_map<V>(s: Seq<(Seq<char>, V)>) -> Map<Seq<char>, V> {
    Map::new(|k: Seq<char>| has_key(s, k), |k: Seq<char>| s[key_index(s, k)].1)
}

pub proof fn lemma_key_index<V>(s: Seq<(Seq<char>, V)>, i: int)
    requires
        distinct_keys(s),
        0 <= i < s.len(),
    ensures
        has_key(s, s[i].0),
        key_index(s, s[i].0) == i,
        pairs_map(s).contains_key(s[i].0),
        pairs_map(s)[s[i].0] == s[i].1,
{
    let k = s[i].0;
    assert(has_key(s, k));
    let j = key_index(s, k);
    if j != i {
        if j < i {
            assert(s[j].0 != s[i].0);
        } else {
            assert(s[i].0 != s[j].0);
        }
    }
}

pub proof fn lemma_pairs_map_push<V>(s: Seq<(Seq<char>, V)>, k: Seq<char>, v: V)
    requires
        distinct_keys(s.push((k, v))),
    ensures
        distinct_keys(s),
        pairs_map(s.push((k, v))) == pairs_map(s).insert(k, v),
{
    let t = s.push((k, v));
    assert forall|i: int, j: int| 0 <= i < j < s.len() implies #[trigger] s[i].0 != #[trigger] s[j].0 by {
        assert(t[i].0 != t[j].0);
    }
    assert forall|x: Seq<char>| #[trigger] has_key(t, x) == (has_key(s, x) || x == k) by {
        if has_key(t, x) {
            let j = choose|j: int| 0 <= j < t.len() && #[trigger] t[j].0 == x;
            if j < s.len() {
                assert(s[j].0 == x);
            }
        }
        if has_key(s, x) {
            let j = choose|j: int| 0 <= j < s.len() && #[trigger] s[j].0 == x;
            assert(t[j].0 == x);
        }
        if x == k {
            assert(t[s.len() as int].0 == x);
        }
    }
    assert forall|x: Seq<char>| has_key(t, x) implies pairs_map(t)[x] == pairs_map(s).insert(k, v)[x] by {
        let j = key_index(t, x);
        lemma_key_index(t, j);
        if j < s.len() {
            assert(t[j].0 != t[s.len() as int].0);
            assert(s[j] == t[j]);
            lemma_key_index(s, j);
        }
    }
    assert(pairs_map(t) =~= pairs_map(s).insert(k, v));
}

/// A map from strings to values, in first-insertion order of its keys.
#[derive(Debug)]
pub struct StringMap<V> {
    entries: Vec<(String, V)>,
}

impl<V> StringMap<V> {
    /// The entries, keys taken by their characters, in order.
    pub closed spec fn pairs(&self) -> Seq<(Seq<char>, V)> {
        self.entries@.map_values(|e: (String, V)| (e.0@, e.1))
    }

    #[verifier::type_invariant]
    closed spec fn inv(&self) -> bool {
        distinct_keys(self.pairs())
    }

    /// An empty map.
    pub fn new() -> (m: Self)
        ensures
            m.pairs() == Seq::<(Seq<char>, V)>::empty(),
            m@ == Map::<Seq<char>, V>::empty(),
    {
        let m = StringMap { entries: Vec::new() };
        assert(m.pairs() =~= Seq::<(Seq<char>, V)>::empty());
        assert(m@ =~= Map::<Seq<char>, V>::empty());
        m
    }

    /// The number of entries.
    pub fn len(&self) -> (n: usize)
        ensures
            n == self.pairs().len(),
            distinct_keys(self.pairs()),
            self@ == pairs_map(self.pairs()),
    {
        proof {
            use_type_invariant(self);
        }
        self.entries.len()
    }

    /// Whether the map has no entries.
    pub fn is_empty(&self) -> (b: bool)
        ensures
            b == (self.pairs().len() == 0),
            b == (self@.dom() == Set::<Seq<char>>::empty()),
    {
        proof {
            if self.pairs().len() != 0 {
                use_type_invariant(self);
                lemma_key_index(self.pairs(), 0);
                assert(self@.dom().contains(self.pairs()[0].0));
            } else {
                assert(self@.dom() =~= Set::<Seq<char>>::empty());
            }
        }
        self.entries.len() == 0
    }

    /// The entries, in order.
    pub fn entries(&self) -> (r: &Vec<(String, V)>)
        ensures
            r@.map_values(|e: (String, V)| (e.0@, e.1)) == self.pairs(),
            distinct_keys(self.pairs()),
            self@ == pairs_map(self.pairs()),
    {
        proof {
            use_type_invariant(self);
        }
        &self.entries
    }

    /// The index of the entry whose key is `key`, if there is one.
    pub fn find(&self, key: &str) -> (r: Option<usize>)
        ensures
            match r {
                Some(i) => i < self.pairs().len() && self.pairs()[i as int].0 == key@,
                None => !has_key(self.pairs(), key@),
            },
    {
        let k = chars_of(key);
        let mut i: usize = 0;
        while i < self.entries.len()
            invariant
                i <= self.entries@.len(),
                k@ == key@,
                forall|j: int| 0 <= j < i ==> self.pairs()[j].0 != key@,
            decreases self.entries@.len() - i,
        {
            let ek = chars_of(self.entries[i].0.as_str());
            if chars_eq(ek.as_slice(), k.as_slice()) {
                return Some(i);
            }
            i = i + 1;
        }
        None
    }

    /// Whether some entry has key `key`.
    pub fn contains_key(&self, key: &str) -> (b: bool)
        ensures
            b == self@.contains_key(key@),
    {
        self.find(key).is_some()
    }

    /// The value stored under `key`.
    pub fn get(&self, key: &str) -> (r: Option<&V>)
        ensures
            match r {
                Some(v) => self@.contains_key(key@) && self@[key@] == *v,
                None => !self@.contains_key(key@),
            },
    {
        match self.find(key) {
            Some(i) => {
                proof {
                    use_type_invariant(self);
                    lemma_key_index(self.pairs(), i as int);
                }
                Some(&self.entries[i].1)
            },
            None => None,
        }
    }

    /// Stores `value` under `key`. An existing entry keeps its position; a new
    /// key goes at the end.
    pub fn insert(&mut self, key: String, value: V)
        ensures
            final(self)@ == old(self)@.insert(key@, value),
            has_key(old(self).pairs(), key@) ==> final(self).pairs() == old(self).pairs().update(
                key_index(old(self).pairs(), key@),
                (key@, value),
            ),
            !has_key(old(self).pairs(), key@) ==> final(self).pairs() == old(self).pairs().push(
                (key@, value),
            ),
    {
        proof {
            use_type_invariant(&*self);
        }
        let ghost old_pairs = self.pairs();
        match self.find(key.as_str()) {
            Some(i) => {
                proof {
                    lemma_key_index(old_pairs, i as int);
                }
                let mut entries = Vec::new();
                std::mem::swap(&mut entries, &mut self.entries);
                entries.set(i, (key, value));
                let ghost new_pairs = entries@.map_values(|e: (String, V)| (e.0@, e.1));
                assert(new_pairs =~= old_pairs.update(i as int, (old_pairs[i as int].0, value)));
                self.entries = entries;
                proof {
                    let np = self.pairs();
                    assert(np =~= new_pairs);
                    assert forall|k: Seq<char>| #[trigger] has_key(np, k) == has_key(old_pairs, k) by {
                        if has_key(np, k) {
                            let j = choose|j: int| 0 <= j < np.len() && #[trigger] np[j].0 == k;
                            assert(old_pairs[j].0 == k);
                        }
                        if has_key(old_pairs, k) {
                            let j = choose|j: int| 0 <= j < old_pairs.len() && #[trigger] old_pairs[j].0 == k;
                            assert(np[j].0 == k);
                        }
                    }
                    assert forall|k: Seq<char>| has_key(np, k) implies pairs_map(np)[k] == pairs_map(
                        old_pairs,
                    ).insert(key@, value)[k] by {
                        let j = key_index(np, k);
                        lemma_key_index(np, j);
                        lemma_key_index(old_pairs, j);
                    }
                    assert(pairs_map(np) =~= pairs_map(old_pairs).insert(key@, value));
                }
            },
            None => {
                let mut entries = Vec::new();
                std::mem::swap(&mut entries, &mut self.entries);
                entries.push((key, value));
                let ghost new_pairs = entries@.map_values(|e: (String, V)| (e.0@, e.1));
                assert(new_pairs =~= old_pairs.push((key@, value)));
                assert(distinct_keys(new_pairs)) by {
                    assert forall|i: int, j: int| 0 <= i < j < new_pairs.len() implies #[trigger] new_pairs[i].0
                        != #[trigger] new_pairs[j].0 by {
                        if j == old_pairs.len() {
                            assert(new_pairs[i].0 == old_pairs[i].0);
                        }
                    }
                }
                self.entries = entries;
                proof {
                    let np = self.pairs();
                    assert(np =~= new_pairs);
                    assert forall|k: Seq<char>| #[trigger] has_key(np, k) == (has_key(old_pairs, k) || k
                        == key@) by {
                        if has_key(np, k) {
                            let j = choose|j: int| 0 <= j < np.len() && #[trigger] np[j].0 == k;
                            if j < old_pairs.len() {
                                assert(old_pairs[j].0 == k);
                            }
                        }
                        if has_key(old_pairs, k) {
                            let j = choose|j: int| 0 <= j < old_pairs.len() && #[trigger] old_pairs[j].0 == k;
                            assert(np[j].0 == k);
                        }
                        if k == key@ {
                            assert(np[old_pairs.len() as int].0 == k);
                        }
                    }
                    assert forall|k: Seq<char>| has_key(np, k) implies pairs_map(np)[k] == pairs_map(
                        old_pairs,
                    ).insert(key@, value)[k] by {
                        let j = key_index(np, k);
                        lemma_key_index(np, j);
                        if j < old_pairs.len() {
                            lemma_key_index(old_pairs, j);
                        }
                    }
                    assert(pairs_map(np) =~= pairs_map(old_pairs).insert(key@, value));
                }
            },
        }
    }
}

impl<V> StringMap<V> {
    /// Inserts every entry of `other`, in its order; entries of `other` win.
    pub fn extend(&mut self, other: StringMap<V>)
        ensures
            final(self)@ == old(self)@.union_prefer_right(other@),
    {
        proof {
            use_type_invariant(&other);
        }
        let ghost orig = other.pairs();
        let StringMap { entries: mut rest } = other;
        let ghost mut i: int = 0;
        assert(pairs_map(orig.subrange(0, 0)) =~= Map::<Seq<char>, V>::empty());
        assert(self@ =~= old(self)@.union_prefer_right(pairs_map(orig.subrange(0, 0))));
        while rest.len() > 0
            invariant
                0 <= i <= orig.len(),
                distinct_keys(orig),
                self@ == old(self)@.union_prefer_right(pairs_map(orig.subrange(0, i))),
                rest@.map_values(|e: (String, V)| (e.0@, e.1)) == orig.subrange(i, orig.len() as int),
            decreases rest@.len(),
        {
            let ghost r0 = rest@;
            let e = rest.remove(0);
            assert(e == r0[0]);
            let (k, v) = e;
            proof {
                assert(r0.map_values(|e: (String, V)| (e.0@, e.1)).len() == r0.len());
                assert(i < orig.len());
                assert((k@, v) == (r0[0].0@, r0[0].1));
                assert(r0.map_values(|e: (String, V)| (e.0@, e.1))[0] == (r0[0].0@, r0[0].1));
                assert(r0.map_values(|e: (String, V)| (e.0@, e.1))[0] == orig.subrange(i, orig.len() as int)[0]);
                assert(orig[i] == (k@, v));
                let pre = orig.subrange(0, i);
                assert(orig.subrange(0, i + 1) =~= pre.push((k@, v)));
                assert forall|a: int, b: int| 0 <= a < b < pre.push((k@, v)).len() implies #[trigger] pre.push((k@, v))[a].0
                    != #[trigger] pre.push((k@, v))[b].0 by {
                    assert(orig[a].0 != orig[b].0);
                }
                lemma_pairs_map_push(pre, k@, v);
                assert forall|j: int| 0 <= j < rest@.len() implies (#[trigger] rest@[j].0@, rest@[j].1)
                    == orig[i + 1 + j] by {
                    assert(rest@[j] == r0[j + 1]);
                    assert(r0.map_values(|e: (String, V)| (e.0@, e.1))[j + 1] == orig.subrange(i, orig.len() as int)[j + 1]);
                }
                assert(rest@.map_values(|e: (String, V)| (e.0@, e.1)) =~= orig.subrange(i + 1, orig.len() as int));
            }
            self.insert(k, v);
            proof {
                assert(self@ =~= old(self)@.union_prefer_right(pairs_map(orig.subrange(0, i + 1))));
                i = i + 1;
            }
        }
        proof {
            assert(orig.subrange(0, i) =~= orig);
        }
    }
}

impl<V: Clone> Clone for StringMap<V> {
    /// A copy with the same keys in the same order; each value is cloned.
    fn clone(&self) -> (r: Self)
        ensures
            r.pairs().len() == self.pairs().len(),
            forall|i: int| 0 <= i < self.pairs().len() ==> #[trigger] r.pairs()[i].0 == self.pairs()[i].0,
    {
        proof {
            use_type_invariant(self);
        }
        let mut out: Vec<(String, V)> = Vec::new();
        let mut i: usize = 0;
        while i < self.entries.len()
            invariant
                i <= self.entries@.len(),
                out@.len() == i,
                distinct_keys(self.pairs()),
                forall|j: int| 0 <= j < i ==> #[trigger] out@[j].0@ == self.entries@[j].0@,
            decreases self.entries@.len() - i,
        {
            let k = self.entries[i].0.clone();
            let v = self.entries[i].1.clone();
            out.push((k, v));
            i = i + 1;
        }
        let ghost np = out@.map_values(|e: (String, V)| (e.0@, e.1));
        assert forall|a: int, b: int| 0 <= a < b < np.len() implies #[trigger] np[a].0 != #[trigger] np[b].0 by {
            assert(np[a].0 == self.pairs()[a].0);
            assert(np[b].0 == self.pairs()[b].0);
        }
        StringMap { entries: out }
    }
}

/// The entries of a map of JSON values, values taken by their views.
pub open spec fn json_pairs(m: StringMap<JsonValue>) -> Seq<(Seq<char>, JsonView)> {
    m.pairs().map_values(|p: (Seq<char>, JsonValue)| (p.0, p.1@))
}

impl StringMap<JsonValue> {
    /// A copy of a map of JSON values: the same keys in the same order, with
    /// values of the same views.
    pub fn copy(&self) -> (r: Self)
        ensures
            json_pairs(r) == json_pairs(*self),
    {
        proof {
            use_type_invariant(self);
        }
        let mut out: Vec<(String, JsonValue)> = Vec::new();
        let mut i: usize = 0;
        while i < self.entries.len()
            invariant
                i <= self.entries@.len(),
                out@.len() == i,
                distinct_keys(self.pairs()),
                forall|j: int| 0 <= j < i ==> #[trigger] out@[j].0@ == self.entries@[j].0@ && out@[j].1@ == self.entries@[j].1@,
            decreases self.entries@.len() - i,
        {
            let k = self.entries[i].0.clone();
            let v = self.entries[i].1.copy();
            out.push((k, v));
            i = i + 1;
        }
        let ghost np = out@.map_values(|e: (String, JsonValue)| (e.0@, e.1));
        assert forall|a: int, b: int| 0 <= a < b < np.len() implies #[trigger] np[a].0 != #[trigger] np[b].0 by {
            assert(np[a].0 == self.pairs()[a].0);
            assert(np[b].0 == self.pairs()[b].0);
        }
        let r = StringMap { entries: out };
        assert(json_pairs(r) =~= json_pairs(*self));
        r
    }
}

impl<V> View for StringMap<V> {
    type V = Map<Seq<char>, V>;

    closed spec fn view(&self) -> Map<Seq<char>, V> {
        pairs_map(self.pairs())
    }
}

} // verus!
