//! A map from string keys to string values, kept as a list of pairs in which
//! no key occurs twice.

use vstd::prelude::*;

verus! {

/// A key with its value, both as character sequences.
pub type Pair = (Seq<char>, Seq<char>);

/// Some pair of `p` has the key `k`.
pub open spec fn has_key(p: Seq<Pair>, k: Seq<char>) -> bool {
    exists|i: int| 0 <= i < p.len() && (#[trigger] p[i]).0 == k
}

/// An index in `p` at which the key `k` stands, where there is one.
pub open spec fn key_index(p: Seq<Pair>, k: Seq<char>) -> int {
    choose|i: int| 0 <= i < p.len() && (#[trigger] p[i]).0 == k
}

/// No key occurs at two indices of `p`.
pub open spec fn keys_unique(p: Seq<Pair>) -> bool {
    forall|i: int, j: int|
        0 <= i < p.len() && 0 <= j < p.len() && (#[trigger] p[i]).0 == (#[trigger] p[j]).0 ==> i
            == j
}

/// The map that a list of pairs stands for.
pub open spec fn pairs_map(p: Seq<Pair>) -> Map<Seq<char>, Seq<char>> {
    Map::new(|k: Seq<char>| has_key(p, k), |k: Seq<char>| p[key_index(p, k)].1)
}

/// In a list with unique keys, each pair is what the map holds for its key.
pub proof fn lemma_pair_in_map(p: Seq<Pair>, i: int)
    requires
        keys_unique(p),
        0 <= i < p.len(),
    ensures
        pairs_map(p).dom().contains(p[i].0),
        pairs_map(p)[p[i].0] == p[i].1,
        key_index(p, p[i].0) == i,
{
    let k = p[i].0;
    assert(has_key(p, k));
    let j = key_index(p, k);
    assert(0 <= j < p.len() && p[j].0 == k);
}

/// Appending a pair with a fresh key inserts it into the map.
pub proof fn lemma_push_fresh(p: Seq<Pair>, k: Seq<char>, v: Seq<char>)
    requires
        keys_unique(p),
        !has_key(p, k),
    ensures
        keys_unique(p.push((k, v))),
        pairs_map(p.push((k, v))) == pairs_map(p).insert(k, v),
{
    let q = p.push((k, v));
    assert forall|i: int, j: int|
        0 <= i < q.len() && 0 <= j < q.len() && (#[trigger] q[i]).0 == (#[trigger] q[j]).0 implies i
        == j by {
        if i < p.len() && j < p.len() {
            assert(p[i].0 == p[j].0);
        } else if i < p.len() {
            assert(p[i].0 == k);
        } else if j < p.len() {
            assert(p[j].0 == k);
        }
    }
    assert forall|key: Seq<char>| has_key(q, key) <==> (key == k || has_key(p, key)) by {
        if has_key(q, key) {
            let i = key_index(q, key);
            if i < p.len() {
                assert(p[i].0 == key);
            }
        }
        if key == k {
            assert(q[p.len() as int].0 == key);
        }
        if has_key(p, key) {
            let i = key_index(p, key);
            assert(q[i].0 == key);
        }
    }
    assert forall|key: Seq<char>| has_key(q, key) implies #[trigger] pairs_map(q)[key]
        == pairs_map(p).insert(k, v)[key] by {
        let i = key_index(q, key);
        lemma_pair_in_map(q, i);
        if i < p.len() {
            assert(p[i].0 == key);
            lemma_pair_in_map(p, i);
        }
    }
    assert(pairs_map(q) =~= pairs_map(p).insert(k, v));
}

/// Replacing the value at the index of a key updates the map at that key.
pub proof fn lemma_update_value(p: Seq<Pair>, i: int, v: Seq<char>)
    requires
        keys_unique(p),
        0 <= i < p.len(),
    ensures
        keys_unique(p.update(i, (p[i].0, v))),
        pairs_map(p.update(i, (p[i].0, v))) == pairs_map(p).insert(p[i].0, v),
{
    let k = p[i].0;
    let q = p.update(i, (k, v));
    assert forall|a: int, b: int|
        0 <= a < q.len() && 0 <= b < q.len() && (#[trigger] q[a]).0 == (#[trigger] q[b]).0 implies a
        == b by {
        assert(q[a].0 == p[a].0);
        assert(q[b].0 == p[b].0);
    }
    assert forall|key: Seq<char>| has_key(q, key) <==> has_key(p, key) by {
        if has_key(q, key) {
            let a = key_index(q, key);
            assert(p[a].0 == key);
        }
        if has_key(p, key) {
            let a = key_index(p, key);
            assert(q[a].0 == key);
        }
    }
    assert(has_key(p, k));
    assert forall|key: Seq<char>| has_key(q, key) implies #[trigger] pairs_map(q)[key]
        == pairs_map(p).insert(k, v)[key] by {
        let a = key_index(q, key);
        lemma_pair_in_map(q, a);
        if a != i {
            assert(p[a].0 == key);
            lemma_pair_in_map(p, a);
        }
    }
    assert(pairs_map(q) =~= pairs_map(p).insert(k, v));
}

/// Taking out the pair at the index of a key removes the key from the map.
pub proof fn lemma_remove_pair(p: Seq<Pair>, i: int)
    requires
        keys_unique(p),
        0 <= i < p.len(),
    ensures
        keys_unique(p.remove(i)),
        pairs_map(p.remove(i)) == pairs_map(p).remove(p[i].0),
{
    let k = p[i].0;
    let q = p.remove(i);
    assert forall|a: int| 0 <= a < q.len() implies #[trigger] q[a] == p[if a < i {
        a
    } else {
        a + 1
    }] by {}
    assert forall|a: int, b: int|
        0 <= a < q.len() && 0 <= b < q.len() && (#[trigger] q[a]).0 == (#[trigger] q[b]).0 implies a
        == b by {
        let a2 = if a < i {
            a
        } else {
            a + 1
        };
        let b2 = if b < i {
            b
        } else {
            b + 1
        };
        assert(q[a] == p[a2]);
        assert(q[b] == p[b2]);
        assert(p[a2].0 == p[b2].0);
    }
    assert forall|key: Seq<char>| has_key(q, key) <==> (key != k && has_key(p, key)) by {
        if has_key(q, key) {
            let a = key_index(q, key);
            let a2 = if a < i {
                a
            } else {
                a + 1
            };
            assert(q[a] == p[a2]);
            assert(p[a2].0 == key);
            if key == k {
                assert(p[a2].0 == p[i].0);
            }
        }
        if key != k && has_key(p, key) {
            let a = key_index(p, key);
            let a1 = if a < i {
                a
            } else {
                a - 1
            };
            assert(q[a1] == p[a]);
            assert(q[a1].0 == key);
        }
    }
    assert forall|key: Seq<char>| has_key(q, key) implies #[trigger] pairs_map(q)[key]
        == pairs_map(p).remove(k)[key] by {
        let a = key_index(q, key);
        let a2 = if a < i {
            a
        } else {
            a + 1
        };
        lemma_pair_in_map(q, a);
        assert(q[a] == p[a2]);
        lemma_pair_in_map(p, a2);
    }
    assert(pairs_map(q) =~= pairs_map(p).remove(k));
}

/// The map of the first `i + 1` pairs is the map of the first `i` with the
/// next pair inserted.
pub proof fn lemma_take_step(p: Seq<Pair>, i: int)
    requires
        keys_unique(p),
        0 <= i < p.len(),
    ensures
        keys_unique(p.take(i)),
        keys_unique(p.take(i + 1)),
        pairs_map(p.take(i + 1)) == pairs_map(p.take(i)).insert(p[i].0, p[i].1),
{
    let a = p.take(i);
    assert forall|x: int, y: int|
        0 <= x < a.len() && 0 <= y < a.len() && (#[trigger] a[x]).0 == (#[trigger] a[y]).0 implies x
        == y by {
        assert(a[x] == p[x]);
        assert(a[y] == p[y]);
    }
    if has_key(a, p[i].0) {
        let j = key_index(a, p[i].0);
        assert(a[j] == p[j]);
        assert(p[j].0 == p[i].0);
    }
    lemma_push_fresh(a, p[i].0, p[i].1);
    assert(p.take(i + 1) =~= a.push((p[i].0, p[i].1)));
}

/// A list with unique keys stands for a finite map with as many keys as the
/// list has pairs.
pub proof fn lemma_pairs_count(p: Seq<Pair>, n: int)
    requires
        keys_unique(p),
        0 <= n <= p.len(),
    ensures
        pairs_map(p.take(n)).dom().finite(),
        pairs_map(p.take(n)).dom().len() == n,
    decreases n,
{
    if n == 0 {
        assert(pairs_map(p.take(0)).dom() =~= Set::<Seq<char>>::empty());
    } else {
        lemma_pairs_count(p, n - 1);
        lemma_take_step(p, n - 1);
        let before = pairs_map(p.take(n - 1));
        if before.dom().contains(p[n - 1].0) {
            let a = p.take(n - 1);
            let j = key_index(a, p[n - 1].0);
            assert(a[j] == p[j]);
            assert(p[j].0 == p[n - 1].0);
        }
        assert(pairs_map(p.take(n)).dom() =~= before.dom().insert(p[n - 1].0));
    }
}

/// A map from strings to strings in which every key occurs once.
#[derive(Debug)]
pub struct StringMap {
    entries: Vec<(String, String)>,
}

impl View for StringMap {
    type V = Map<Seq<char>, Seq<char>>;

    /// The mathematical map that the pairs stand for.
    open spec fn view(&self) -> Map<Seq<char>, Seq<char>> {
        pairs_map(self.pairs())
    }
}

impl StringMap {
    #[verifier::type_invariant]
    spec fn well_formed(self) -> bool {
        keys_unique(self.pairs())
    }

    /// The pairs in the order in which the map keeps them.
    pub closed spec fn pairs(self) -> Seq<Pair> {
        Seq::new(self.entries@.len(), |i: int| (self.entries@[i].0@, self.entries@[i].1@))
    }

    /// An empty map.
    pub fn new() -> (m: StringMap)
        ensures
            m@ == Map::<Seq<char>, Seq<char>>::empty(),
            m.pairs() == Seq::<Pair>::empty(),
    {
        let m = StringMap { entries: Vec::new() };
        assert(m.pairs() =~= Seq::<Pair>::empty());
        assert(m@ =~= Map::<Seq<char>, Seq<char>>::empty());
        m
    }

    /// The number of keys. It is also the number of pairs, none of which
    /// shares its key with another.
    pub fn len(&self) -> (n: usize)
        ensures
            self@.dom().finite(),
            n == self@.dom().len(),
            n == self.pairs().len(),
            keys_unique(self.pairs()),
    {
        proof {
            use_type_invariant(self);
            lemma_pairs_count(self.pairs(), self.pairs().len() as int);
            assert(self.pairs().take(self.pairs().len() as int) =~= self.pairs());
        }
        self.entries.len()
    }

    /// The key at position `i`.
    pub fn key_at(&self, i: usize) -> (k: &String)
        requires
            i < self.pairs().len(),
        ensures
            k@ == self.pairs()[i as int].0,
    {
        &self.entries[i].0
    }

    /// The value at position `i`.
    pub fn value_at(&self, i: usize) -> (v: &String)
        requires
            i < self.pairs().len(),
        ensures
            v@ == self.pairs()[i as int].1,
    {
        &self.entries[i].1
    }

    /// The position of `key` among the pairs, where it is present.
    pub fn position(&self, key: &str) -> (r: Option<usize>)
        ensures
            match r {
                Some(i) => i < self.pairs().len() && self.pairs()[i as int].0 == key@,
                None => !has_key(self.pairs(), key@),
            },
            r is Some <==> self@.dom().contains(key@),
    {
        let mut i: usize = 0;
        while i < self.entries.len()
            invariant
                i <= self.entries.len(),
                forall|j: int| 0 <= j < i ==> (#[trigger] self.pairs()[j]).0 != key@,
            decreases self.entries.len() - i,
        {
            if crate::text::str_eq(self.entries[i].0.as_str(), key) {
                assert(self.pairs()[i as int].0 == key@);
                return Some(i);
            }
            i += 1;
        }
        None
    }

    /// Whether the map holds `key`.
    pub fn contains_key(&self, key: &str) -> (b: bool)
        ensures
            b == self@.dom().contains(key@),
    {
        self.position(key).is_some()
    }

    /// The value kept for `key`, if any.
    pub fn get(&self, key: &str) -> (r: Option<&String>)
        ensures
            match r {
                Some(v) => self@.dom().contains(key@) && v@ == self@[key@],
                None => !self@.dom().contains(key@),
            },
    {
        match self.position(key) {
            Some(i) => {
                proof {
                    use_type_invariant(self);
                    lemma_pair_in_map(self.pairs(), i as int);
                }
                Some(&self.entries[i].1)
            },
            None => None,
        }
    }

    /// Sets the value of `key`, and returns the value it had before.
    pub fn insert(&mut self, key: String, value: String) -> (previous: Option<String>)
        ensures
            final(self)@ == old(self)@.insert(key@, value@),
            match previous {
                Some(v) => old(self)@.dom().contains(key@) && v@ == old(self)@[key@],
                None => !old(self)@.dom().contains(key@),
            },
    {
        proof {
            use_type_invariant(&*self);
        }
        let ghost before = self.pairs();
        let found = self.position(key.as_str());
        let mut entries: Vec<(String, String)> = Vec::new();
        core::mem::swap(&mut entries, &mut self.entries);
        let ghost key_view = key@;
        let ghost value_view = value@;
        let previous = match found {
            Some(i) => {
                proof {
                    lemma_pair_in_map(before, i as int);
                    lemma_update_value(before, i as int, value@);
                }
                let old_pair = entries.remove(i);
                entries.insert(i, (key, value));
                Some(old_pair.1)
            },
            None => {
                proof {
                    lemma_push_fresh(before, key@, value@);
                }
                entries.push((key, value));
                None
            },
        };
        let ghost after = Seq::new(entries@.len(), |i: int| (entries@[i].0@, entries@[i].1@));
        proof {
            match found {
                Some(i) => {
                    assert(after =~= before.update(i as int, (before[i as int].0, value_view)));
                },
                None => {
                    assert(after =~= before.push((key_view, value_view)));
                },
            }
        }
        core::mem::swap(&mut entries, &mut self.entries);
        assert(self.pairs() =~= after);
        previous
    }

    /// Takes `key` out of the map, and returns the value it had.
    pub fn remove(&mut self, key: &str) -> (previous: Option<String>)
        ensures
            final(self)@ == old(self)@.remove(key@),
            match previous {
                Some(v) => old(self)@.dom().contains(key@) && v@ == old(self)@[key@],
                None => !old(self)@.dom().contains(key@),
            },
    {
        proof {
            use_type_invariant(&*self);
        }
        let ghost before = self.pairs();
        match self.position(key) {
            Some(i) => {
                proof {
                    lemma_pair_in_map(before, i as int);
                    lemma_remove_pair(before, i as int);
                }
                let mut entries: Vec<(String, String)> = Vec::new();
                core::mem::swap(&mut entries, &mut self.entries);
                let old_pair = entries.remove(i);
                let ghost after = Seq::new(
                    entries@.len(),
                    |i: int| (entries@[i].0@, entries@[i].1@),
                );
                assert(after =~= before.remove(i as int));
                core::mem::swap(&mut entries, &mut self.entries);
                assert(self.pairs() =~= after);
                Some(old_pair.1)
            },
            None => {
                assert(self@ =~= old(self)@.remove(key@));
                None
            },
        }
    }
}

impl Clone for StringMap {
    /// A copy of the map, pair by pair.
    fn clone(&self) -> (m: StringMap)
        ensures
            m.pairs() == self.pairs(),
            m@ == self@,
    {
        proof {
            use_type_invariant(self);
        }
        let mut entries: Vec<(String, String)> = Vec::new();
        let mut i: usize = 0;
        while i < self.entries.len()
            invariant
                i <= self.entries.len(),
                entries@.len() == i,
                forall|j: int|
                    0 <= j < i ==> (#[trigger] entries@[j]).0@ == self.entries@[j].0@
                        && entries@[j].1@ == self.entries@[j].1@,
            decreases self.entries.len() - i,
        {
            entries.push((self.entries[i].0.clone(), self.entries[i].1.clone()));
            i += 1;
        }
        let ghost p = Seq::new(entries@.len(), |i: int| (entries@[i].0@, entries@[i].1@));
        assert(p =~= self.pairs());
        let m = StringMap { entries };
        assert(m.pairs() =~= self.pairs());
        m
    }
}

} // verus!
