//! A map from strings to values that keeps its keys in the order of `String`'s
//! `Ord` (the code-point lexicographic order), as a `BTreeMap<String, V>` does.

use vstd::prelude::*;

verus! {

/// Code-point lexicographic order on character sequences; UTF-8 encoding
/// preserves it, so it is the order of `String`'s `Ord`.
pub open spec fn seq_lt(a: Seq<char>, b: Seq<char>) -> bool
    decreases a.len(),
{
    if a.len() == 0 {
        b.len() > 0
    } else if b.len() == 0 {
        false
    } else if a[0] != b[0] {
        (a[0] as int) < (b[0] as int)
    } else {
        seq_lt(a.drop_first(), b.drop_first())
    }
}

/// No sequence is below itself.
pub proof fn lemma_seq_lt_irreflexive(a: Seq<char>)
    ensures
        !seq_lt(a, a),
    decreases a.len(),
{
    if a.len() > 0 {
        lemma_seq_lt_irreflexive(a.drop_first());
    }
}

/// The order is transitive.
pub proof fn lemma_seq_lt_transitive(a: Seq<char>, b: Seq<char>, c: Seq<char>)
    requires
        seq_lt(a, b),
        seq_lt(b, c),
    ensures
        seq_lt(a, c),
    decreases a.len(),
{
    if a.len() > 0 && b.len() > 0 && c.len() > 0 && a[0] == b[0] && b[0] == c[0] {
        lemma_seq_lt_transitive(a.drop_first(), b.drop_first(), c.drop_first());
    }
}

/// Two different sequences are ordered one way or the other.
pub proof fn lemma_seq_lt_total(a: Seq<char>, b: Seq<char>)
    requires
        a != b,
    ensures
        seq_lt(a, b) || seq_lt(b, a),
    decreases a.len(),
{
    if a.len() > 0 && b.len() > 0 && a[0] == b[0] {
        if a.drop_first() == b.drop_first() {
            assert(a =~= seq![a[0]] + a.drop_first());
            assert(b =~= seq![b[0]] + b.drop_first());
        }
        lemma_seq_lt_total(a.drop_first(), b.drop_first());
    } else if a.len() == 0 && b.len() == 0 {
        assert(a =~= b);
    }
}

/// Whether `a` sorts before `b`, as `a < b` on strings.
pub fn str_lt(a: &str, b: &str) -> (r: bool)
    ensures
        r == seq_lt(a@, b@),
{
    let la = a.unicode_len();
    let lb = b.unicode_len();
    let mut i: usize = 0;
    assert(a@.skip(0) == a@);
    assert(b@.skip(0) == b@);
    while i < la && i < lb
        invariant
            i <= la,
            i <= lb,
            la == a@.len(),
            lb == b@.len(),
            seq_lt(a@, b@) == seq_lt(a@.skip(i as int), b@.skip(i as int)),
        decreases la - i,
    {
        let ca = a.get_char(i);
        let cb = b.get_char(i);
        if ca != cb {
            return (ca as u32) < (cb as u32);
        }
        assert(a@.skip(i as int).drop_first() == a@.skip(i + 1));
        assert(b@.skip(i as int).drop_first() == b@.skip(i + 1));
        i = i + 1;
    }
    i < lb
}

/// Whether `a` and `b` hold the same characters.
pub fn str_eq(a: &str, b: &str) -> (r: bool)
    ensures
        r == (a@ == b@),
{
    let la = a.unicode_len();
    let lb = b.unicode_len();
    if la != lb {
        return false;
    }
    let mut i: usize = 0;
    while i < la
        invariant
            i <= la,
            la == a@.len(),
            lb == b@.len(),
            la == lb,
            forall|j: int| 0 <= j < i ==> a@[j] == b@[j],
        decreases la - i,
    {
        if a.get_char(i) != b.get_char(i) {
            return false;
        }
        i = i + 1;
    }
    assert(a@ =~= b@);
    true
}

/// Keys in strictly increasing order.
pub open spec fn strictly_sorted(keys: Seq<Seq<char>>) -> bool {
    forall|i: int, j: int| 0 <= i < j < keys.len() ==> seq_lt(keys[i], keys[j])
}

/// The value of the first pair whose key is `k`.
pub open spec fn lookup<V>(ps: Seq<(Seq<char>, V)>, k: Seq<char>) -> Option<V>
    decreases ps.len(),
{
    if ps.len() == 0 {
        None
    } else if ps[0].0 == k {
        Some(ps[0].1)
    } else {
        lookup(ps.drop_first(), k)
    }
}

/// The map that a sequence of key-value pairs stands for.
pub open spec fn pairs_map<V>(ps: Seq<(Seq<char>, V)>) -> Map<Seq<char>, V> {
    Map::new(|k: Seq<char>| lookup(ps, k) is Some, |k: Seq<char>| lookup(ps, k)->0)
}

/// The map that inserting the pairs one after the other, from the first,
/// builds: a later pair for the same key replaces an earlier one.
pub open spec fn map_from_pairs<V>(ps: Seq<(Seq<char>, V)>) -> Map<Seq<char>, V>
    decreases ps.len(),
{
    if ps.len() == 0 {
        Map::empty()
    } else {
        map_from_pairs(ps.drop_last()).insert(ps.last().0, ps.last().1)
    }
}

/// A map from strings to values, iterated in key order.
#[derive(Debug, PartialEq, Eq)]
pub struct StrMap<V> {
    entries: Vec<(String, V)>,
}

impl<V> StrMap<V> {
    /// The entries as (key, value) pairs, in key order.
    pub closed spec fn pairs(self) -> Seq<(Seq<char>, V)> {
        self.entries@.map_values(|e: (String, V)| (e.0@, e.1))
    }

    /// The keys, in increasing order.
    pub open spec fn keys(self) -> Seq<Seq<char>> {
        self.pairs().map_values(|p: (Seq<char>, V)| p.0)
    }

    /// Every map keeps its keys strictly increasing.
    #[verifier::type_invariant]
    pub open spec fn well_ordered(self) -> bool {
        strictly_sorted(self.keys())
    }

    /// The value that the map holds for the key at position `i`.
    pub proof fn lemma_view_at(self, i: int)
        requires
            self.well_ordered(),
            0 <= i < self.pairs().len(),
        ensures
            self@.contains_key(self.pairs()[i].0),
            self@[self.pairs()[i].0] == self.pairs()[i].1,
    {
        lemma_pairs_map_at(self.pairs(), i);
    }

    /// An empty map.
    pub fn new() -> (m: Self)
        ensures
            m.pairs() == Seq::<(Seq<char>, V)>::empty(),
            m@ == Map::<Seq<char>, V>::empty(),
    {
        let m = StrMap { entries: Vec::new() };
        assert(m.pairs() =~= Seq::<(Seq<char>, V)>::empty());
        assert(m@ =~= Map::<Seq<char>, V>::empty());
        m
    }

    /// The number of entries.
    pub fn len(&self) -> (n: usize)
        ensures
            n == self.pairs().len(),
            n == self.keys().len(),
    {
        self.entries.len()
    }

    /// Whether the map holds no entry.
    pub fn is_empty(&self) -> (b: bool)
        ensures
            b == (self.pairs().len() == 0),
    {
        self.entries.len() == 0
    }

    /// The key at position `i` in key order.
    pub fn key_at(&self, i: usize) -> (k: &String)
        requires
            i < self.pairs().len(),
        ensures
            k@ == self.pairs()[i as int].0,
    {
        &self.entries[i].0
    }

    /// The value at position `i` in key order.
    pub fn value_at(&self, i: usize) -> (v: &V)
        requires
            i < self.pairs().len(),
        ensures
            *v == self.pairs()[i as int].1,
    {
        &self.entries[i].1
    }

    /// The position of `key`, if the map holds it.
    pub fn find(&self, key: &str) -> (r: Option<usize>)
        ensures
            match r {
                Some(i) => i < self.pairs().len() && self.pairs()[i as int].0 == key@,
                None => !self@.contains_key(key@),
            },
            r is Some <==> self@.contains_key(key@),
    {
        proof { use_type_invariant(self); }
        let n = self.entries.len();
        let mut i: usize = 0;
        while i < n
            invariant
                i <= n,
                n == self.pairs().len(),
                self.well_ordered(),
                self.pairs() == self.entries@.map_values(|e: (String, V)| (e.0@, e.1)),
                forall|j: int| 0 <= j < i ==> self.pairs()[j].0 != key@,
            decreases n - i,
        {
            if str_eq(self.entries[i].0.as_str(), key) {
                proof { lemma_pairs_map_at(self.pairs(), i as int); }
                return Some(i);
            }
            i = i + 1;
        }
        proof { lemma_pairs_map_absent(self.pairs(), key@); }
        None
    }

    /// Whether the map holds `key`.
    pub fn contains_key(&self, key: &str) -> (b: bool)
        ensures
            b == self@.contains_key(key@),
    {
        self.find(key).is_some()
    }

    /// The value for `key`, if any.
    pub fn get(&self, key: &str) -> (r: Option<&V>)
        ensures
            match r {
                Some(v) => self@.contains_key(key@) && *v == self@[key@],
                None => !self@.contains_key(key@),
            },
    {
        match self.find(key) {
            Some(i) => {
                proof {
                    use_type_invariant(self);
                    lemma_pairs_map_at(self.pairs(), i as int);
                }
                Some(&self.entries[i].1)
            },
            None => None,
        }
    }

    /// Sets the value for `key`, returning the value it replaces, as
    /// `BTreeMap::insert` does.
    pub fn insert(&mut self, key: String, value: V) -> (replaced: Option<V>)
        ensures
            final(self)@ == old(self)@.insert(key@, value),
            match replaced {
                Some(v) => old(self)@.contains_key(key@) && v == old(self)@[key@],
                None => !old(self)@.contains_key(key@),
            },
    {
        proof { use_type_invariant(&*self); }
        let ghost old_pairs = self.pairs();
        let mut entries: Vec<(String, V)> = Vec::new();
        std::mem::swap(&mut entries, &mut self.entries);
        assert(entries@.map_values(|e: (String, V)| (e.0@, e.1)) == old_pairs);
        let n = entries.len();
        let mut p: usize = 0;
        while p < n && str_lt(entries[p].0.as_str(), key.as_str())
            invariant
                p <= n,
                n == entries@.len(),
                old_pairs == entries@.map_values(|e: (String, V)| (e.0@, e.1)),
                strictly_sorted(old_pairs.map_values(|q: (Seq<char>, V)| q.0)),
                forall|j: int| 0 <= j < p ==> seq_lt(#[trigger] old_pairs[j].0, key@),
            decreases n - p,
        {
            p = p + 1;
        }
        let ghost ks = old_pairs.map_values(|q: (Seq<char>, V)| q.0);
        if p < n && str_eq(entries[p].0.as_str(), key.as_str()) {
            let ghost k = key@;
            let (_k, v_old) = entries.remove(p);
            entries.insert(p, (key, value));
            proof {
                let new_pairs = entries@.map_values(|e: (String, V)| (e.0@, e.1));
                assert(new_pairs =~= old_pairs.update(p as int, (k, value)));
                assert(new_pairs.map_values(|q: (Seq<char>, V)| q.0) =~= ks);
                lemma_pairs_map_update(old_pairs, p as int, value);
                lemma_pairs_map_at(old_pairs, p as int);
            }
            self.entries = entries;
            Some(v_old)
        } else {
            let ghost k = key@;
            entries.insert(p, (key, value));
            proof {
                let new_pairs = entries@.map_values(|e: (String, V)| (e.0@, e.1));
                assert(new_pairs =~= old_pairs.insert(p as int, (k, value)));
                assert forall|j: int| 0 <= j < old_pairs.len() implies old_pairs[j].0 != k by {
                    if j < p {
                        assert(seq_lt(old_pairs[j].0, k));
                        lemma_seq_lt_irreflexive(k);
                    } else {
                        if p < n {
                            lemma_seq_lt_total(ks[p as int], k);
                            if j > p {
                                assert(seq_lt(ks[p as int], ks[j]));
                                lemma_seq_lt_transitive(k, ks[p as int], ks[j]);
                                lemma_seq_lt_irreflexive(k);
                            }
                        }
                    }
                }
                if p < n {
                    lemma_seq_lt_total(ks[p as int], k);
                }
                lemma_sorted_insert(ks, p as int, k);
                assert(new_pairs.map_values(|q: (Seq<char>, V)| q.0) =~= ks.insert(p as int, k));
                lemma_pairs_map_insert(old_pairs, p as int, k, value);
                lemma_pairs_map_absent(old_pairs, k);
            }
            self.entries = entries;
            None
        }
    }

    /// Removes `key`, returning its value, as `BTreeMap::remove` does.
    pub fn remove(&mut self, key: &str) -> (removed: Option<V>)
        ensures
            final(self)@ == old(self)@.remove(key@),
            match removed {
                Some(v) => old(self)@.contains_key(key@) && v == old(self)@[key@],
                None => !old(self)@.contains_key(key@),
            },
    {
        proof { use_type_invariant(&*self); }
        match self.find(key) {
            None => {
                assert(self@ =~= self@.remove(key@));
                None
            },
            Some(p) => {
                let ghost old_pairs = self.pairs();
                proof { lemma_pairs_map_at(old_pairs, p as int); }
                let mut entries: Vec<(String, V)> = Vec::new();
                std::mem::swap(&mut entries, &mut self.entries);
                let (_k, v) = entries.remove(p);
                proof {
                    let new_pairs = entries@.map_values(|e: (String, V)| (e.0@, e.1));
                    assert(new_pairs =~= old_pairs.remove(p as int));
                    let ks = old_pairs.map_values(|q: (Seq<char>, V)| q.0);
                    let nks = new_pairs.map_values(|q: (Seq<char>, V)| q.0);
                    assert(nks =~= ks.remove(p as int));
                    lemma_pairs_map_remove(old_pairs, p as int);
                }
                self.entries = entries;
                Some(v)
            },
        }
    }
}

impl<V> StrMap<V> {
    /// The map that inserting `pairs` in order builds, as collecting pairs
    /// into a `BTreeMap` does: a later pair for a key replaces an earlier one.
    pub fn from_pairs(pairs: Vec<(String, V)>) -> (m: Self)
        ensures
            m@ == map_from_pairs(pairs@.map_values(|e: (String, V)| (e.0@, e.1))),
    {
        let ghost orig = pairs@.map_values(|e: (String, V)| (e.0@, e.1));
        let mut rest = pairs;
        let mut m = StrMap::new();
        let ghost mut i: int = 0;
        assert(orig.take(0) =~= Seq::<(Seq<char>, V)>::empty());
        while rest.len() > 0
            invariant
                0 <= i <= orig.len(),
                rest@.map_values(|e: (String, V)| (e.0@, e.1)) =~= orig.skip(i),
                m@ == map_from_pairs(orig.take(i)),
            decreases rest.len(),
        {
            let ghost before = rest@;
            assert(before.map_values(|e: (String, V)| (e.0@, e.1)).len() == before.len());
            assert(i < orig.len());
            assert(before.map_values(|e: (String, V)| (e.0@, e.1))[0] == orig[i]);
            let (k, v) = rest.remove(0);
            proof {
                assert(before[0] == (k, v));
                assert(orig[i] == (k@, v));
                assert(orig.take(i + 1).drop_last() =~= orig.take(i));
            }
            m.insert(k, v);
            proof {
                assert(rest@ =~= before.subrange(1, before.len() as int));
                let bm = before.map_values(|e: (String, V)| (e.0@, e.1));
                assert(bm =~= orig.skip(i));
                let rm = rest@.map_values(|e: (String, V)| (e.0@, e.1));
                assert(rm.len() == bm.len() - 1);
                assert forall|j: int| 0 <= j < rm.len() implies rm[j] == orig.skip(i + 1)[j] by {
                    assert(rest@[j] == before[j + 1]);
                    assert(rm[j] == bm[j + 1]);
                }
                assert(rm =~= orig.skip(i + 1));
                i = i + 1;
            }
        }
        assert(orig.take(i) =~= orig);
        m
    }
}

impl<V: Clone> Clone for StrMap<V> {
    /// A copy with the same keys in the same order; each value is `V::clone`'s copy.
    fn clone(&self) -> (c: Self)
        ensures
            c.keys() == self.keys(),
            forall|i: int| 0 <= i < self.pairs().len() ==> cloned(self.pairs()[i].1, #[trigger] c.pairs()[i].1),
    {
        proof { use_type_invariant(self); }
        let n = self.entries.len();
        let mut out: Vec<(String, V)> = Vec::new();
        let mut i: usize = 0;
        while i < n
            invariant
                i <= n,
                n == self.entries@.len(),
                out@.len() == i,
                forall|j: int| 0 <= j < i ==> #[trigger] out@[j].0@ == self.entries@[j].0@,
                forall|j: int| 0 <= j < i ==> cloned(self.entries@[j].1, #[trigger] out@[j].1),
            decreases n - i,
        {
            let k = self.entries[i].0.clone();
            let v = self.entries[i].1.clone();
            out.push((k, v));
            i = i + 1;
        }
        proof {
            let ks = out@.map_values(|e: (String, V)| (e.0@, e.1)).map_values(|p: (Seq<char>, V)| p.0);
            assert(ks =~= self.keys());
        }
        let c = StrMap { entries: out };
        c
    }
}

impl<V> View for StrMap<V> {
    type V = Map<Seq<char>, V>;

    /// The mapping from keys to values.
    open spec fn view(&self) -> Map<Seq<char>, V> {
        pairs_map(self.pairs())
    }
}

/// A key is found exactly when some pair holds it.
pub proof fn lemma_lookup_none<V>(ps: Seq<(Seq<char>, V)>, k: Seq<char>)
    ensures
        lookup(ps, k) is None <==> forall|i: int| 0 <= i < ps.len() ==> ps[i].0 != k,
    decreases ps.len(),
{
    if ps.len() > 0 {
        lemma_lookup_none(ps.drop_first(), k);
        if lookup(ps, k) is None {
            assert forall|i: int| 0 <= i < ps.len() implies ps[i].0 != k by {
                if i > 0 {
                    assert(ps.drop_first()[i - 1] == ps[i]);
                }
            }
        } else {
            if ps[0].0 != k {
                let i = choose|i: int| 0 <= i < ps.drop_first().len() && ps.drop_first()[i].0 == k;
                assert(ps[i + 1].0 == k);
            }
        }
    }
}

/// With distinct keys, the pair at position `idx` is what a lookup of its key finds.
pub proof fn lemma_lookup_at<V>(ps: Seq<(Seq<char>, V)>, idx: int)
    requires
        0 <= idx < ps.len(),
        strictly_sorted(ps.map_values(|p: (Seq<char>, V)| p.0)),
    ensures
        lookup(ps, ps[idx].0) == Some(ps[idx].1),
    decreases ps.len(),
{
    let ks = ps.map_values(|p: (Seq<char>, V)| p.0);
    if idx > 0 {
        assert(seq_lt(ks[0], ks[idx]));
        if ps[0].0 == ps[idx].0 {
            lemma_seq_lt_irreflexive(ps[0].0);
        }
        let rest = ps.drop_first();
        assert(rest.map_values(|p: (Seq<char>, V)| p.0) =~= ks.drop_first());
        assert(rest[idx - 1] == ps[idx]);
        lemma_lookup_at(rest, idx - 1);
    }
}

/// With distinct keys, the pair at position `idx` is what the map holds for its key.
pub proof fn lemma_pairs_map_at<V>(ps: Seq<(Seq<char>, V)>, idx: int)
    requires
        0 <= idx < ps.len(),
        strictly_sorted(ps.map_values(|p: (Seq<char>, V)| p.0)),
    ensures
        pairs_map(ps).contains_key(ps[idx].0),
        pairs_map(ps)[ps[idx].0] == ps[idx].1,
{
    lemma_lookup_at(ps, idx);
}

/// A key held by no pair is not in the map.
pub proof fn lemma_pairs_map_absent<V>(ps: Seq<(Seq<char>, V)>, k: Seq<char>)
    requires
        forall|i: int| 0 <= i < ps.len() ==> ps[i].0 != k,
    ensures
        !pairs_map(ps).contains_key(k),
{
    lemma_lookup_none(ps, k);
}

/// Changing the value at position `p` changes what the map holds for its key.
pub proof fn lemma_pairs_map_update<V>(ps: Seq<(Seq<char>, V)>, p: int, v: V)
    requires
        0 <= p < ps.len(),
        strictly_sorted(ps.map_values(|q: (Seq<char>, V)| q.0)),
    ensures
        pairs_map(ps.update(p, (ps[p].0, v))) == pairs_map(ps).insert(ps[p].0, v),
{
    let k = ps[p].0;
    let ns = ps.update(p, (k, v));
    let ks = ps.map_values(|q: (Seq<char>, V)| q.0);
    assert(ns.map_values(|q: (Seq<char>, V)| q.0) =~= ks);
    let m1 = pairs_map(ns);
    let m2 = pairs_map(ps).insert(k, v);
    assert forall|x: Seq<char>| #![trigger m1.dom().contains(x)] #![trigger m2.dom().contains(x)] m1.dom().contains(x) == m2.dom().contains(x) && (m1.dom().contains(x) ==> m1[x] == m2[x]) by {
        if x == k {
            lemma_pairs_map_at(ns, p);
        } else {
            lemma_lookup_none(ps, x);
            lemma_lookup_none(ns, x);
            if exists|i: int| 0 <= i < ps.len() && ps[i].0 == x {
                let i = choose|i: int| 0 <= i < ps.len() && ps[i].0 == x;
                assert(ns[i] == ps[i]);
                lemma_pairs_map_at(ps, i);
                lemma_pairs_map_at(ns, i);
            } else {
                assert forall|i: int| 0 <= i < ns.len() implies ns[i].0 != x by {
                    if i != p { assert(ns[i] == ps[i]); }
                }
            }
        }
    }
    assert(m1.dom() =~= m2.dom());
    assert(m1 =~= m2);
}

/// Inserting a pair with a new key at position `p` adds that key to the map.
pub proof fn lemma_pairs_map_insert<V>(ps: Seq<(Seq<char>, V)>, p: int, k: Seq<char>, v: V)
    requires
        0 <= p <= ps.len(),
        strictly_sorted(ps.map_values(|q: (Seq<char>, V)| q.0)),
        strictly_sorted(ps.insert(p, (k, v)).map_values(|q: (Seq<char>, V)| q.0)),
        forall|i: int| 0 <= i < ps.len() ==> ps[i].0 != k,
    ensures
        pairs_map(ps.insert(p, (k, v))) == pairs_map(ps).insert(k, v),
{
    let ns = ps.insert(p, (k, v));
    ps.insert_ensures(p, (k, v));
    let m1 = pairs_map(ns);
    let m2 = pairs_map(ps).insert(k, v);
    assert forall|x: Seq<char>| #![trigger m1.dom().contains(x)] #![trigger m2.dom().contains(x)] m1.dom().contains(x) == m2.dom().contains(x) && (m1.dom().contains(x) ==> m1[x] == m2[x]) by {
        if x == k {
            assert(ns[p] == (k, v));
            lemma_pairs_map_at(ns, p);
        } else {
            lemma_lookup_none(ps, x);
            lemma_lookup_none(ns, x);
            if exists|i: int| 0 <= i < ps.len() && ps[i].0 == x {
                let i = choose|i: int| 0 <= i < ps.len() && ps[i].0 == x;
                let j = if i < p { i } else { i + 1 };
                assert(ns[j] == ps[i]);
                lemma_pairs_map_at(ps, i);
                lemma_pairs_map_at(ns, j);
            } else {
                assert forall|j: int| 0 <= j < ns.len() implies ns[j].0 != x by {
                    if j < p { assert(ns[j] == ps[j]); }
                    else if j > p { assert(ns[j] == ps[j - 1]); }
                }
            }
        }
    }
    assert(m1.dom() =~= m2.dom());
    assert(m1 =~= m2);
}

/// Removing the pair at position `p` removes its key from the map.
pub proof fn lemma_pairs_map_remove<V>(ps: Seq<(Seq<char>, V)>, p: int)
    requires
        0 <= p < ps.len(),
        strictly_sorted(ps.map_values(|q: (Seq<char>, V)| q.0)),
    ensures
        pairs_map(ps.remove(p)) == pairs_map(ps).remove(ps[p].0),
{
    let k = ps[p].0;
    let ns = ps.remove(p);
    ps.remove_ensures(p);
    let ks = ps.map_values(|q: (Seq<char>, V)| q.0);
    assert(ns.map_values(|q: (Seq<char>, V)| q.0) =~= ks.remove(p));
    let m1 = pairs_map(ns);
    let m2 = pairs_map(ps).remove(k);
    assert forall|x: Seq<char>| #![trigger m1.dom().contains(x)] #![trigger m2.dom().contains(x)] m1.dom().contains(x) == m2.dom().contains(x) && (m1.dom().contains(x) ==> m1[x] == m2[x]) by {
        lemma_lookup_none(ps, x);
        lemma_lookup_none(ns, x);
        if x == k {
            assert forall|j: int| 0 <= j < ns.len() implies ns[j].0 != x by {
                if j < p {
                    assert(ns[j] == ps[j]);
                    assert(seq_lt(ks[j], ks[p]));
                    lemma_seq_lt_irreflexive(k);
                } else {
                    assert(ns[j] == ps[j + 1]);
                    assert(seq_lt(ks[p], ks[j + 1]));
                    lemma_seq_lt_irreflexive(k);
                }
            }
        } else if exists|i: int| 0 <= i < ps.len() && ps[i].0 == x {
            let i = choose|i: int| 0 <= i < ps.len() && ps[i].0 == x;
            let j = if i < p { i } else { i - 1 };
            assert(ns[j] == ps[i]);
            lemma_pairs_map_at(ps, i);
            lemma_pairs_map_at(ns, j);
        } else {
            assert forall|j: int| 0 <= j < ns.len() implies ns[j].0 != x by {
                if j < p { assert(ns[j] == ps[j]); }
                else { assert(ns[j] == ps[j + 1]); }
            }
        }
    }
    assert(m1.dom() =~= m2.dom());
    assert(m1 =~= m2);
}

/// Inserting a key between its neighbours keeps the keys strictly increasing.
pub proof fn lemma_sorted_insert(ks: Seq<Seq<char>>, p: int, k: Seq<char>)
    requires
        0 <= p <= ks.len(),
        strictly_sorted(ks),
        forall|j: int| 0 <= j < p ==> seq_lt(#[trigger] ks[j], k),
        p < ks.len() ==> seq_lt(k, ks[p]),
    ensures
        strictly_sorted(ks.insert(p, k)),
{
    let nks = ks.insert(p, k);
    ks.insert_ensures(p, k);
    assert forall|a: int, b: int| 0 <= a < b < nks.len() implies seq_lt(nks[a], nks[b]) by {
        if a < p {
            assert(nks[a] == ks[a]);
            if b < p {
                assert(nks[b] == ks[b]);
            } else if b == p {
                assert(nks[b] == k);
            } else {
                let bb = b - 1;
                assert(nks[bb + 1] == ks[bb]);
                if b - 1 > a {
                    assert(seq_lt(ks[a], ks[b - 1]));
                }
            }
        } else if a == p {
            assert(nks[a] == k);
            assert(nks[b] == ks[b - 1]);
            if b - 1 > p {
                assert(seq_lt(ks[p], ks[b - 1]));
                lemma_seq_lt_transitive(k, ks[p], ks[b - 1]);
            }
        } else {
            assert(nks[a] == ks[a - 1]);
            assert(nks[b] == ks[b - 1]);
        }
    }
}

/// A set of strings, iterated in increasing order, as a `BTreeSet<String>` is.
#[derive(Debug, Clone, PartialEq, Eq)]
pub struct StrSet {
    map: StrMap<()>,
}

impl View for StrSet {
    type V = Set<Seq<char>>;

    open spec fn view(&self) -> Set<Seq<char>> {
        self.entries()@.dom()
    }
}

impl StrSet {
    /// The underlying map from members to unit.
    pub closed spec fn entries(self) -> StrMap<()> {
        self.map
    }

    /// The members in increasing order.
    pub open spec fn members(self) -> Seq<Seq<char>> {
        self.entries().keys()
    }

    /// An empty set.
    pub fn new() -> (s: Self)
        ensures
            s@ == Set::<Seq<char>>::empty(),
            s.members().len() == 0,
    {
        let m = StrMap::new();
        assert(m.keys().len() == 0);
        StrSet { map: m }
    }

    /// Adds `item`; returns whether it was absent before.
    pub fn insert(&mut self, item: String) -> (added: bool)
        ensures
            final(self)@ == old(self)@.insert(item@),
            added == !old(self)@.contains(item@),
    {
        let r = self.map.insert(item, ());
        r.is_none()
    }

    /// Whether `item` is a member.
    pub fn contains(&self, item: &str) -> (b: bool)
        ensures
            b == self@.contains(item@),
    {
        self.map.contains_key(item)
    }

    /// The number of members.
    pub fn len(&self) -> (n: usize)
        ensures
            n == self.members().len(),
    {
        self.map.len()
    }

    /// Whether the set has no member.
    pub fn is_empty(&self) -> (b: bool)
        ensures
            b == (self.members().len() == 0),
    {
        self.map.len() == 0
    }

    /// The members in increasing order.
    pub fn to_vec(&self) -> (v: Vec<String>)
        ensures
            v@.map_values(|m: String| m@) == self.members(),
    {
        let n = self.map.len();
        let mut v: Vec<String> = Vec::new();
        let mut i: usize = 0;
        while i < n
            invariant
                i <= n,
                n == self.members().len(),
                v@.len() == i,
                forall|j: int| 0 <= j < i ==> #[trigger] v@[j]@ == self.members()[j],
            decreases n - i,
        {
            v.push(self.map.key_at(i).clone());
            i = i + 1;
        }
        assert(v@.map_values(|m: String| m@) =~= self.members());
        v
    }

    /// The member at position `i` in increasing order.
    pub fn member_at(&self, i: usize) -> (m: &String)
        requires
            i < self.members().len(),
        ensures
            m@ == self.members()[i as int],
    {
        self.map.key_at(i)
    }

    /// The members and the set agree, and the members increase strictly.
    pub proof fn lemma_members(self)
        requires
            self.entries().well_ordered(),
        ensures
            strictly_sorted(self.members()),
            forall|i: int| 0 <= i < self.members().len() ==> self@.contains(#[trigger] self.members()[i]),
    {
        assert forall|i: int| 0 <= i < self.members().len() implies self@.contains(#[trigger] self.members()[i]) by {
            self.entries().lemma_view_at(i);
        }
    }
}

} // verus!
