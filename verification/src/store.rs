//! An ordered key-value table: the in-memory form of one of the contract's
//! storage maps. Entries are kept strictly ascending by key, which is the
//! order in which the store lists them, and no key occurs twice.
use vstd::prelude::*;

verus! {

/// A key of an ordered table: a strict total order on the key's view, and
/// the executable operations that the table needs.
pub trait StoreKey: View + Sized {
    spec fn precedes(a: Self::V, b: Self::V) -> bool;

    proof fn lemma_irreflexive(a: Self::V)
        ensures
            !Self::precedes(a, a),
    ;

    proof fn lemma_transitive(a: Self::V, b: Self::V, c: Self::V)
        requires
            Self::precedes(a, b),
            Self::precedes(b, c),
        ensures
            Self::precedes(a, c),
    ;

    proof fn lemma_total(a: Self::V, b: Self::V)
        requires
            a != b,
        ensures
            Self::precedes(a, b) || Self::precedes(b, a),
    ;

    fn precedes_exec(&self, other: &Self) -> (r: bool)
        ensures
            r == Self::precedes(self@, other@),
    ;

    fn same_key(&self, other: &Self) -> (r: bool)
        ensures
            r == (self@ == other@),
    ;

    fn copy_key(&self) -> (r: Self)
        ensures
            r@ == self@,
    ;
}

/// A value of an ordered table: a copy with the same view.
pub trait StoreValue: View + Sized {
    fn copy_value(&self) -> (r: Self)
        ensures
            r@ == self@,
    ;
}

/// Keys strictly ascending along the sequence.
pub open spec fn keys_ascending<K: StoreKey, W>(s: Seq<(K::V, W)>) -> bool {
    forall|i: int, j: int| 0 <= i < j < s.len() ==> #[trigger] K::precedes(s[i].0, s[j].0)
}

/// The map that a sequence of entries with distinct keys stands for.
pub open spec fn map_of<A, B>(s: Seq<(A, B)>) -> Map<A, B> {
    Map::new(
        |k: A| exists|i: int| 0 <= i < s.len() && s[i].0 == k,
        |k: A| s[choose|i: int| 0 <= i < s.len() && s[i].0 == k].1,
    )
}

/// In an ascending sequence the entry at `i` is what the map holds for its key.
pub proof fn lemma_lookup<K: StoreKey, W>(s: Seq<(K::V, W)>, i: int)
    requires
        keys_ascending::<K, W>(s),
        0 <= i < s.len(),
    ensures
        map_of(s).contains_key(s[i].0),
        map_of(s)[s[i].0] == s[i].1,
{
    let k = s[i].0;
    assert(exists|j: int| 0 <= j < s.len() && s[j].0 == k);
    let j = choose|j: int| 0 <= j < s.len() && s[j].0 == k;
    if j < i {
        assert(K::precedes(s[j].0, s[i].0));
        K::lemma_irreflexive(k);
    } else if i < j {
        assert(K::precedes(s[i].0, s[j].0));
        K::lemma_irreflexive(k);
    }
}

/// A key precedes every key of an ascending sequence that its first key does
/// not precede and differs from.
pub proof fn lemma_precedes_rest<K: StoreKey, W>(s: Seq<(K::V, W)>, p: int, k: K::V)
    requires
        keys_ascending::<K, W>(s),
        0 <= p < s.len(),
        !K::precedes(s[p].0, k),
        s[p].0 != k,
    ensures
        forall|j: int| p <= j < s.len() ==> K::precedes(k, #[trigger] s[j].0),
{
    K::lemma_total(s[p].0, k);
    assert forall|j: int| p <= j < s.len() implies K::precedes(k, #[trigger] s[j].0) by {
        if j > p {
            assert(K::precedes(s[p].0, s[j].0));
            K::lemma_transitive(k, s[p].0, s[j].0);
        }
    }
}

/// A key that the sequence does not hold at the position where it would go is
/// not in the map.
pub proof fn lemma_absent<K: StoreKey, W>(s: Seq<(K::V, W)>, p: int, k: K::V)
    requires
        keys_ascending::<K, W>(s),
        0 <= p <= s.len(),
        forall|j: int| 0 <= j < p ==> K::precedes(#[trigger] s[j].0, k),
        forall|j: int| p <= j < s.len() ==> K::precedes(k, #[trigger] s[j].0),
    ensures
        !map_of(s).contains_key(k),
{
    if map_of(s).contains_key(k) {
        let j = choose|j: int| 0 <= j < s.len() && s[j].0 == k;
        K::lemma_irreflexive(k);
        if j < p {
            assert(K::precedes(s[j].0, k));
        } else {
            assert(K::precedes(k, s[j].0));
        }
    }
}

pub struct SortedMap<K, V> {
    entries: Vec<(K, V)>,
}

impl<K: StoreKey, V: StoreValue> View for SortedMap<K, V> {
    type V = Map<K::V, V::V>;

    open spec fn view(&self) -> Map<K::V, V::V> {
        map_of(self.listing())
    }
}

impl<K: StoreKey, V: StoreValue> SortedMap<K, V> {
    /// The entries, by view, in ascending key order.
    pub closed spec fn listing(&self) -> Seq<(K::V, V::V)> {
        self.entries@.map_values(|e: (K, V)| (e.0@, e.1@))
    }

    pub open spec fn wf(&self) -> bool {
        keys_ascending::<K, V::V>(self.listing())
    }

    pub fn new() -> (r: Self)
        ensures
            r.wf(),
            r.listing() == Seq::<(K::V, V::V)>::empty(),
            r@ == Map::<K::V, V::V>::empty(),
    {
        let r = SortedMap { entries: Vec::new() };
        assert(r.listing() =~= Seq::<(K::V, V::V)>::empty());
        assert(r@ =~= Map::<K::V, V::V>::empty());
        r
    }

    pub fn len(&self) -> (n: usize)
        ensures
            n == self.listing().len(),
    {
        self.entries.len()
    }

    /// The entry at position `i` of the listing.
    pub fn entry(&self, i: usize) -> (r: &(K, V))
        requires
            i < self.listing().len(),
        ensures
            (r.0@, r.1@) == self.listing()[i as int],
    {
        &self.entries[i]
    }

    /// A copy of the entries, in ascending key order.
    pub fn to_vec(&self) -> (r: Vec<(K, V)>)
        ensures
            r@.map_values(|e: (K, V)| (e.0@, e.1@)) == self.listing(),
    {
        let mut r: Vec<(K, V)> = Vec::new();
        let mut i: usize = 0;
        while i < self.entries.len()
            invariant
                i <= self.entries@.len(),
                r@.len() == i,
                r@.map_values(|e: (K, V)| (e.0@, e.1@)) == self.listing().take(i as int),
            decreases self.entries.len() - i,
        {
            let e = &self.entries[i];
            let ghost before = r@;
            r.push((e.0.copy_key(), e.1.copy_value()));
            assert(self.listing()[i as int] == (e.0@, e.1@));
            assert(r@ == before.push(r@[i as int]));
            assert(r@.map_values(|e: (K, V)| (e.0@, e.1@)) =~= self.listing().take(i + 1));
            i += 1;
        }
        assert(self.listing().take(i as int) =~= self.listing());
        r
    }

    /// The first position whose key does not precede `k`.
    fn position(&self, k: &K) -> (p: usize)
        requires
            self.wf(),
        ensures
            p <= self.listing().len(),
            forall|j: int| 0 <= j < p ==> K::precedes(#[trigger] self.listing()[j].0, k@),
            p < self.listing().len() ==> !K::precedes(self.listing()[p as int].0, k@),
    {
        let mut i: usize = 0;
        while i < self.entries.len()
            invariant
                i <= self.listing().len(),
                self.listing().len() == self.entries@.len(),
                forall|j: int| 0 <= j < i ==> K::precedes(#[trigger] self.listing()[j].0, k@),
            decreases self.entries.len() - i,
        {
            if !self.entries[i].0.precedes_exec(k) {
                return i;
            }
            i += 1;
        }
        i
    }

    /// Where `k` stands, if the table holds it.
    fn find(&self, k: &K) -> (r: Option<usize>)
        requires
            self.wf(),
        ensures
            match r {
                Some(i) => i < self.listing().len() && self.listing()[i as int].0 == k@,
                None => !self@.contains_key(k@),
            },
    {
        let p = self.position(k);
        if p < self.entries.len() && self.entries[p].0.same_key(k) {
            Some(p)
        } else {
            proof {
                let s = self.listing();
                if p < s.len() {
                    lemma_precedes_rest::<K, V::V>(s, p as int, k@);
                }
                lemma_absent::<K, V::V>(s, p as int, k@);
            }
            None
        }
    }

    pub fn get(&self, k: &K) -> (r: Option<&V>)
        requires
            self.wf(),
        ensures
            match r {
                Some(v) => self@.contains_key(k@) && v@ == self@[k@],
                None => !self@.contains_key(k@),
            },
    {
        match self.find(k) {
            Some(i) => {
                proof {
                    lemma_lookup::<K, V::V>(self.listing(), i as int);
                }
                Some(&self.entries[i].1)
            },
            None => None,
        }
    }

    pub fn contains(&self, k: &K) -> (r: bool)
        requires
            self.wf(),
        ensures
            r == self@.contains_key(k@),
    {
        match self.find(k) {
            Some(i) => {
                proof {
                    lemma_lookup::<K, V::V>(self.listing(), i as int);
                }
                true
            },
            None => false,
        }
    }

    pub fn insert(&mut self, k: K, v: V)
        requires
            old(self).wf(),
        ensures
            final(self).wf(),
            final(self)@ == old(self)@.insert(k@, v@),
    {
        let ghost s = self.listing();
        let ghost e = (k@, v@);
        let p = self.position(&k);
        if p < self.entries.len() && self.entries[p].0.same_key(&k) {
            self.entries.set(p, (k, v));
            proof {
                let t = self.listing();
                assert(t =~= s.update(p as int, e));
                assert(keys_ascending::<K, V::V>(t)) by {
                    assert forall|i: int, j: int| 0 <= i < j < t.len() implies #[trigger] K::precedes(
                        t[i].0,
                        t[j].0,
                    ) by {
                        assert(K::precedes(s[i].0, s[j].0));
                    }
                }
                assert(self@ =~= map_of(s).insert(e.0, e.1)) by {
                    assert forall|x: K::V| #[trigger] self@.contains_key(x) implies map_of(
                        s,
                    ).insert(e.0, e.1).contains_key(x) by {
                        let j = choose|j: int| 0 <= j < t.len() && t[j].0 == x;
                        if j != p {
                            assert(s[j].0 == x);
                        }
                    }
                    assert forall|x: K::V| #[trigger] map_of(s).insert(e.0, e.1).contains_key(x)
                        implies self@.contains_key(x) && self@[x] == map_of(s).insert(e.0, e.1)[x] by {
                        if x == e.0 {
                            lemma_lookup::<K, V::V>(t, p as int);
                        } else {
                            let j = choose|j: int| 0 <= j < s.len() && s[j].0 == x;
                            lemma_lookup::<K, V::V>(s, j);
                            assert(t[j] == s[j]);
                            lemma_lookup::<K, V::V>(t, j);
                        }
                    }
                }
            }
        } else {
            proof {
                if p < s.len() {
                    lemma_precedes_rest::<K, V::V>(s, p as int, k@);
                }
            }
            self.entries.insert(p, (k, v));
            proof {
                let t = self.listing();
                assert(t =~= s.insert(p as int, e));
                assert(keys_ascending::<K, V::V>(t)) by {
                    assert forall|i: int, j: int| 0 <= i < j < t.len() implies #[trigger] K::precedes(
                        t[i].0,
                        t[j].0,
                    ) by {
                        if j < p {
                            assert(K::precedes(s[i].0, s[j].0));
                        } else if j == p {
                            assert(K::precedes(s[i].0, e.0));
                        } else if i == p {
                            assert(K::precedes(e.0, s[j - 1].0));
                        } else if i < p {
                            assert(K::precedes(s[i].0, s[j - 1].0));
                        } else {
                            assert(K::precedes(s[i - 1].0, s[j - 1].0));
                        }
                    }
                }
                assert(self@ =~= map_of(s).insert(e.0, e.1)) by {
                    assert forall|x: K::V| #[trigger] self@.contains_key(x) implies map_of(
                        s,
                    ).insert(e.0, e.1).contains_key(x) by {
                        let j = choose|j: int| 0 <= j < t.len() && t[j].0 == x;
                        if j < p {
                            assert(s[j].0 == x);
                        } else if j > p {
                            assert(s[j - 1].0 == x);
                        }
                    }
                    assert forall|x: K::V| #[trigger] map_of(s).insert(e.0, e.1).contains_key(x)
                        implies self@.contains_key(x) && self@[x] == map_of(s).insert(e.0, e.1)[x] by {
                        if x == e.0 {
                            assert(t[p as int] == e);
                            lemma_lookup::<K, V::V>(t, p as int);
                        } else {
                            let j = choose|j: int| 0 <= j < s.len() && s[j].0 == x;
                            lemma_lookup::<K, V::V>(s, j);
                            if j < p {
                                assert(t[j] == s[j]);
                                lemma_lookup::<K, V::V>(t, j);
                            } else {
                                assert(t[j + 1] == s[j]);
                                lemma_lookup::<K, V::V>(t, j + 1);
                            }
                        }
                    }
                }
            }
        }
    }

    pub fn remove(&mut self, k: &K)
        requires
            old(self).wf(),
        ensures
            final(self).wf(),
            final(self)@ == old(self)@.remove(k@),
    {
        let ghost s = self.listing();
        match self.find(k) {
            Some(p) => {
                self.entries.remove(p);
                proof {
                    let t = self.listing();
                    assert(t =~= s.remove(p as int));
                    assert(keys_ascending::<K, V::V>(t)) by {
                        assert forall|i: int, j: int| 0 <= i < j < t.len() implies #[trigger] K::precedes(
                            t[i].0,
                            t[j].0,
                        ) by {
                            if j < p {
                                assert(K::precedes(s[i].0, s[j].0));
                            } else if i < p {
                                assert(K::precedes(s[i].0, s[j + 1].0));
                            } else {
                                assert(K::precedes(s[i + 1].0, s[j + 1].0));
                            }
                        }
                    }
                    assert(self@ =~= map_of(s).remove(k@)) by {
                        assert forall|x: K::V| #[trigger] self@.contains_key(x) implies map_of(
                            s,
                        ).remove(k@).contains_key(x) by {
                            let j = choose|j: int| 0 <= j < t.len() && t[j].0 == x;
                            if j < p {
                                assert(s[j].0 == x);
                                assert(K::precedes(s[j].0, s[p as int].0));
                                K::lemma_irreflexive(x);
                            } else {
                                assert(s[j + 1].0 == x);
                                assert(K::precedes(s[p as int].0, s[j + 1].0));
                                K::lemma_irreflexive(x);
                            }
                        }
                        assert forall|x: K::V| #[trigger] map_of(s).remove(k@).contains_key(x)
                            implies self@.contains_key(x) && self@[x] == map_of(s).remove(k@)[x] by {
                            let j = choose|j: int| 0 <= j < s.len() && s[j].0 == x;
                            lemma_lookup::<K, V::V>(s, j);
                            if j < p {
                                assert(t[j] == s[j]);
                                lemma_lookup::<K, V::V>(t, j);
                            } else {
                                assert(j != p);
                                assert(t[j - 1] == s[j]);
                                lemma_lookup::<K, V::V>(t, j - 1);
                            }
                        }
                    }
                }
            },
            None => {
                assert(self@ =~= map_of(s).remove(k@));
            },
        }
    }
}

} // verus!
