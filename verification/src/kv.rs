//! A small verified key-value store, with a mathematical `Map` view.  It
//! backs the overlay's pending-write map and the in-memory test double's
//! two tables.  Entries are kept in strictly ascending key order, so the
//! representation is canonical: it does not depend on the order the keys
//! were inserted or updated in.

use vstd::prelude::*;

verus! {

/// A key type with a decidable, view-faithful equality and a strict total
/// order, so stores can keep their entries in a canonical key order.
pub trait ViewKey: View + Sized {
    /// The strict total order the key type sorts by.
    spec fn key_lt(a: Self::V, b: Self::V) -> bool;

    /// Of `key_lt(a, b)`, `key_lt(b, a)` and `a == b`, exactly one holds.
    proof fn lemma_key_trichotomy(a: Self::V, b: Self::V)
        ensures
            Self::key_lt(a, b) || Self::key_lt(b, a) || a == b,
            Self::key_lt(a, b) ==> !Self::key_lt(b, a) && a != b,
            Self::key_lt(b, a) ==> !Self::key_lt(a, b) && a != b,
    ;

    /// The order is transitive.
    proof fn lemma_key_transitive(a: Self::V, b: Self::V, c: Self::V)
        requires
            Self::key_lt(a, b),
            Self::key_lt(b, c),
        ensures
            Self::key_lt(a, c),
    ;

    /// Whether two keys denote the same storage slot.
    fn key_equals(&self, other: &Self) -> (r: bool)
        ensures
            r <==> self@ == other@,
    ;

    /// Whether this key sorts strictly before the other.
    fn key_less(&self, other: &Self) -> (r: bool)
        ensures
            r <==> Self::key_lt(self@, other@),
    ;
}

/// Whether every key occurs at most once among the entries.
pub open spec fn kv_unique<K: View, V>(s: Seq<(K, V)>) -> bool {
    forall|i: int, j: int| 0 <= i < j < s.len() ==> s[i].0@ != s[j].0@
}

/// Whether the entries are in strictly ascending key order.  A sorted
/// store is a canonical representation: it does not depend on the order
/// the keys were inserted in.
pub open spec fn kv_sorted<K: ViewKey, V>(s: Seq<(K, V)>) -> bool {
    forall|i: int, j: int| 0 <= i < j < s.len() ==> K::key_lt(s[i].0@, s[j].0@)
}

/// Sorted entries have unique keys.
proof fn lemma_kv_sorted_unique<K: ViewKey, V>(s: Seq<(K, V)>)
    requires
        kv_sorted(s),
    ensures
        kv_unique(s),
{
    assert forall|i: int, j: int| 0 <= i < j < s.len() implies s[i].0@ != s[j].0@ by {
        K::lemma_key_trichotomy(s[i].0@, s[j].0@);
    }
}

/// The map an entry sequence denotes: each present key maps to the value
/// of the entry carrying it.
pub open spec fn kv_map<K: View, V>(s: Seq<(K, V)>) -> Map<K::V, V> {
    Map::new(
        |k: K::V| exists|i: int| 0 <= i < s.len() && s[i].0@ == k,
        |k: K::V|
            {
                let i = choose|i: int| 0 <= i < s.len() && s[i].0@ == k;
                s[i].1
            },
    )
}

proof fn lemma_kv_lookup<K: View, V>(s: Seq<(K, V)>, i: int)
    requires
        kv_unique(s),
        0 <= i < s.len(),
    ensures
        kv_map(s).dom().contains(s[i].0@),
        kv_map(s)[s[i].0@] == s[i].1,
{
    let k = s[i].0@;
    assert(kv_map(s).dom().contains(k));
    let j = choose|j: int| 0 <= j < s.len() && s[j].0@ == k;
    if i < j {
        assert(s[i].0@ != s[j].0@);
        assert(false);
    } else if j < i {
        assert(s[j].0@ != s[i].0@);
        assert(false);
    }
}

proof fn lemma_kv_absent<K: View, V>(s: Seq<(K, V)>, k: K::V)
    requires
        forall|i: int| 0 <= i < s.len() ==> s[i].0@ != k,
    ensures
        !kv_map(s).dom().contains(k),
{
}

proof fn lemma_kv_update<K: ViewKey, V>(s: Seq<(K, V)>, i: int, e: (K, V))
    requires
        kv_unique(s),
        kv_sorted(s),
        0 <= i < s.len(),
        e.0@ == s[i].0@,
    ensures
        kv_unique(s.update(i, e)),
        kv_sorted(s.update(i, e)),
        kv_map(s.update(i, e)) == kv_map(s).insert(e.0@, e.1),
{
    let s2 = s.update(i, e);
    assert forall|p: int, q: int| 0 <= p < q < s2.len() implies s2[p].0@ != s2[q].0@ by {
        assert(s[p].0@ != s[q].0@);
        assert(s2[p].0@ == s[p].0@ && s2[q].0@ == s[q].0@);
    }
    assert forall|p: int, q: int| 0 <= p < q < s2.len() implies K::key_lt(s2[p].0@, s2[q].0@) by {
        assert(K::key_lt(s[p].0@, s[q].0@));
        assert(s2[p].0@ == s[p].0@ && s2[q].0@ == s[q].0@);
    }
    assert forall|k: K::V| #[trigger] kv_map(s2).dom().contains(k) implies kv_map(s).insert(
        e.0@,
        e.1,
    ).dom().contains(k) by {
        let j = choose|j: int| 0 <= j < s2.len() && s2[j].0@ == k;
        assert(s[j].0@ == k);
    }
    assert forall|k: K::V| #[trigger] kv_map(s).insert(e.0@, e.1).dom().contains(k) implies kv_map(
        s2,
    ).dom().contains(k) by {
        if k == e.0@ {
            assert(s2[i].0@ == k);
        } else {
            let j = choose|j: int| 0 <= j < s.len() && s[j].0@ == k;
            assert(s2[j].0@ == k);
        }
    }
    assert forall|k: K::V| #[trigger] kv_map(s2).dom().contains(k) implies kv_map(s2)[k] == kv_map(
        s,
    ).insert(e.0@, e.1)[k] by {
        if k == e.0@ {
            lemma_kv_lookup(s2, i);
        } else {
            let j = choose|j: int| 0 <= j < s2.len() && s2[j].0@ == k;
            assert(j != i);
            lemma_kv_lookup(s2, j);
            lemma_kv_lookup(s, j);
        }
    }
    assert(kv_map(s2) =~= kv_map(s).insert(e.0@, e.1));
}

proof fn lemma_kv_insert_mid<K: ViewKey, V>(s: Seq<(K, V)>, p: int, e: (K, V))
    requires
        kv_sorted(s),
        0 <= p <= s.len(),
        forall|j: int| 0 <= j < p ==> K::key_lt(#[trigger] s[j].0@, e.0@),
        forall|j: int| p <= j < s.len() ==> K::key_lt(e.0@, #[trigger] s[j].0@),
    ensures
        kv_sorted(s.insert(p, e)),
        kv_unique(s.insert(p, e)),
        kv_map(s.insert(p, e)) == kv_map(s).insert(e.0@, e.1),
{
    let s2 = s.insert(p, e);
    s.insert_ensures(p, e);
    lemma_kv_sorted_unique(s);
    assert forall|i: int, j: int| 0 <= i < j < s2.len() implies K::key_lt(
        s2[i].0@,
        s2[j].0@,
    ) by {
        if i < p && j < p {
            assert(s2[i] == s[i] && s2[j] == s[j]);
        } else if i < p && j == p {
            assert(s2[i] == s[i]);
        } else if i < p && j > p {
            assert(s2[i] == s[i] && s2[j] == s[j - 1] && p <= j - 1);
            K::lemma_key_transitive(s[i].0@, e.0@, s[j - 1].0@);
        } else if i == p {
            assert(s2[j] == s[j - 1] && p <= j - 1);
        } else {
            assert(s2[i] == s[i - 1] && s2[j] == s[j - 1]);
        }
    }
    lemma_kv_sorted_unique(s2);
    assert forall|k: K::V| #[trigger] kv_map(s2).dom().contains(k) implies kv_map(s).insert(
        e.0@,
        e.1,
    ).dom().contains(k) by {
        let j = choose|j: int| 0 <= j < s2.len() && s2[j].0@ == k;
        if j < p {
            assert(s[j].0@ == k);
        } else if j > p {
            assert(s[j - 1].0@ == k);
        }
    }
    assert forall|k: K::V| #[trigger] kv_map(s).insert(e.0@, e.1).dom().contains(k) implies kv_map(
        s2,
    ).dom().contains(k) by {
        if k == e.0@ {
            assert(s2[p].0@ == k);
        } else {
            let j = choose|j: int| 0 <= j < s.len() && s[j].0@ == k;
            if j < p {
                assert(s2[j].0@ == k);
            } else {
                assert(s2[j + 1].0@ == k);
            }
        }
    }
    assert forall|k: K::V| #[trigger] kv_map(s2).dom().contains(k) implies kv_map(s2)[k] == kv_map(
        s,
    ).insert(e.0@, e.1)[k] by {
        if k == e.0@ {
            lemma_kv_lookup(s2, p);
        } else {
            let j = choose|j: int| 0 <= j < s2.len() && s2[j].0@ == k;
            assert(j != p);
            lemma_kv_lookup(s2, j);
            if j < p {
                lemma_kv_lookup(s, j);
            } else {
                lemma_kv_lookup(s, j - 1);
            }
        }
    }
    assert(kv_map(s2) =~= kv_map(s).insert(e.0@, e.1));
}

proof fn lemma_kv_remove<K: ViewKey, V>(s: Seq<(K, V)>, i: int)
    requires
        kv_unique(s),
        kv_sorted(s),
        0 <= i < s.len(),
    ensures
        kv_unique(s.remove(i)),
        kv_sorted(s.remove(i)),
        kv_map(s.remove(i)) == kv_map(s).remove(s[i].0@),
{
    let s2 = s.remove(i);
    assert forall|p: int, q: int| 0 <= p < q < s2.len() implies K::key_lt(
        s2[p].0@,
        s2[q].0@,
    ) by {
        let p0 = if p < i {
            p
        } else {
            p + 1
        };
        let q0 = if q < i {
            q
        } else {
            q + 1
        };
        assert(s2[p] == s[p0] && s2[q] == s[q0]);
        assert(K::key_lt(s[p0].0@, s[q0].0@));
    }
    assert forall|p: int, q: int| 0 <= p < q < s2.len() implies s2[p].0@ != s2[q].0@ by {
        let p0 = if p < i {
            p
        } else {
            p + 1
        };
        let q0 = if q < i {
            q
        } else {
            q + 1
        };
        assert(s2[p] == s[p0] && s2[q] == s[q0]);
        assert(s[p0].0@ != s[q0].0@);
    }
    assert forall|k: K::V| #[trigger] kv_map(s2).dom().contains(k) implies kv_map(s).remove(
        s[i].0@,
    ).dom().contains(k) by {
        let j = choose|j: int| 0 <= j < s2.len() && s2[j].0@ == k;
        let j0 = if j < i {
            j
        } else {
            j + 1
        };
        assert(s2[j] == s[j0]);
        assert(j0 != i);
        if i < j0 {
            assert(s[i].0@ != s[j0].0@);
        } else {
            assert(s[j0].0@ != s[i].0@);
        }
    }
    assert forall|k: K::V| #[trigger] kv_map(s).remove(s[i].0@).dom().contains(k) implies kv_map(
        s2,
    ).dom().contains(k) by {
        let j = choose|j: int| 0 <= j < s.len() && s[j].0@ == k;
        assert(j != i);
        if j < i {
            assert(s2[j] == s[j]);
        } else {
            assert(s2[j - 1] == s[j]);
        }
    }
    assert forall|k: K::V| #[trigger] kv_map(s2).dom().contains(k) implies kv_map(s2)[k] == kv_map(
        s,
    ).remove(s[i].0@)[k] by {
        let j = choose|j: int| 0 <= j < s2.len() && s2[j].0@ == k;
        lemma_kv_lookup(s2, j);
        let j0 = if j < i {
            j
        } else {
            j + 1
        };
        assert(s2[j] == s[j0]);
        lemma_kv_lookup(s, j0);
    }
    assert(kv_map(s2) =~= kv_map(s).remove(s[i].0@));
}

/// A key-value store with at most one entry per key, kept in ascending
/// key order.  Its view is the map the entries denote.
#[derive(Debug)]
pub struct KvStore<K: ViewKey, V> {
    entries: Vec<(K, V)>,
}

impl<K: ViewKey, V> View for KvStore<K, V> {
    type V = Map<<K as View>::V, V>;

    closed spec fn view(&self) -> Map<<K as View>::V, V> {
        kv_map(self.entries@)
    }
}

impl<K: ViewKey, V> KvStore<K, V> {
    #[verifier::type_invariant]
    spec fn inv(self) -> bool {
        kv_sorted(self.entries@) && kv_unique(self.entries@)
    }

    /// An empty store.
    pub fn new() -> (r: Self)
        ensures
            r@ == Map::<<K as View>::V, V>::empty(),
    {
        let r = KvStore { entries: Vec::new() };
        proof {
            assert(r@ =~= Map::<<K as View>::V, V>::empty());
        }
        r
    }

    /// The index of the entry carrying `key`, if one does.
    fn find(&self, key: &K) -> (r: Option<usize>)
        ensures
            match r {
                Some(i) => i < self.entries@.len() && self.entries@[i as int].0@ == key@,
                None => !self@.dom().contains(key@),
            },
    {
        proof {
            use_type_invariant(self);
        }
        let n: usize = self.entries.len();
        let mut i: usize = 0;
        while i < n
            invariant
                0 <= i <= n,
                n == self.entries@.len(),
                forall|j: int| 0 <= j < i ==> self.entries@[j].0@ != key@,
            decreases n - i,
        {
            if self.entries[i].0.key_equals(key) {
                return Some(i);
            }
            i += 1;
        }
        proof {
            lemma_kv_absent(self.entries@, key@);
        }
        None
    }

    /// Whether the store holds an entry for `key`.
    pub fn contains(&self, key: &K) -> (r: bool)
        ensures
            r <==> self@.dom().contains(key@),
    {
        proof {
            use_type_invariant(self);
        }
        match self.find(key) {
            Some(i) => {
                proof {
                    lemma_kv_lookup(self.entries@, i as int);
                }
                true
            },
            None => false,
        }
    }

    /// The value stored under `key`, if any.
    pub fn get(&self, key: &K) -> (r: Option<&V>)
        ensures
            match r {
                Some(v) => self@.dom().contains(key@) && *v == self@[key@],
                None => !self@.dom().contains(key@),
            },
    {
        proof {
            use_type_invariant(self);
        }
        match self.find(key) {
            Some(i) => {
                proof {
                    lemma_kv_lookup(self.entries@, i as int);
                }
                Some(&self.entries[i].1)
            },
            None => None,
        }
    }

    /// Stores `value` under `key`, replacing any earlier entry for the
    /// same key and handing back the value that entry held.
    pub fn insert(&mut self, key: K, value: V) -> (r: Option<V>)
        ensures
            final(self)@ == old(self)@.insert(key@, value),
            match r {
                Some(v) => old(self)@.dom().contains(key@) && v == old(self)@[key@],
                None => !old(self)@.dom().contains(key@),
            },
    {
        proof {
            use_type_invariant(&*self);
        }
        let n: usize = self.entries.len();
        let mut p: usize = 0;
        while p < n && self.entries[p].0.key_less(&key)
            invariant
                0 <= p <= n,
                n == self.entries@.len(),
                forall|j: int| 0 <= j < p ==> K::key_lt(#[trigger] self.entries@[j].0@, key@),
            decreases n - p,
        {
            p += 1;
        }
        let mut entries: Vec<(K, V)> = Vec::new();
        std::mem::swap(&mut entries, &mut self.entries);
        let prior: Option<V>;
        if p < n && entries[p].0.key_equals(&key) {
            proof {
                lemma_kv_lookup(entries@, p as int);
                lemma_kv_update(entries@, p as int, (key, value));
            }
            let ghost before = entries@;
            let (_k, v) = entries.remove(p);
            entries.insert(p, (key, value));
            proof {
                assert(entries@ =~= before.update(p as int, (key, value)));
            }
            prior = Some(v);
        } else {
            proof {
                assert forall|j: int| p <= j < n implies K::key_lt(
                    key@,
                    #[trigger] entries@[j].0@,
                ) by {
                    K::lemma_key_trichotomy(entries@[p as int].0@, key@);
                    if j > p {
                        assert(K::key_lt(entries@[p as int].0@, entries@[j].0@));
                        K::lemma_key_transitive(key@, entries@[p as int].0@, entries@[j].0@);
                    }
                }
                assert forall|j: int| 0 <= j < n implies entries@[j].0@ != key@ by {
                    K::lemma_key_trichotomy(entries@[j].0@, key@);
                }
                lemma_kv_absent(entries@, key@);
                lemma_kv_insert_mid(entries@, p as int, (key, value));
            }
            entries.insert(p, (key, value));
            prior = None;
        }
        self.entries = entries;
        prior
    }

    /// Removes the entry for `key`, handing back its value if one was
    /// there.
    pub fn remove(&mut self, key: &K) -> (r: Option<V>)
        ensures
            final(self)@ == old(self)@.remove(key@),
            match r {
                Some(v) => old(self)@.dom().contains(key@) && v == old(self)@[key@],
                None => !old(self)@.dom().contains(key@),
            },
    {
        proof {
            use_type_invariant(&*self);
        }
        match self.find(key) {
            Some(i) => {
                proof {
                    lemma_kv_lookup(self.entries@, i as int);
                    lemma_kv_remove(self.entries@, i as int);
                }
                let mut entries: Vec<(K, V)> = Vec::new();
                std::mem::swap(&mut entries, &mut self.entries);
                let (_k, v) = entries.remove(i);
                self.entries = entries;
                Some(v)
            },
            None => {
                proof {
                    assert(self@ =~= self@.remove(key@));
                }
                None
            },
        }
    }

    /// Whether the store holds no entry at all.
    pub fn is_empty(&self) -> (r: bool)
        ensures
            r <==> self@.dom() == Set::<<K as View>::V>::empty(),
    {
        proof {
            use_type_invariant(self);
        }
        if self.entries.len() == 0 {
            proof {
                assert(self@.dom() =~= Set::<<K as View>::V>::empty());
            }
            true
        } else {
            proof {
                lemma_kv_lookup(self.entries@, 0);
                assert(self@.dom() != Set::<<K as View>::V>::empty());
            }
            false
        }
    }

    /// The number of entries, which is the number of distinct keys held.
    pub fn entry_count(&self) -> (r: usize)
        ensures
            r == self.entry_count_spec(),
    {
        self.entries.len()
    }

    /// The number of entries held.
    pub closed spec fn entry_count_spec(&self) -> usize {
        self.entries@.len() as usize
    }
}

} // verus!
