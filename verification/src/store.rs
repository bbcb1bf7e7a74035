//! Keyed storage for per-seed native resources.
//!
//! The store memoizes the expensive cache and dataset resources of the
//! memory-hard hash function, keyed by the seed identifier that selects
//! them. It is modelled as a map from seed bytes to entries; the
//! underlying sequence of pairs keeps at most one entry per seed, and
//! inserting an existing seed overwrites its entry (last write wins).

use vstd::prelude::*;

verus! {

/// True when no two pairs of `s` carry the same key.
pub open spec fn distinct_keys<T>(s: Seq<(Vec<u8>, T)>) -> bool {
    forall|i: int, j: int|
        0 <= i < j < s.len() ==> #[trigger] s[i].0@ != #[trigger] s[j].0@
}

/// True when some pair of `s` carries the key `k`.
pub open spec fn seq_has_key<T>(s: Seq<(Vec<u8>, T)>, k: Seq<u8>) -> bool {
    exists|i: int| 0 <= i < s.len() && #[trigger] s[i].0@ == k
}

/// The position of the pair of `s` that carries the key `k`.
pub open spec fn seq_key_index<T>(s: Seq<(Vec<u8>, T)>, k: Seq<u8>) -> int {
    choose|i: int| 0 <= i < s.len() && #[trigger] s[i].0@ == k
}

/// The sequence of pairs read as a map from key to entry.
pub open spec fn seq_as_map<T>(s: Seq<(Vec<u8>, T)>) -> Map<Seq<u8>, T> {
    Map::new(|k: Seq<u8>| seq_has_key(s, k), |k: Seq<u8>| s[seq_key_index(s, k)].1)
}

/// With distinct keys, the pair at `j` carrying key `k` is the one that
/// `seq_key_index` finds.
proof fn lemma_key_index_unique<T>(s: Seq<(Vec<u8>, T)>, j: int, k: Seq<u8>)
    requires
        distinct_keys(s),
        0 <= j < s.len(),
        s[j].0@ == k,
    ensures
        seq_has_key(s, k),
        seq_key_index(s, k) == j,
{
    assert(seq_has_key(s, k));
    let i = seq_key_index(s, k);
    assert(0 <= i < s.len() && s[i].0@ == k);
    if i < j {
        assert(s[i].0@ != s[j].0@);
    } else if j < i {
        assert(s[j].0@ != s[i].0@);
    }
}

/// Concurrent keyed storage for one kind of native resource, keyed by a
/// seed identifier. Entries accumulate for the life of the store; there
/// is no eviction.
pub struct ResourceStore<T> {
    entries: Vec<(Vec<u8>, T)>,
}

impl<T> View for ResourceStore<T> {
    type V = Map<Seq<u8>, T>;

    closed spec fn view(&self) -> Map<Seq<u8>, T> {
        seq_as_map(self.entries@)
    }
}

impl<T> ResourceStore<T> {
    /// The pairs held by the store, in insertion order.
    pub closed spec fn entries_seq(&self) -> Seq<(Vec<u8>, T)> {
        self.entries@
    }

    /// Well-formedness: at most one entry per seed.
    pub open spec fn wf(&self) -> bool {
        distinct_keys(self.entries_seq())
    }

    /// Number of seeds with a stored entry.
    pub open spec fn spec_entry_count(&self) -> nat {
        self.entries_seq().len()
    }

    /// Creates an empty store.
    pub fn new() -> (r: ResourceStore<T>)
        ensures
            r.wf(),
            r@ == Map::<Seq<u8>, T>::empty(),
            r.spec_entry_count() == 0,
    {
        let r = ResourceStore { entries: Vec::new() };
        proof {
            assert(r@ =~= Map::<Seq<u8>, T>::empty());
        }
        r
    }

    /// Number of seeds with a stored entry.
    pub fn entry_count(&self) -> (r: usize)
        ensures
            r == self.spec_entry_count(),
    {
        self.entries.len()
    }

    /// Looks up the entry stored for `seed`, if any.
    pub fn get(&self, seed: &Vec<u8>) -> (r: Option<&T>)
        requires
            self.wf(),
        ensures
            (r is Some) == self@.contains_key(seed@),
            r is Some ==> *r.unwrap() == self@[seed@],
    {
        let n = self.entries.len();
        let mut i: usize = 0;
        while i < n
            invariant
                self.wf(),
                n == self.entries_seq().len(),
                0 <= i <= n,
                forall|j: int| 0 <= j < i ==> #[trigger] self.entries_seq()[j].0@ != seed@,
            decreases n - i,
        {
            if keys_equal(&self.entries[i].0, seed) {
                proof {
                    lemma_key_index_unique(self.entries_seq(), i as int, seed@);
                    assert(self@.contains_key(seed@));
                    assert(self@[seed@] == self.entries_seq()[i as int].1);
                }
                return Some(&self.entries[i].1);
            }
            i = i + 1;
        }
        proof {
            assert(!seq_has_key(self.entries_seq(), seed@));
            assert(!self@.contains_key(seed@));
        }
        None
    }

    /// Stores `entry` for `seed`, replacing any entry already stored for
    /// that seed. The entry count grows only when the seed is new.
    pub fn insert(&mut self, seed: Vec<u8>, entry: T)
        requires
            old(self).wf(),
        ensures
            final(self).wf(),
            final(self)@ == old(self)@.insert(seed@, entry),
            old(self)@.contains_key(seed@) ==> final(self).spec_entry_count()
                == old(self).spec_entry_count(),
            !old(self)@.contains_key(seed@) ==> final(self).spec_entry_count()
                == old(self).spec_entry_count() + 1,
    {
        let ghost s0 = self.entries@;
        let n = self.entries.len();
        let mut i: usize = 0;
        while i < n
            invariant
                distinct_keys(s0),
                self.entries@ == s0,
                old(self).entries@ == s0,
                n == s0.len(),
                0 <= i <= n,
                forall|j: int| 0 <= j < i ==> #[trigger] s0[j].0@ != seed@,
            decreases n - i,
        {
            if keys_equal(&self.entries[i].0, &seed) {
                proof {
                    lemma_key_index_unique(s0, i as int, seed@);
                }
                let ghost k = seed@;
                self.entries.set(i, (seed, entry));
                proof {
                    let s1 = self.entries@;
                    assert forall|a: int, b: int| 0 <= a < b < s1.len() implies #[trigger] s1[a].0@
                        != #[trigger] s1[b].0@ by {
                        assert(s0[a].0@ != s0[b].0@);
                        assert(s1[a].0@ == s0[a].0@ && s1[b].0@ == s0[b].0@);
                    }
                    lemma_key_index_unique(s1, i as int, k);
                    assert forall|q: Seq<u8>| #[trigger] seq_has_key(s1, q)
                        == seq_has_key(s0, q) by {
                        if seq_has_key(s1, q) {
                            let a = choose|a: int| 0 <= a < s1.len() && #[trigger] s1[a].0@ == q;
                            assert(s0[a].0@ == q || a == i);
                            assert(seq_has_key(s0, q));
                        }
                        if seq_has_key(s0, q) {
                            let a = choose|a: int| 0 <= a < s0.len() && #[trigger] s0[a].0@ == q;
                            assert(s1[a].0@ == q || a == i);
                            if a == i {
                                assert(s1[i as int].0@ == k && s0[i as int].0@ == k);
                            }
                            assert(seq_has_key(s1, q));
                        }
                    }
                    assert forall|q: Seq<u8>| seq_has_key(s1, q) implies seq_as_map(s1)[q]
                        == seq_as_map(s0).insert(k, entry)[q] by {
                        let a = seq_key_index(s1, q);
                        assert(0 <= a < s1.len() && s1[a].0@ == q);
                        if q == k {
                            lemma_key_index_unique(s1, i as int, k);
                            assert(a == i);
                        } else {
                            assert(a != i);
                            assert(s1[a] == s0[a]);
                            lemma_key_index_unique(s0, a, q);
                        }
                    }
                    assert(seq_as_map(s1) =~= seq_as_map(s0).insert(k, entry));
                }
                return;
            }
            i = i + 1;
        }
        let ghost k = seed@;
        proof {
            assert(!seq_has_key(s0, k));
        }
        self.entries.push((seed, entry));
        proof {
            let s1 = self.entries@;
            assert(s1 == s0.push((s1[s0.len() as int].0, entry)));
            assert forall|a: int, b: int| 0 <= a < b < s1.len() implies #[trigger] s1[a].0@
                != #[trigger] s1[b].0@ by {
                if b < s0.len() {
                    assert(s0[a].0@ != s0[b].0@);
                } else {
                    assert(s1[b].0@ == k);
                    assert(s0[a].0@ != k);
                }
            }
            assert forall|q: Seq<u8>| #[trigger] seq_has_key(s1, q)
                == (seq_has_key(s0, q) || q == k) by {
                if seq_has_key(s1, q) {
                    let a = choose|a: int| 0 <= a < s1.len() && #[trigger] s1[a].0@ == q;
                    if a < s0.len() {
                        assert(seq_has_key(s0, q));
                    } else {
                        assert(q == k);
                    }
                }
                if seq_has_key(s0, q) {
                    let a = choose|a: int| 0 <= a < s0.len() && #[trigger] s0[a].0@ == q;
                    assert(s1[a].0@ == q);
                    assert(seq_has_key(s1, q));
                }
                if q == k {
                    assert(s1[s0.len() as int].0@ == k);
                    assert(seq_has_key(s1, q));
                }
            }
            assert forall|q: Seq<u8>| seq_has_key(s1, q) implies seq_as_map(s1)[q]
                == seq_as_map(s0).insert(k, entry)[q] by {
                let a = seq_key_index(s1, q);
                assert(0 <= a < s1.len() && s1[a].0@ == q);
                if q == k {
                    lemma_key_index_unique(s1, s0.len() as int, k);
                    assert(a == s0.len());
                } else {
                    assert(a != s0.len());
                    assert(s1[a] == s0[a]);
                    lemma_key_index_unique(s0, a, q);
                }
            }
            assert(seq_as_map(s1) =~= seq_as_map(s0).insert(k, entry));
        }
    }
}

/// True exactly when the two byte vectors hold the same bytes.
pub fn keys_equal(a: &Vec<u8>, b: &Vec<u8>) -> (r: bool)
    ensures
        r == (a@ == b@),
{
    if a.len() != b.len() {
        proof {
            assert(a@ != b@);
        }
        return false;
    }
    let n = a.len();
    let mut i: usize = 0;
    while i < n
        invariant
            n == a@.len(),
            a@.len() == b@.len(),
            0 <= i <= n,
            forall|j: int| 0 <= j < i ==> a@[j] == b@[j],
        decreases n - i,
    {
        if a[i] != b[i] {
            proof {
                assert(a@[i as int] != b@[i as int]);
            }
            return false;
        }
        i = i + 1;
    }
    proof {
        assert(a@ =~= b@);
    }
    true
}

/// A copy of a byte vector, holding the same bytes.
pub fn clone_bytes(v: &Vec<u8>) -> (r: Vec<u8>)
    ensures
        r@ == v@,
{
    let n = v.len();
    let mut out: Vec<u8> = Vec::new();
    let mut i: usize = 0;
    while i < n
        invariant
            n == v@.len(),
            0 <= i <= n,
            out@ == v@.subrange(0, i as int),
        decreases n - i,
    {
        out.push(v[i]);
        proof {
            assert(out@ =~= v@.subrange(0, i + 1));
        }
        i = i + 1;
    }
    proof {
        assert(out@ =~= v@);
    }
    out
}

/// Two resolutions that race on a brand-new seed each insert an entry;
/// whatever order the two insertions land in, the store holds a single
/// entry for that seed afterwards, the one written last.
pub proof fn lemma_double_insert_single_entry<T>(m: Map<Seq<u8>, T>, seed: Seq<u8>, e1: T, e2: T)
    ensures
        m.insert(seed, e1).insert(seed, e2) == m.insert(seed, e2),
        m.insert(seed, e1).insert(seed, e2)[seed] == e2,
{
    assert(m.insert(seed, e1).insert(seed, e2) =~= m.insert(seed, e2));
}

} // verus!
