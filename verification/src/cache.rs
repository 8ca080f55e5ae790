//! The result cache: a bounded, recency-ordered store from request key to
//! analysis result. Entries sit most-recent first; a lookup promotes its
//! entry to the front; an insert on a full cache evicts the least recently
//! used entry. A stored entry is never mutated, only replaced or evicted.

use vstd::prelude::*;
use crate::models::{AnalysisResponse, AnalysisResponseV, clone_response};

verus! {

/// No two entries share a key.
pub open spec fn unique_keys(s: Seq<(String, AnalysisResponse)>) -> bool {
    forall|i: int, j: int| 0 <= i < j < s.len() ==> s[i].0@ != s[j].0@
}

/// The value stored under `k`: the first entry whose key matches, if any.
pub open spec fn spec_lookup(s: Seq<(String, AnalysisResponse)>, k: Seq<char>) -> Option<
    AnalysisResponseV,
>
    decreases s.len(),
{
    if s.len() == 0 {
        None
    } else if s[0].0@ == k {
        Some(s[0].1@)
    } else {
        spec_lookup(s.drop_first(), k)
    }
}

/// `s` with its first entry keyed `k` taken out, if there is one.
pub open spec fn remove_key(s: Seq<(String, AnalysisResponse)>, k: Seq<char>) -> Seq<
    (String, AnalysisResponse),
>
    decreases s.len(),
{
    if s.len() == 0 {
        s
    } else if s[0].0@ == k {
        s.drop_first()
    } else {
        seq![s[0]] + remove_key(s.drop_first(), k)
    }
}

/// The entry sequence after an insert of (`key`, `value`) into `s` under
/// capacity `cap`: any old entry for the key leaves, the new entry goes to
/// the front, and the least recent entry is evicted if the bound demands it.
pub open spec fn spec_put(
    s: Seq<(String, AnalysisResponse)>,
    cap: int,
    key: String,
    value: AnalysisResponse,
) -> Seq<(String, AnalysisResponse)> {
    let rest = remove_key(s, key@);
    let kept = if rest.len() < cap {
        rest
    } else {
        rest.take(cap - 1)
    };
    seq![(key, value)] + kept
}

/// If no entry carries `k`, the lookup misses.
proof fn lemma_lookup_absent(s: Seq<(String, AnalysisResponse)>, k: Seq<char>)
    requires
        forall|i: int| 0 <= i < s.len() ==> s[i].0@ != k,
    ensures
        spec_lookup(s, k) is None,
    decreases s.len(),
{
    if s.len() > 0 {
        assert(forall|i: int| 0 <= i < s.drop_first().len() ==> s.drop_first()[i].0@ != k);
        lemma_lookup_absent(s.drop_first(), k);
    }
}

/// If the first entry keyed `k` sits at `idx`, the lookup returns its value.
proof fn lemma_lookup_at(s: Seq<(String, AnalysisResponse)>, k: Seq<char>, idx: int)
    requires
        0 <= idx < s.len(),
        s[idx].0@ == k,
        forall|j: int| 0 <= j < idx ==> s[j].0@ != k,
    ensures
        spec_lookup(s, k) == Some(s[idx].1@),
    decreases idx,
{
    if idx > 0 {
        assert(s.drop_first()[idx - 1] == s[idx]);
        assert(forall|j: int| 0 <= j < idx - 1 ==> s.drop_first()[j].0@ != k);
        lemma_lookup_at(s.drop_first(), k, idx - 1);
    }
}

/// If no entry carries `k`, removal leaves `s` unchanged.
proof fn lemma_remove_key_absent(s: Seq<(String, AnalysisResponse)>, k: Seq<char>)
    requires
        forall|i: int| 0 <= i < s.len() ==> s[i].0@ != k,
    ensures
        remove_key(s, k) == s,
    decreases s.len(),
{
    if s.len() > 0 {
        assert(forall|i: int| 0 <= i < s.drop_first().len() ==> s.drop_first()[i].0@ != k);
        lemma_remove_key_absent(s.drop_first(), k);
        assert(remove_key(s, k) =~= s);
    }
}

/// If the first entry keyed `k` sits at `idx`, removal drops exactly it.
proof fn lemma_remove_key_at(s: Seq<(String, AnalysisResponse)>, k: Seq<char>, idx: int)
    requires
        0 <= idx < s.len(),
        s[idx].0@ == k,
        forall|j: int| 0 <= j < idx ==> s[j].0@ != k,
    ensures
        remove_key(s, k) == s.remove(idx),
    decreases idx,
{
    if idx == 0 {
        assert(remove_key(s, k) =~= s.remove(0));
    } else {
        assert(s.drop_first()[idx - 1] == s[idx]);
        assert(forall|j: int| 0 <= j < idx - 1 ==> s.drop_first()[j].0@ != k);
        lemma_remove_key_at(s.drop_first(), k, idx - 1);
        assert(remove_key(s, k) =~= s.remove(idx));
    }
}

/// Removal keeps every other key's entry, in order, and the result of a
/// lookup for any other key.
proof fn lemma_lookup_after_remove(
    s: Seq<(String, AnalysisResponse)>,
    k: Seq<char>,
    k2: Seq<char>,
)
    requires
        k2 != k,
    ensures
        spec_lookup(remove_key(s, k), k2) == spec_lookup(s, k2),
    decreases s.len(),
{
    if s.len() > 0 {
        if s[0].0@ == k {
            assert(spec_lookup(s, k2) == spec_lookup(s.drop_first(), k2));
        } else {
            lemma_lookup_after_remove(s.drop_first(), k, k2);
            let r = seq![s[0]] + remove_key(s.drop_first(), k);
            assert(r.drop_first() =~= remove_key(s.drop_first(), k));
            if s[0].0@ != k2 {
                assert(spec_lookup(r, k2) == spec_lookup(r.drop_first(), k2));
            }
        }
    }
}

/// Removal of a key from a uniquely keyed sequence leaves a uniquely keyed
/// sequence that carries the key nowhere, loses at most one entry, and keeps
/// only entries of `s`.
proof fn lemma_remove_key_shape(s: Seq<(String, AnalysisResponse)>, k: Seq<char>)
    requires
        unique_keys(s),
    ensures
        unique_keys(remove_key(s, k)),
        forall|i: int|
            0 <= i < remove_key(s, k).len() ==> #[trigger] remove_key(s, k)[i].0@ != k,
        remove_key(s, k).len() >= s.len() - 1,
        remove_key(s, k).len() <= s.len(),
    decreases s.len(),
{
    let r = remove_key(s, k);
    if s.len() > 0 {
        if s[0].0@ == k {
            assert(forall|i: int| 0 <= i < r.len() ==> r[i] == s[i + 1]);
        } else {
            assert(unique_keys(s.drop_first()));
            lemma_remove_key_shape(s.drop_first(), k);
            let rr = remove_key(s.drop_first(), k);
            assert(forall|i: int| 0 <= i < rr.len() ==> #[trigger] rr[i].0@ != k);
            assert(r[0] == s[0]);
            assert(forall|i: int| 1 <= i < r.len() ==> r[i] == rr[i - 1]);
            // each kept entry is an entry of the tail, so the head's key
            // stays unique in front of them
            assert(forall|i: int|
                0 <= i < rr.len() ==> exists|j: int|
                    0 <= j < s.drop_first().len() && #[trigger] rr[i] == s.drop_first()[j]) by {
                lemma_remove_key_membership(s.drop_first(), k);
            }
            assert forall|i: int, j: int| 0 <= i < j < r.len() implies r[i].0@ != r[j].0@ by {
                if i == 0 {
                    let w = choose|w: int|
                        0 <= w < s.drop_first().len() && rr[j - 1] == s.drop_first()[w];
                    assert(s[0].0@ != s[w + 1].0@);
                }
            }
        }
    }
}

/// Every entry of the removal result is an entry of `s`.
proof fn lemma_remove_key_membership(s: Seq<(String, AnalysisResponse)>, k: Seq<char>)
    ensures
        forall|i: int|
            0 <= i < remove_key(s, k).len() ==> exists|j: int|
                0 <= j < s.len() && #[trigger] remove_key(s, k)[i] == s[j],
    decreases s.len(),
{
    let r = remove_key(s, k);
    if s.len() > 0 {
        if s[0].0@ == k {
            assert forall|i: int| 0 <= i < r.len() implies exists|j: int|
                0 <= j < s.len() && #[trigger] r[i] == s[j] by {
                assert(r[i] == s[i + 1]);
            }
        } else {
            lemma_remove_key_membership(s.drop_first(), k);
            let rr = remove_key(s.drop_first(), k);
            assert forall|i: int| 0 <= i < r.len() implies exists|j: int|
                0 <= j < s.len() && #[trigger] r[i] == s[j] by {
                if i == 0 {
                    assert(r[0] == s[0]);
                } else {
                    let w = choose|w: int|
                        0 <= w < s.drop_first().len() && rr[i - 1] == s.drop_first()[w];
                    assert(r[i] == s[w + 1]);
                }
            }
        }
    }
}

/// A hit inside a prefix is the same hit in the full sequence.
proof fn lemma_lookup_take(s: Seq<(String, AnalysisResponse)>, k: Seq<char>, m: int)
    requires
        0 <= m <= s.len(),
    ensures
        spec_lookup(s.take(m), k) is Some ==> spec_lookup(s, k) == spec_lookup(s.take(m), k),
    decreases s.len(),
{
    if m > 0 && s.len() > 0 {
        if s[0].0@ != k {
            assert(s.take(m).drop_first() =~= s.drop_first().take(m - 1));
            lemma_lookup_take(s.drop_first(), k, m - 1);
        }
    }
}

/// A bounded, recency-ordered map from request key to analysis result.
pub struct LruCache {
    pub entries: Vec<(String, AnalysisResponse)>,
    pub capacity: usize,
}

impl LruCache {
    /// The stored entries, most recent first.
    pub open spec fn entries_view(&self) -> Seq<(String, AnalysisResponse)> {
        self.entries@
    }

    /// The fixed entry bound.
    pub open spec fn spec_capacity(&self) -> int {
        self.capacity as int
    }

    /// Structural invariant: a positive bound that the entry count never
    /// exceeds, and no key stored twice.
    pub open spec fn wf(&self) -> bool {
        &&& self.capacity >= 1
        &&& self.entries@.len() <= self.capacity
        &&& unique_keys(self.entries@)
    }

    /// The value stored under `k`, if any.
    pub open spec fn spec_get(&self, k: Seq<char>) -> Option<AnalysisResponseV> {
        spec_lookup(self.entries@, k)
    }

    pub fn new(capacity: usize) -> (c: LruCache)
        requires
            capacity >= 1,
        ensures
            c.wf(),
            c.spec_capacity() == capacity,
            c.entries_view() == Seq::<(String, AnalysisResponse)>::empty(),
    {
        let c = LruCache { entries: Vec::new(), capacity };
        proof {
            assert(c.entries@ =~= Seq::<(String, AnalysisResponse)>::empty());
        }
        c
    }

    pub fn len(&self) -> (n: usize)
        ensures
            n == self.entries_view().len(),
    {
        self.entries.len()
    }

    /// Position of the entry keyed like `key`, if one is stored.
    fn find(&self, key: &String) -> (r: Option<usize>)
        ensures
            match r {
                Some(i) => {
                    &&& i < self.entries@.len()
                    &&& self.entries@[i as int].0@ == key@
                    &&& forall|j: int| 0 <= j < i ==> self.entries@[j].0@ != key@
                },
                None => forall|j: int| 0 <= j < self.entries@.len() ==> self.entries@[j].0@ != key@,
            },
    {
        let n = self.entries.len();
        let mut i: usize = 0;
        while i < n
            invariant
                n == self.entries@.len(),
                i <= n,
                forall|j: int| 0 <= j < i ==> self.entries@[j].0@ != key@,
            decreases n - i,
        {
            if self.entries[i].0 == *key {
                return Some(i);
            }
            i += 1;
        }
        None
    }

    /// Looks up `key`. A hit hands back a copy of the stored result and
    /// promotes the entry to most recent; what any key maps to is unchanged.
    pub fn get(&mut self, key: &String) -> (r: Option<AnalysisResponse>)
        requires
            old(self).wf(),
        ensures
            final(self).wf(),
            final(self).spec_capacity() == old(self).spec_capacity(),
            match spec_lookup(old(self).entries_view(), key@) {
                Some(w) => r matches Some(v) && v@ == w,
                None => r is None && final(self).entries_view() == old(self).entries_view(),
            },
            forall|k2: Seq<char>|
                #[trigger] spec_lookup(final(self).entries_view(), k2) == spec_lookup(
                    old(self).entries_view(),
                    k2,
                ),
    {
        let ghost s0 = self.entries@;
        match self.find(key) {
            None => {
                proof {
                    lemma_lookup_absent(s0, key@);
                }
                None
            },
            Some(i) => {
                proof {
                    lemma_lookup_at(s0, key@, i as int);
                    lemma_remove_key_at(s0, key@, i as int);
                    lemma_remove_key_shape(s0, key@);
                }
                let entry = self.entries.remove(i);
                let result = clone_response(&entry.1);
                self.entries.insert(0, entry);
                proof {
                    let s1 = self.entries@;
                    assert(s1 =~= seq![s0[i as int]] + remove_key(s0, key@));
                    assert(s1.drop_first() =~= remove_key(s0, key@));
                    assert forall|k2: Seq<char>|
                        #[trigger] spec_lookup(s1, k2) == spec_lookup(s0, k2) by {
                        if k2 == key@ {
                            assert(spec_lookup(s1, k2) == Some(s1[0].1@));
                        } else {
                            lemma_lookup_after_remove(s0, key@, k2);
                            assert(spec_lookup(s1, k2) == spec_lookup(s1.drop_first(), k2));
                        }
                    }
                    assert forall|a: int, b: int| 0 <= a < b < s1.len() implies s1[a].0@
                        != s1[b].0@ by {
                        if a > 0 {
                            assert(s1[a] == remove_key(s0, key@)[a - 1]);
                            assert(s1[b] == remove_key(s0, key@)[b - 1]);
                        } else {
                            assert(s1[b] == remove_key(s0, key@)[b - 1]);
                            assert(remove_key(s0, key@)[b - 1].0@ != key@);
                        }
                    }
                }
                Some(result)
            },
        }
    }

    /// Stores `value` under `key`: any old entry for the key leaves, the new
    /// entry becomes most recent, and the least recent entry is evicted when
    /// the cache is full.
    pub fn put(&mut self, key: String, value: AnalysisResponse)
        requires
            old(self).wf(),
        ensures
            final(self).wf(),
            final(self).spec_capacity() == old(self).spec_capacity(),
            final(self).entries_view() == spec_put(
                old(self).entries_view(),
                old(self).spec_capacity(),
                key,
                value,
            ),
            spec_lookup(final(self).entries_view(), key@) == Some(value@),
            forall|k2: Seq<char>|
                k2 != key@ && #[trigger] spec_lookup(final(self).entries_view(), k2) is Some
                    ==> spec_lookup(final(self).entries_view(), k2) == spec_lookup(
                    old(self).entries_view(),
                    k2,
                ),
    {
        let ghost s0 = self.entries@;
        let ghost cap = self.capacity as int;
        proof {
            lemma_remove_key_shape(s0, key@);
        }
        match self.find(&key) {
            Some(i) => {
                proof {
                    lemma_remove_key_at(s0, key@, i as int);
                }
                let _removed = self.entries.remove(i);
            },
            None => {
                proof {
                    lemma_remove_key_absent(s0, key@);
                }
            },
        }
        proof {
            assert(self.entries@ =~= remove_key(s0, key@));
        }
        if self.entries.len() == self.capacity {
            self.entries.pop();
            proof {
                assert(self.entries@ =~= remove_key(s0, key@).take(cap - 1));
            }
        }
        let ghost kept = self.entries@;
        self.entries.insert(0, (key, value));
        proof {
            let s1 = self.entries@;
            assert(s1 =~= seq![(key, value)] + kept);
            let rest = remove_key(s0, key@);
            if rest.len() < cap {
                assert(kept == rest);
            } else {
                assert(kept =~= rest.take(cap - 1));
            }
            assert(s1 =~= spec_put(s0, cap, key, value));
            assert(spec_lookup(s1, key@) == Some(value@));
            // uniqueness: the fresh key heads the list and the kept tail is a
            // prefix-selection of the removal result, which lacks the key
            assert forall|a: int, b: int| 0 <= a < b < s1.len() implies s1[a].0@ != s1[b].0@ by {
                if a > 0 {
                    assert(s1[a] == kept[a - 1] && s1[b] == kept[b - 1]);
                    assert(kept[a - 1] == rest[a - 1] && kept[b - 1] == rest[b - 1]);
                } else {
                    assert(s1[b] == kept[b - 1]);
                    assert(kept[b - 1] == rest[b - 1]);
                    assert(rest[b - 1].0@ != key@);
                }
            }
            // a surviving entry for any other key still holds its old value
            assert forall|k2: Seq<char>|
                k2 != key@ && #[trigger] spec_lookup(s1, k2) is Some implies spec_lookup(s1, k2)
                == spec_lookup(s0, k2) by {
                assert(s1.drop_first() =~= kept);
                assert(spec_lookup(s1, k2) == spec_lookup(kept, k2));
                lemma_lookup_after_remove(s0, key@, k2);
                if rest.len() < cap {
                    assert(kept == rest);
                } else {
                    assert(kept =~= rest.take(cap - 1));
                    lemma_lookup_take(rest, k2, cap - 1);
                }
            }
        }
    }
}

} // verus!
