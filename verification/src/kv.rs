//! A sorted association list with `u64` keys.
//!
//! The worksheet's sparse stores (cells, row options, column options,
//! hyperlinks, filters) keep their entries in a vector sorted by key,
//! so lookups are exact and emission walks the entries in key order
//! without any further sorting.

use vstd::prelude::*;

verus! {

/// An association list sorted by strictly increasing key.
#[derive(Debug)]
pub struct KvVec<V> {
    /// The `(key, value)` entries, sorted by strictly increasing key.
    pub entries: Vec<(u64, V)>,
}

/// The value at `k` in an entry sequence, scanning from the back.
pub open spec fn seq_get<V>(s: Seq<(u64, V)>, k: u64) -> Option<V>
    decreases s.len(),
{
    if s.len() == 0 {
        None
    } else if s.last().0 == k {
        Some(s.last().1)
    } else {
        seq_get(s.drop_last(), k)
    }
}

/// Whether the keys of an entry sequence are strictly increasing.
pub open spec fn seq_sorted<V>(s: Seq<(u64, V)>) -> bool {
    forall|i: int, j: int| 0 <= i < j < s.len() ==> s[i].0 < s[j].0
}

/// In a sorted sequence, the entry at any index is what lookup finds
/// for its key.
pub proof fn lemma_seq_get_at<V>(s: Seq<(u64, V)>, i: int)
    requires
        seq_sorted(s),
        0 <= i < s.len(),
    ensures
        seq_get(s, s[i].0) == Some(s[i].1),
    decreases s.len(),
{
    if i == s.len() - 1 {
    } else {
        assert(s[i].0 < s.last().0);
        assert(s.drop_last()[i] == s[i]);
        lemma_seq_get_at(s.drop_last(), i);
    }
}

/// A key absent from every entry has no value.
pub proof fn lemma_seq_get_absent<V>(s: Seq<(u64, V)>, k: u64)
    requires
        forall|i: int| 0 <= i < s.len() ==> (#[trigger] s[i].0) != k,
    ensures
        seq_get(s, k) is None,
    decreases s.len(),
{
    if s.len() > 0 {
        assert(s.drop_last() =~= s.subrange(0, s.len() - 1));
        lemma_seq_get_absent(s.drop_last(), k);
    }
}

impl<V> KvVec<V> {
    /// Well-formed: the keys are strictly increasing.
    pub open spec fn wf(&self) -> bool {
        seq_sorted(self.entries@)
    }

    /// The entry sequence.
    pub open spec fn view_entries(&self) -> Seq<(u64, V)> {
        self.entries@
    }

    /// The value at `k`, if any.
    pub open spec fn spec_get(&self, k: u64) -> Option<V> {
        seq_get(self.entries@, k)
    }

    /// An empty list.
    pub fn new() -> (r: KvVec<V>)
        ensures
            r.wf(),
            r.view_entries() == Seq::<(u64, V)>::empty(),
            forall|k: u64| r.spec_get(k) is None,
    {
        let r = KvVec { entries: Vec::new() };
        proof {
            assert(r.entries@ =~= Seq::<(u64, V)>::empty());
        }
        r
    }

    /// The number of entries.
    pub fn len(&self) -> (n: usize)
        ensures
            n == self.view_entries().len(),
    {
        self.entries.len()
    }

    /// A shared reference to the value at `k`, if any.
    pub fn get(&self, k: u64) -> (r: Option<&V>)
        requires
            self.wf(),
        ensures
            r is Some <==> self.spec_get(k) is Some,
            r is Some ==> self.spec_get(k) == Some(*r->0),
    {
        let n = self.entries.len();
        let mut i: usize = 0;
        while i < n
            invariant
                i <= n,
                n == self.entries@.len(),
                self.wf(),
                forall|j: int| 0 <= j < i ==> (#[trigger] self.entries@[j].0) != k,
            decreases n - i,
        {
            if self.entries[i].0 == k {
                proof {
                    lemma_seq_get_at(self.entries@, i as int);
                }
                return Some(&self.entries[i].1);
            }
            i = i + 1;
        }
        proof {
            lemma_seq_get_absent(self.entries@, k);
        }
        None
    }

    /// Insert `v` at `k`, replacing any previous value. Every other
    /// key keeps its value, and the list stays sorted.
    pub fn insert(&mut self, k: u64, v: V)
        requires
            old(self).wf(),
        ensures
            final(self).wf(),
            final(self).spec_get(k) == Some(v),
            forall|k2: u64| k2 != k ==> final(self).spec_get(k2) == old(self).spec_get(k2),
            old(self).spec_get(k) is Some ==> final(self).view_entries().len() == old(
                self,
            ).view_entries().len(),
            old(self).spec_get(k) is None ==> final(self).view_entries().len() == old(
                self,
            ).view_entries().len() + 1,
    {
        let n = self.entries.len();
        let mut i: usize = 0;
        while i < n && self.entries[i].0 < k
            invariant
                i <= n,
                n == self.entries@.len(),
                self.wf(),
                self == old(self),
                forall|j: int| 0 <= j < i ==> (#[trigger] self.entries@[j].0) < k,
            decreases n - i,
        {
            i = i + 1;
        }
        if i < n && self.entries[i].0 == k {
            let ghost olds = self.entries@;
            self.entries.set(i, (k, v));
            proof {
                let news = self.entries@;
                assert(news =~= olds.update(i as int, (k, v)));
                assert(seq_sorted(news)) by {
                    assert(forall|a: int, b: int|
                        0 <= a < b < news.len() ==> news[a].0 == (if a == i {
                            k
                        } else {
                            olds[a].0
                        }) && news[b].0 == (if b == i {
                            k
                        } else {
                            olds[b].0
                        }));
                    assert(olds[i as int].0 == k);
                }
                lemma_seq_get_at(news, i as int);
                assert forall|k2: u64| k2 != k implies seq_get(news, k2) == seq_get(
                    olds,
                    k2,
                ) by {
                    lemma_seq_get_update(olds, i as int, (k, v), k2);
                }
                lemma_seq_get_at(olds, i as int);
            }
        } else {
            let ghost olds = self.entries@;
            self.entries.insert(i, (k, v));
            proof {
                let news = self.entries@;
                assert(news =~= olds.subrange(0, i as int).push((k, v)) + olds.subrange(
                    i as int,
                    olds.len() as int,
                ));
                assert(forall|j: int| i <= j < olds.len() ==> (#[trigger] olds[j].0) > k) by {
                    assert(forall|j: int|
                        i <= j < olds.len() ==> (#[trigger] olds[j].0) >= olds[i as int].0
                            || j == i);
                }
                assert(seq_sorted(news)) by {
                    assert(forall|a: int|
                        0 <= a < news.len() ==> news[a] == (if a < i {
                            olds[a]
                        } else if a == i {
                            (k, v)
                        } else {
                            olds[a - 1]
                        }));
                }
                lemma_seq_get_at(news, i as int);
                assert forall|k2: u64| k2 != k implies seq_get(news, k2) == seq_get(
                    olds,
                    k2,
                ) by {
                    lemma_seq_get_insert(olds, i as int, (k, v), k2);
                }
                if seq_get(olds, k) is Some {
                    let w = lemma_seq_get_witness(olds, k);
                    assert(olds[w].0 == k);
                    assert(false);
                }
            }
        }
    }
}

/// Updating index `i` does not change lookups of other keys, given
/// sorted (hence distinct) keys.
proof fn lemma_seq_get_update<V>(s: Seq<(u64, V)>, i: int, e: (u64, V), k2: u64)
    requires
        seq_sorted(s),
        0 <= i < s.len(),
        s[i].0 == e.0,
        k2 != e.0,
    ensures
        seq_get(s.update(i, e), k2) == seq_get(s, k2),
    decreases s.len(),
{
    let t = s.update(i, e);
    if s.len() > 0 {
        if i == s.len() - 1 {
            assert(t.drop_last() =~= s.drop_last());
        } else {
            assert(t.drop_last() =~= s.drop_last().update(i, e));
            assert(s.drop_last()[i] == s[i]);
            lemma_seq_get_update(s.drop_last(), i, e, k2);
        }
    }
}

/// Inserting at index `i` does not change lookups of other keys.
proof fn lemma_seq_get_insert<V>(s: Seq<(u64, V)>, i: int, e: (u64, V), k2: u64)
    requires
        0 <= i <= s.len(),
        k2 != e.0,
    ensures
        seq_get(s.subrange(0, i).push(e) + s.subrange(i, s.len() as int), k2) == seq_get(s, k2),
    decreases s.len() - i,
{
    let t = s.subrange(0, i).push(e) + s.subrange(i, s.len() as int);
    if i == s.len() {
        assert(t.last() == e);
        assert(t.drop_last() =~= s);
    } else {
        assert(t.last() == s.last());
        assert(t.drop_last() =~= s.drop_last().subrange(0, i).push(e) + s.drop_last().subrange(
            i,
            s.len() - 1,
        )) by {
            assert(s.drop_last().subrange(0, i) =~= s.subrange(0, i));
        }
        lemma_seq_get_insert(s.drop_last(), i, e, k2);
        if s.last().0 == k2 {
        } else {
        }
    }
}

/// A present key has a witness index.
pub proof fn lemma_seq_get_witness<V>(s: Seq<(u64, V)>, k: u64) -> (w: int)
    requires
        seq_get(s, k) is Some,
    ensures
        0 <= w < s.len(),
        s[w].0 == k,
        s[w].1 == seq_get(s, k)->0,
    decreases s.len(),
{
    if s.last().0 == k {
        s.len() - 1
    } else {
        let w = lemma_seq_get_witness(s.drop_last(), k);
        assert(s.drop_last()[w] == s[w]);
        w
    }
}

impl<V> KvVec<V> {
    /// Remove and return the value at `k`, if any. Every other key
    /// keeps its value.
    pub fn remove(&mut self, k: u64) -> (r: Option<V>)
        requires
            old(self).wf(),
        ensures
            final(self).wf(),
            final(self).spec_get(k) is None,
            r == old(self).spec_get(k),
            forall|k2: u64| k2 != k ==> final(self).spec_get(k2) == old(self).spec_get(k2),
            old(self).spec_get(k) is Some ==> final(self).view_entries().len() == old(
                self,
            ).view_entries().len() - 1,
            old(self).spec_get(k) is None ==> *final(self) == *old(self),
    {
        let n = self.entries.len();
        let mut i: usize = 0;
        while i < n && self.entries[i].0 < k
            invariant
                i <= n,
                n == self.entries@.len(),
                self.wf(),
                self == old(self),
                forall|j: int| 0 <= j < i ==> (#[trigger] self.entries@[j].0) < k,
            decreases n - i,
        {
            i = i + 1;
        }
        if i < n && self.entries[i].0 == k {
            let ghost olds = self.entries@;
            let e = self.entries.remove(i);
            proof {
                let news = self.entries@;
                assert(news =~= olds.subrange(0, i as int) + olds.subrange(
                    i + 1,
                    olds.len() as int,
                ));
                assert(seq_sorted(news)) by {
                    assert(forall|a: int|
                        0 <= a < news.len() ==> news[a] == (if a < i {
                            olds[a]
                        } else {
                            olds[a + 1]
                        }));
                }
                assert(forall|j: int| 0 <= j < news.len() ==> (#[trigger] news[j].0) != k) by {
                    assert(forall|j: int|
                        0 <= j < news.len() ==> news[j] == (if j < i {
                            olds[j]
                        } else {
                            olds[j + 1]
                        }));
                }
                lemma_seq_get_absent(news, k);
                lemma_seq_get_at(olds, i as int);
                assert forall|k2: u64| k2 != k implies seq_get(news, k2) == seq_get(
                    olds,
                    k2,
                ) by {
                    lemma_seq_get_remove(olds, i as int, k2);
                }
            }
            Some(e.1)
        } else {
            proof {
                if i < n {
                    assert(forall|j: int|
                        i <= j < self.entries@.len() ==> (#[trigger] self.entries@[j].0)
                            >= self.entries@[i as int].0);
                }
                assert(forall|j: int|
                    0 <= j < self.entries@.len() ==> (#[trigger] self.entries@[j].0) != k);
                lemma_seq_get_absent(self.entries@, k);
            }
            None
        }
    }
}

/// Removing index `i` does not change lookups of other keys.
proof fn lemma_seq_get_remove<V>(s: Seq<(u64, V)>, i: int, k2: u64)
    requires
        0 <= i < s.len(),
        k2 != s[i].0,
    ensures
        seq_get(s.subrange(0, i) + s.subrange(i + 1, s.len() as int), k2) == seq_get(s, k2),
    decreases s.len() - i,
{
    let t = s.subrange(0, i) + s.subrange(i + 1, s.len() as int);
    if i == s.len() - 1 {
        assert(t =~= s.drop_last());
    } else {
        assert(t.last() == s.last());
        assert(t.drop_last() =~= s.drop_last().subrange(0, i) + s.drop_last().subrange(
            i + 1,
            s.len() - 1,
        )) by {
            assert(s.drop_last().subrange(0, i) =~= s.subrange(0, i));
        }
        assert(s.drop_last()[i] == s[i]);
        lemma_seq_get_remove(s.drop_last(), i, k2);
    }
}


/// When an update at one key preserves every other key's value, a
/// per-entry predicate that held before, and holds of the new value,
/// holds of every entry afterwards.
pub proof fn lemma_pred_after_update<V>(
    pre: KvVec<V>,
    post: KvVec<V>,
    k: u64,
    pred: spec_fn(u64, V) -> bool,
)
    requires
        pre.wf(),
        post.wf(),
        forall|i: int|
            0 <= i < pre.entries@.len() ==> #[trigger] pred(
                pre.entries@[i].0,
                pre.entries@[i].1,
            ),
        seq_get(post.entries@, k) matches Some(v) ==> pred(k, v),
        forall|k2: u64| k2 != k ==> #[trigger] post.spec_get(k2) == pre.spec_get(k2),
    ensures
        forall|i: int|
            0 <= i < post.entries@.len() ==> #[trigger] pred(
                post.entries@[i].0,
                post.entries@[i].1,
            ),
{
    assert forall|i: int| 0 <= i < post.entries@.len() implies #[trigger] pred(
        post.entries@[i].0,
        post.entries@[i].1,
    ) by {
        lemma_seq_get_at(post.entries@, i);
        let ki = post.entries@[i].0;
        if ki != k {
            assert(post.spec_get(ki) == pre.spec_get(ki));
            assert(seq_get(pre.entries@, ki) == Some(post.entries@[i].1));
            let w = lemma_seq_get_witness(pre.entries@, ki);
        }
    }
}

} // verus!
