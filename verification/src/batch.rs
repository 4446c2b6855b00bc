use vstd::prelude::*;

verus! {

/// What draw commands are grouped by: the z-index they are drawn at and the
/// material they are drawn with.
#[derive(Debug, Clone, Copy, Hash, PartialEq, Eq, Structural)]
pub struct BatchKey {
    pub z_index: i32,
    pub material: u32,
}

/// Draw data accumulated per [`BatchKey`]: everything drawn under one key
/// goes into one batch, in the order it was drawn; the batches keep the
/// order in which their keys were first drawn.
pub struct Batches<T> {
    keys: Vec<BatchKey>,
    items: Vec<Vec<T>>,
}

impl<T> Batches<T> {
    /// The keys that have a batch, in the order they were first drawn.
    pub closed spec fn keys(&self) -> Seq<BatchKey> {
        self.keys@
    }

    /// The data drawn under `k` so far, in order; empty where nothing was.
    pub closed spec fn batch(&self, k: BatchKey) -> Seq<T> {
        if self.keys@.contains(k) {
            self.items@[self.keys@.index_of(k)]@
        } else {
            Seq::empty()
        }
    }

    /// Each key has one batch.
    pub closed spec fn wf(&self) -> bool {
        &&& self.keys@.len() == self.items@.len()
        &&& self.keys@.no_duplicates()
    }

    /// `next` is this after drawing `data` under `key`: the key's batch grows
    /// by the data (a new key taking the last place), and every other batch
    /// stays as it was.
    pub open spec fn step(self, key: BatchKey, data: Seq<T>, next: Batches<T>) -> bool {
        &&& next.wf()
        &&& next.keys() == (if self.keys().contains(key) {
            self.keys()
        } else {
            self.keys().push(key)
        })
        &&& next.batch(key) == self.batch(key) + data
        &&& forall|k: BatchKey| k != key ==> #[trigger] next.batch(k) == self.batch(k)
    }

    /// No batches.
    pub fn new() -> (b: Self)
        ensures
            b.wf(),
            b.keys() == Seq::<BatchKey>::empty(),
            forall|k: BatchKey| #[trigger] b.batch(k) == Seq::<T>::empty(),
    {
        Batches { keys: Vec::new(), items: Vec::new() }
    }

    /// Append `data` to the batch of `key`, starting that batch if there is none.
    pub fn push(&mut self, key: BatchKey, data: Vec<T>)
        requires
            old(self).wf(),
        ensures
            old(self).step(key, data@, *final(self)),
    {
        let n = self.keys.len();
        let mut i: usize = 0;
        while i < n
            invariant
                n == self.keys@.len(),
                n == self.items@.len(),
                i <= n,
                self.keys@.no_duplicates(),
                self.keys@ == old(self).keys@,
                self.items@ == old(self).items@,
                forall|j: int| 0 <= j < i ==> self.keys@[j] != key,
            decreases n - i,
        {
            if self.keys[i] == key {
                let ghost before = self.items@;
                let mut data = data;
                let ghost added = data@;
                self.items[i].append(&mut data);
                proof {
                    lemma_index_of_unique(self.keys@, key, i as int);
                    assert(self.items@ == before.update(i as int, self.items@[i as int]));
                    assert(self.items@[i as int]@ == before[i as int]@ + added);
                    assert forall|k: BatchKey| k != key implies #[trigger] self.batch(k) == old(self).batch(k) by {
                        if self.keys@.contains(k) {
                            let j = choose|j: int| 0 <= j < self.keys@.len() && self.keys@[j] == k;
                            lemma_index_of_unique(self.keys@, k, j);
                        }
                    }
                }
                return;
            }
            i = i + 1;
        }
        let ghost old_keys = self.keys@;
        self.keys.push(key);
        self.items.push(data);
        proof {
            assert(!old_keys.contains(key));
            assert(self.keys@.no_duplicates()) by {
                assert forall|a: int, b: int| 0 <= a < self.keys@.len() && 0 <= b < self.keys@.len() && a != b
                    implies self.keys@[a] != self.keys@[b] by {
                    if a < n && b < n {
                        assert(old_keys[a] != old_keys[b]);
                    }
                }
            }
            lemma_index_of_unique(self.keys@, key, n as int);
            assert forall|k: BatchKey| k != key implies #[trigger] self.batch(k) == old(self).batch(k) by {
                if old_keys.contains(k) {
                    let j = choose|j: int| 0 <= j < old_keys.len() && old_keys[j] == k;
                    lemma_index_of_unique(old_keys, k, j);
                    lemma_index_of_unique(self.keys@, k, j);
                }
                if self.keys@.contains(k) {
                    let j = choose|j: int| 0 <= j < self.keys@.len() && self.keys@[j] == k;
                    assert(j < n);
                    assert(old_keys[j] == k);
                }
            }
        }
    }

    /// The batches, keys first-drawn first: the keys, and for each of them
    /// the data drawn under it.
    pub fn into_parts(self) -> (r: (Vec<BatchKey>, Vec<Vec<T>>))
        requires
            self.wf(),
        ensures
            r.0@ == self.keys(),
            r.1@.len() == r.0@.len(),
            forall|i: int| 0 <= i < r.0@.len() ==> #[trigger] r.1@[i]@ == self.batch(r.0@[i]),
    {
        proof {
            assert forall|i: int| 0 <= i < self.keys@.len() implies #[trigger] self.items@[i]@ == self.batch(self.keys@[i]) by {
                lemma_index_of_unique(self.keys@, self.keys@[i], i);
            }
        }
        (self.keys, self.items)
    }
}

/// Everything drawn under `k` in `draws`, in draw order.
pub open spec fn collected<T>(draws: Seq<(BatchKey, Seq<T>)>, k: BatchKey) -> Seq<T>
    decreases draws.len(),
{
    if draws.len() == 0 {
        Seq::empty()
    } else {
        let last = draws.last();
        collected(draws.drop_last(), k) + (if last.0 == k { last.1 } else { Seq::empty() })
    }
}

/// Drawing a sequence of data, starting from no batches: each key has exactly
/// one batch, which holds everything drawn under it, in draw order,
/// whatever else is drawn in between.
pub proof fn lemma_batches_collect_draws<T>(
    states: Seq<Batches<T>>,
    draws: Seq<(BatchKey, Seq<T>)>,
    k: BatchKey,
)
    requires
        states.len() == draws.len() + 1,
        states[0].wf(),
        states[0].keys() == Seq::<BatchKey>::empty(),
        forall|i: int| 0 <= i < draws.len() ==> #[trigger] states[i].step(draws[i].0, draws[i].1, states[i + 1]),
    ensures
        states.last().wf(),
        states.last().keys().no_duplicates(),
        states.last().batch(k) == collected(draws, k),
        states.last().keys().contains(k) <==> exists|i: int| 0 <= i < draws.len() && #[trigger] draws[i].0 == k,
    decreases draws.len(),
{
    if draws.len() == 0 {
        assert(!states[0].keys@.contains(k));
    } else {
        let n = draws.len() - 1;
        let front = states.drop_last();
        let earlier = draws.drop_last();
        assert forall|i: int| 0 <= i < earlier.len() implies #[trigger] front[i].step(earlier[i].0, earlier[i].1, front[i + 1]) by {
            assert(states[i].step(draws[i].0, draws[i].1, states[i + 1]));
        }
        lemma_batches_collect_draws(front, earlier, k);
        assert(front.last() == states[n]);
        assert(states[n].step(draws[n].0, draws[n].1, states[n + 1]));
        let key = draws[n].0;
        let before = states[n];
        let after = states[n + 1];
        assert(after == states.last());
        assert(draws.last() == draws[n]);
        if after.keys().contains(k) {
            if k == key {
                assert(draws[n].0 == k);
            } else {
                if !before.keys().contains(key) {
                    let j = choose|j: int| 0 <= j < after.keys().len() && after.keys()[j] == k;
                    assert(j < before.keys().len());
                    assert(before.keys()[j] == k);
                }
                assert(before.keys().contains(k));
                let i = choose|i: int| 0 <= i < earlier.len() && #[trigger] earlier[i].0 == k;
                assert(draws[i].0 == k);
            }
        }
        if exists|i: int| 0 <= i < draws.len() && #[trigger] draws[i].0 == k {
            let i = choose|i: int| 0 <= i < draws.len() && #[trigger] draws[i].0 == k;
            if i < n {
                assert(earlier[i].0 == k);
                assert(before.keys().contains(k));
                let j = choose|j: int| 0 <= j < before.keys().len() && before.keys()[j] == k;
                if !before.keys().contains(key) {
                    assert(after.keys()[j] == k);
                }
            } else {
                if !before.keys().contains(key) {
                    assert(after.keys()[before.keys().len() as int] == key);
                }
            }
            assert(after.keys().contains(k));
        }
    }
}

/// In a sequence without duplicates, the index of an element is the one place it occurs.
proof fn lemma_index_of_unique(s: Seq<BatchKey>, k: BatchKey, i: int)
    requires
        s.no_duplicates(),
        0 <= i < s.len(),
        s[i] == k,
    ensures
        s.contains(k),
        s.index_of(k) == i,
{
    assert(s.contains(k));
    let j = s.index_of(k);
    assert(0 <= j < s.len() && s[j] == k);
}

} // verus!
