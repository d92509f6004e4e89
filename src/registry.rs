//! Series created lazily, on the first observation of their key, and kept
//! for the life of the registry.

use vstd::prelude::*;
use crate::series::{BoundedSeries, Sample, most_recent};

verus! {

/// The handle of `k` among `keys`: the position of its first occurrence, or
/// -1 where it does not occur.
pub open spec fn handle_of(keys: Seq<Seq<char>>, k: Seq<char>) -> int
    decreases keys.len(),
{
    if keys.len() == 0 {
        -1
    } else {
        let h = handle_of(keys.drop_last(), k);
        if h >= 0 {
            h
        } else if keys.last() == k {
            keys.len() - 1
        } else {
            -1
        }
    }
}

/// The keys after one call of `get_or_create` with `k`.
pub open spec fn registered(keys: Seq<Seq<char>>, k: Seq<char>) -> Seq<Seq<char>> {
    if handle_of(keys, k) >= 0 {
        keys
    } else {
        keys.push(k)
    }
}

/// The keys after calls of `get_or_create` with each of `ks`, in order.
pub open spec fn registered_all(keys: Seq<Seq<char>>, ks: Seq<Seq<char>>) -> Seq<Seq<char>>
    decreases ks.len(),
{
    if ks.len() == 0 {
        keys
    } else {
        registered(registered_all(keys, ks.drop_last()), ks.last())
    }
}

/// What `handle_of` finds: the first position that holds `k`, or -1 exactly
/// where no position does.
pub proof fn lemma_handle_of(keys: Seq<Seq<char>>, k: Seq<char>)
    ensures
        handle_of(keys, k) < keys.len(),
        handle_of(keys, k) == -1 <==> (forall|i: int| 0 <= i < keys.len() ==> keys[i] != k),
        handle_of(keys, k) >= 0 ==> keys[handle_of(keys, k)] == k && forall|j: int|
            0 <= j < handle_of(keys, k) ==> keys[j] != k,
        handle_of(keys, k) >= -1,
    decreases keys.len(),
{
    if keys.len() > 0 {
        let init = keys.drop_last();
        lemma_handle_of(init, k);
        assert forall|i: int| 0 <= i < init.len() implies init[i] == keys[i] by {}
    }
}

/// Once `k` has a handle, registering any key leaves that handle as it was.
pub proof fn lemma_registered_keeps_handle(keys: Seq<Seq<char>>, k: Seq<char>, x: Seq<char>)
    requires
        handle_of(keys, k) >= 0,
    ensures
        handle_of(registered(keys, x), k) == handle_of(keys, k),
{
    if handle_of(keys, x) < 0 {
        assert(keys.push(x).drop_last() =~= keys);
    }
}

/// Registering any keys leaves a handle that already exists as it was.
pub proof fn lemma_registered_all_keeps_handle(
    keys: Seq<Seq<char>>,
    k: Seq<char>,
    ks: Seq<Seq<char>>,
)
    requires
        handle_of(keys, k) >= 0,
    ensures
        handle_of(registered_all(keys, ks), k) == handle_of(keys, k),
    decreases ks.len(),
{
    if ks.len() > 0 {
        lemma_registered_all_keeps_handle(keys, k, ks.drop_last());
        lemma_registered_keeps_handle(registered_all(keys, ks.drop_last()), k, ks.last());
    }
}

/// Every call of `get_or_create` with the same key, whatever calls with other
/// keys came in between, returns the handle that the first call returned.
pub proof fn lemma_handle_stable(keys: Seq<Seq<char>>, k: Seq<char>, later: Seq<Seq<char>>)
    ensures
        handle_of(registered(keys, k), k) >= 0,
        handle_of(registered(registered_all(registered(keys, k), later), k), k) == handle_of(
            registered(keys, k),
            k,
        ),
{
    let first = registered(keys, k);
    if handle_of(keys, k) < 0 {
        assert(keys.push(k).drop_last() =~= keys);
    }
    lemma_registered_all_keeps_handle(first, k, later);
    lemma_registered_keeps_handle(registered_all(first, later), k, k);
}

/// A registry of bounded series by key, each created on first use.
pub struct SeriesRegistry {
    keys: Vec<String>,
    series: Vec<BoundedSeries>,
}

impl SeriesRegistry {
    /// The keys in the order in which they were first seen.
    pub closed spec fn spec_keys(&self) -> Seq<Seq<char>> {
        self.keys@.map_values(|s: String| s@)
    }

    /// The series behind handle `h`.
    pub closed spec fn spec_series(&self, h: int) -> BoundedSeries {
        self.series@[h]
    }

    /// One series per key, keys distinct, every series well formed.
    pub closed spec fn wf(&self) -> bool {
        &&& self.keys@.len() == self.series@.len()
        &&& forall|i: int, j: int|
            0 <= i < self.keys@.len() && 0 <= j < self.keys@.len() && i != j ==> self.keys@[i]@
                != self.keys@[j]@
        &&& forall|i: int| 0 <= i < self.series@.len() ==> (#[trigger] self.series@[i]).wf()
    }

    /// An empty registry.
    pub fn new() -> (r: SeriesRegistry)
        ensures
            r.wf(),
            r.spec_keys() == Seq::<Seq<char>>::empty(),
    {
        SeriesRegistry { keys: Vec::new(), series: Vec::new() }
    }

    pub fn len(&self) -> (r: usize)
        requires
            self.wf(),
        ensures
            r == self.spec_keys().len(),
    {
        self.keys.len()
    }

    /// The handle of `key`: the existing one, or that of a new empty series
    /// of the given capacity and range, which are ignored for a known key.
    pub fn get_or_create(&mut self, key: &String, capacity: usize, min: u64, max: u64) -> (h: usize)
        requires
            old(self).wf(),
            capacity > 0,
            min <= max,
        ensures
            final(self).wf(),
            final(self).spec_keys() == registered(old(self).spec_keys(), key@),
            h as int == handle_of(final(self).spec_keys(), key@),
            h < final(self).spec_keys().len(),
            handle_of(old(self).spec_keys(), key@) >= 0 ==> *final(self) == *old(self),
            handle_of(old(self).spec_keys(), key@) < 0 ==> {
                &&& h == old(self).spec_keys().len()
                &&& forall|i: int|
                    0 <= i < h ==> final(self).spec_series(i) == old(self).spec_series(i)
                &&& final(self).spec_series(h as int)@ == Seq::<Sample>::empty()
                &&& final(self).spec_series(h as int).spec_capacity() == capacity
                &&& final(self).spec_series(h as int).spec_min() == min
                &&& final(self).spec_series(h as int).spec_max() == max
            },
    {
        proof {
            lemma_handle_of(self.spec_keys(), key@);
        }
        let n = self.keys.len();
        let mut i: usize = 0;
        while i < n
            invariant
                self.wf(),
                n == self.keys@.len(),
                i <= n,
                forall|j: int| 0 <= j < i ==> self.spec_keys()[j] != key@,
            decreases n - i,
        {
            if self.keys[i] == *key {
                proof {
                    let ks = self.spec_keys();
                    assert(ks[i as int] == key@);
                    lemma_handle_of(ks, key@);
                    let hh = handle_of(ks, key@);
                    assert(hh >= 0);
                    if hh < i {
                        assert(ks[hh] != key@);
                    }
                    assert(hh == i);
                    assert(registered(self.spec_keys(), key@) == self.spec_keys());
                }
                return i;
            }
            assert(self.spec_keys()[i as int] == self.keys@[i as int]@);
            i = i + 1;
        }
        let ghost old_keys = self.spec_keys();
        let ghost old_vec = self.keys@;
        assert forall|j: int| 0 <= j < old_vec.len() implies old_vec[j]@ != key@ by {
            assert(old_keys[j] == old_vec[j]@);
        }
        self.keys.push(key.clone());
        self.series.push(BoundedSeries::new(capacity, min, max));
        proof {
            assert(self.spec_keys() =~= old_keys.push(key@));
            assert(self.spec_keys().drop_last() =~= old_keys);
        }
        n
    }

    /// The series behind handle `h`.
    pub fn series(&self, h: usize) -> (r: &BoundedSeries)
        requires
            self.wf(),
            h < self.spec_keys().len(),
        ensures
            *r == self.spec_series(h as int),
            r.wf(),
    {
        &self.series[h]
    }

    /// Pushes a sample into the series behind handle `h`; no other series and
    /// no key changes.
    pub fn push(&mut self, h: usize, timestamp: u64, value: u64)
        requires
            old(self).wf(),
            h < old(self).spec_keys().len(),
        ensures
            final(self).wf(),
            final(self).spec_keys() == old(self).spec_keys(),
            final(self).spec_series(h as int)@ == most_recent(
                old(self).spec_series(h as int)@.push(Sample { timestamp, value }),
                old(self).spec_series(h as int).spec_capacity(),
            ),
            final(self).spec_series(h as int).spec_capacity() == old(self).spec_series(
                h as int,
            ).spec_capacity(),
            forall|i: int|
                0 <= i < old(self).spec_keys().len() && i != h ==> final(self).spec_series(i)
                    == old(self).spec_series(i),
    {
        self.series[h].push(timestamp, value);
    }
}

} // verus!
