//! A fixed-capacity, time-ordered history of scalar samples.

use vstd::prelude::*;

verus! {

/// One observation: when it was taken and its value.
#[derive(Clone, Copy, Debug, PartialEq, Eq, Structural)]
pub struct Sample {
    pub timestamp: u64,
    pub value: u64,
}

/// The last `c` items of `s` in their original order (all of `s` if it is shorter).
pub open spec fn most_recent<T>(s: Seq<T>, c: nat) -> Seq<T> {
    if s.len() <= c {
        s
    } else {
        s.subrange(s.len() - c, s.len() as int)
    }
}

/// What a window of capacity `c` holds after `pushes` were pushed, in order,
/// onto a window that held `start`.
pub open spec fn window_after<T>(start: Seq<T>, pushes: Seq<T>, c: nat) -> Seq<T>
    decreases pushes.len(),
{
    if pushes.len() == 0 {
        start
    } else {
        most_recent(window_after(start, pushes.drop_last(), c).push(pushes.last()), c)
    }
}

/// A bounded series: at most `capacity` samples, oldest first, with an advisory
/// value range `[min, max]` for whoever renders it.
pub struct BoundedSeries {
    capacity: usize,
    min: u64,
    max: u64,
    samples: Vec<Sample>,
}

impl View for BoundedSeries {
    type V = Seq<Sample>;

    closed spec fn view(&self) -> Seq<Sample> {
        self.samples@
    }
}

impl BoundedSeries {
    pub closed spec fn spec_capacity(&self) -> nat {
        self.capacity as nat
    }

    pub closed spec fn spec_min(&self) -> u64 {
        self.min
    }

    pub closed spec fn spec_max(&self) -> u64 {
        self.max
    }

    /// The series holds no more than its capacity, which is positive, and its
    /// range is not empty.
    pub closed spec fn wf(&self) -> bool {
        &&& self.capacity > 0
        &&& self.min <= self.max
        &&& self.samples@.len() <= self.capacity
    }

    /// An empty series of the given capacity and range.
    pub fn new(capacity: usize, min: u64, max: u64) -> (r: BoundedSeries)
        requires
            capacity > 0,
            min <= max,
        ensures
            r.wf(),
            r@ == Seq::<Sample>::empty(),
            r.spec_capacity() == capacity,
            r.spec_min() == min,
            r.spec_max() == max,
    {
        BoundedSeries { capacity, min, max, samples: Vec::new() }
    }

    pub fn capacity(&self) -> (r: usize)
        ensures
            r == self.spec_capacity(),
    {
        self.capacity
    }

    pub fn min(&self) -> (r: u64)
        ensures
            r == self.spec_min(),
    {
        self.min
    }

    pub fn max(&self) -> (r: u64)
        ensures
            r == self.spec_max(),
    {
        self.max
    }

    pub fn len(&self) -> (r: usize)
        ensures
            r == self@.len(),
    {
        self.samples.len()
    }

    /// Appends a sample taken at `timestamp`; when the series is full the
    /// oldest sample is evicted first. Values outside the range are kept.
    pub fn push(&mut self, timestamp: u64, value: u64)
        requires
            old(self).wf(),
        ensures
            final(self).wf(),
            final(self)@ == most_recent(
                old(self)@.push(Sample { timestamp, value }),
                old(self).spec_capacity(),
            ),
            final(self).spec_capacity() == old(self).spec_capacity(),
            final(self).spec_min() == old(self).spec_min(),
            final(self).spec_max() == old(self).spec_max(),
    {
        let ghost pushed = self.samples@.push(Sample { timestamp, value });
        if self.samples.len() == self.capacity {
            self.samples.remove(0);
        }
        self.samples.push(Sample { timestamp, value });
        assert(self.samples@ =~= most_recent(pushed, self.capacity as nat));
    }

    /// The current contents, oldest first.
    pub fn snapshot(&self) -> (r: Vec<Sample>)
        ensures
            r@ == self@,
    {
        self.samples.clone()
    }
}

/// Pushing onto a window of the most recent `c` items of a history gives the
/// most recent `c` items of the longer history.
pub proof fn lemma_most_recent_push<T>(hist: Seq<T>, x: T, c: nat)
    requires
        c > 0,
    ensures
        most_recent(most_recent(hist, c).push(x), c) == most_recent(hist.push(x), c),
{
    assert(most_recent(most_recent(hist, c).push(x), c) =~= most_recent(hist.push(x), c));
}

/// For every sequence of pushes onto an empty series of capacity `c`, the
/// series never holds more than `c` samples, and it holds exactly the most
/// recent `c` pushes in their original order.
pub proof fn lemma_pushes_keep_most_recent<T>(pushes: Seq<T>, c: nat)
    requires
        c > 0,
    ensures
        window_after(Seq::<T>::empty(), pushes, c).len() <= c,
        window_after(Seq::<T>::empty(), pushes, c) == most_recent(pushes, c),
    decreases pushes.len(),
{
    if pushes.len() > 0 {
        let init = pushes.drop_last();
        lemma_pushes_keep_most_recent(init, c);
        lemma_most_recent_push(init, pushes.last(), c);
        assert(init.push(pushes.last()) =~= pushes);
    }
}

} // verus!
