//! The probe cadence: a whole number of seconds kept within `[1, 60]`.

use vstd::prelude::*;

verus! {

pub const MIN_INTERVAL: u64 = 1;

pub const MAX_INTERVAL: u64 = 60;

pub const DEFAULT_INTERVAL: u64 = 1;

/// `v` brought into `[MIN_INTERVAL, MAX_INTERVAL]`.
pub open spec fn clamp_interval(v: int) -> int {
    if v < MIN_INTERVAL {
        MIN_INTERVAL as int
    } else if v > MAX_INTERVAL {
        MAX_INTERVAL as int
    } else {
        v
    }
}

/// The cadence after each value of `updates` was set, in order, starting
/// from `start`.
pub open spec fn interval_after(start: int, updates: Seq<int>) -> int
    decreases updates.len(),
{
    if updates.len() == 0 {
        start
    } else {
        interval_after(clamp_interval(updates[0]), updates.drop_first())
    }
}

/// The current cadence, read before each scheduling decision and replaced by
/// control updates (last write wins).
pub struct IntervalControl {
    value: u64,
}

impl View for IntervalControl {
    type V = int;

    closed spec fn view(&self) -> int {
        self.value as int
    }
}

impl IntervalControl {
    pub closed spec fn wf(&self) -> bool {
        MIN_INTERVAL <= self.value <= MAX_INTERVAL
    }

    /// A control at the default cadence.
    pub fn new() -> (r: IntervalControl)
        ensures
            r.wf(),
            r@ == DEFAULT_INTERVAL,
    {
        IntervalControl { value: DEFAULT_INTERVAL }
    }

    pub fn get(&self) -> (r: u64)
        requires
            self.wf(),
        ensures
            r == self@,
            MIN_INTERVAL <= r <= MAX_INTERVAL,
    {
        self.value
    }

    /// Replaces the cadence; values out of range are clamped, never rejected.
    pub fn set(&mut self, new_value: i64)
        ensures
            final(self).wf(),
            final(self)@ == clamp_interval(new_value as int),
    {
        if new_value < MIN_INTERVAL as i64 {
            self.value = MIN_INTERVAL;
        } else if new_value > MAX_INTERVAL as i64 {
            self.value = MAX_INTERVAL;
        } else {
            self.value = new_value as u64;
        }
    }
}

impl Default for IntervalControl {
    fn default() -> (r: IntervalControl)
        ensures
            r.wf(),
            r@ == DEFAULT_INTERVAL,
    {
        IntervalControl::new()
    }
}

/// After any non-empty sequence of updates, the cadence read is the most
/// recently set value, clamped into `[MIN_INTERVAL, MAX_INTERVAL]`, and it
/// always lies in that range.
pub proof fn lemma_last_set_wins(start: int, updates: Seq<int>)
    requires
        updates.len() > 0,
    ensures
        interval_after(start, updates) == clamp_interval(updates.last()),
        MIN_INTERVAL <= interval_after(start, updates) <= MAX_INTERVAL,
    decreases updates.len(),
{
    let rest = updates.drop_first();
    if updates.len() > 1 {
        lemma_last_set_wins(clamp_interval(updates[0]), rest);
        assert(rest.last() == updates.last());
    } else {
        assert(interval_after(clamp_interval(updates[0]), rest) == clamp_interval(updates[0]));
    }
}

} // verus!
