//! The periodic sampler: one background task samples on a fixed cadence, and
//! arbitrarily many readers fetch the last fully published value.
//!
//! The sampler here is the tick state machine alone; the caller owns the task
//! that drives it, performs the OS reads of each tick, and hands their
//! results in.  Each tick holds two slots: the published snapshot
//! (`last_result`, externally visible) and the pending measurement (`data`,
//! sampler-private).  On a tick, a pending measurement begun on the previous
//! tick is finalized and published, and a new pending measurement is seeded;
//! the very first tick only seeds, so a read before the second tick yields no
//! value.  A failed OS read publishes nothing: the previous snapshot stays,
//! stale but valid.

use vstd::prelude::*;

verus! {

/// The default sampling cadence, in milliseconds.
pub const DEFAULT_INTERVAL_MS: u64 = 5000;

/// A sampler that publishes a fresh `T` on a fixed cadence, keeping a pending
/// measurement of type `D` between ticks.
pub struct IntervalCollector<T, D> {
    /// Milliseconds slept between the end of one tick and the start of the
    /// next.
    pub interval: u64,
    /// The published snapshot: the last sample that a tick fully finalized,
    /// absent until the second tick completes.
    pub last_result: Option<T>,
    /// The pending measurement begun on the previous tick, absent before the
    /// first tick.
    pub data: Option<D>,
}

impl<T, D> IntervalCollector<T, D> {
    /// A fresh sampler: default cadence, nothing published, nothing pending.
    pub open spec fn spec_new() -> Self {
        IntervalCollector { interval: DEFAULT_INTERVAL_MS, last_result: None, data: None }
    }

    /// What a tick publishes: the finalized sample when one measurement was
    /// pending and its finalization succeeded, the old snapshot otherwise.
    pub open spec fn tick_published(self, finalized: Option<T>) -> Option<T> {
        if self.data is Some && finalized is Some {
            finalized
        } else {
            self.last_result
        }
    }

    /// The whole state after a tick that finalized the pending measurement to
    /// `finalized` (`None` for a failed OS read) and seeded `next` as the new
    /// pending measurement (`None` for a failed start).
    pub open spec fn tick_spec(self, finalized: Option<T>, next: Option<D>) -> Self {
        IntervalCollector {
            interval: self.interval,
            last_result: self.tick_published(finalized),
            data: next,
        }
    }

    /// An unstarted sampler with the default cadence.
    pub fn new() -> (r: Self)
        ensures
            r == Self::spec_new(),
    {
        IntervalCollector { interval: DEFAULT_INTERVAL_MS, last_result: None, data: None }
    }

    /// Sets the sampling cadence, in milliseconds.
    pub fn interval(&mut self, interval: u64)
        ensures
            final(self).interval == interval,
            final(self).last_result == old(self).last_result,
            final(self).data == old(self).data,
    {
        self.interval = interval;
    }

    /// Seeds the pending measurement directly.
    pub fn data(&mut self, data: D)
        ensures
            final(self).data == Some(data),
            final(self).interval == old(self).interval,
            final(self).last_result == old(self).last_result,
    {
        self.data = Some(data);
    }

    /// Borrows the pending measurement, for the driving task to finalize.
    pub fn pending(&self) -> (r: Option<&D>)
        ensures
            match r {
                Some(d) => self.data == Some(*d),
                None => self.data is None,
            },
    {
        self.data.as_ref()
    }

    /// Runs one tick: publishes `finalized` if a measurement was pending and
    /// its finalization succeeded, then seeds `next` as the new pending
    /// measurement.
    pub fn collect(&mut self, finalized: Option<T>, next: Option<D>)
        ensures
            *final(self) == old(self).tick_spec(finalized, next),
    {
        if self.data.is_some() && finalized.is_some() {
            self.last_result = finalized;
        }
        self.data = next;
    }

    /// Reads the published snapshot without touching the pending measurement.
    pub fn read(&self) -> (r: &Option<T>)
        ensures
            *r == self.last_result,
    {
        &self.last_result
    }
}

/// A read never yields a structurally incomplete value: after any tick the
/// published snapshot is either the value published before the tick or the
/// tick's fully finalized sample, whole either way.
pub proof fn lemma_snapshot_whole<T, D>(
    s: IntervalCollector<T, D>,
    finalized: Option<T>,
    next: Option<D>,
)
    ensures
        s.tick_spec(finalized, next).last_result == s.last_result || s.tick_spec(
            finalized,
            next,
        ).last_result == finalized,
{
}

/// From a fresh sampler, the first tick only seeds the pending measurement —
/// a read still yields no value — and the second tick publishes its finalized
/// sample.
pub proof fn lemma_two_tick_warmup<T, D>(
    s0: IntervalCollector<T, D>,
    f1: Option<T>,
    d1: D,
    f2: Option<T>,
    d2: Option<D>,
)
    requires
        s0.last_result is None,
        s0.data is None,
        f2 is Some,
    ensures
        s0.tick_spec(f1, Some(d1)).last_result is None,
        s0.tick_spec(f1, Some(d1)).tick_spec(f2, d2).last_result == f2,
{
}

/// A tick whose OS read failed publishes nothing: the previous snapshot is
/// retained unchanged, stale but valid.
pub proof fn lemma_failed_tick_retains<T, D>(s: IntervalCollector<T, D>, next: Option<D>)
    ensures
        s.tick_spec(None, next).last_result == s.last_result,
{
}

} // verus!
