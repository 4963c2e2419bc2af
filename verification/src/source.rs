//! Item sources and the composed slice run.
//!
//! `SliceSource` is the indexable item source: a cursor into a borrowed
//! slice, handing out contiguous, non-overlapping sub-slices in order.
//! `SliceRun` composes it with a `Scheduler` into the full per-tick step of a
//! run over a slice, and carries the proof that the dispatched batches
//! concatenate to exactly the source.

use vstd::prelude::*;

use crate::rate::admissible_of;
use crate::rate::advanced_credits;
use crate::rate::CREDIT_UNIT;
use crate::sched::Scheduler;

verus! {

/// A cursor into a fixed, borrowed slice, yielding its elements as views in
/// order, exactly once.
pub struct SliceSource<'a, T> {
    /// The whole source.
    pub items: &'a [T],
    /// Index of the first element not yet handed out.
    pub next_index: usize,
}

impl<'a, T> SliceSource<'a, T> {
    /// The cursor never runs past the end.
    pub open spec fn wf(&self) -> bool {
        self.next_index <= self.items@.len()
    }

    /// A fresh cursor at the start of `items`.
    pub fn new(items: &'a [T]) -> (s: Self)
        ensures
            s.wf(),
            s.items@ == items@,
            s.next_index == 0,
    {
        SliceSource { items, next_index: 0 }
    }

    /// Hands out the next `min(n, remaining)` elements as a view and
    /// advances the cursor; the flag reports whether the source is now
    /// exhausted.
    pub fn take(&mut self, n: usize) -> (r: (&'a [T], bool))
        requires
            old(self).wf(),
            n >= 1,
        ensures
            final(self).wf(),
            final(self).items@ == old(self).items@,
            final(self).next_index == if old(self).next_index + n <= old(self).items@.len() {
                old(self).next_index + n
            } else {
                old(self).items@.len() as int
            },
            r.0@ == old(self).items@.subrange(
                old(self).next_index as int,
                final(self).next_index as int,
            ),
            r.1 == (final(self).next_index == final(self).items@.len()),
    {
        let len = self.items.len();
        let start = self.next_index;
        let end = if n <= len - start {
            start + n
        } else {
            len
        };
        self.next_index = end;
        let batch = vstd::slice::slice_subrange(self.items, start, end);
        (batch, end == len)
    }
}

/// A run over a slice: the scheduler plus the slice cursor, stepped together
/// each tick. The ghost field `batches` records every batch dispatched so
/// far; its flattening always equals the prefix of the source consumed so
/// far, which is what makes the completeness law provable.
pub struct SliceRun<'a, T> {
    /// The item source.
    pub source: SliceSource<'a, T>,
    /// The scheduling state.
    pub sched: Scheduler,
    /// Every batch dispatched so far, in dispatch order.
    pub batches: Ghost<Seq<Seq<T>>>,
}

impl<'a, T> SliceRun<'a, T> {
    /// Well-formedness of a run: both components are well formed, the
    /// batches dispatched so far tile the consumed prefix of the source,
    /// every dispatched batch is non-empty, the credit accounting agrees
    /// with the cursor, and a finished run has consumed the whole source.
    pub open spec fn wf(&self) -> bool {
        &&& self.source.wf()
        &&& self.sched.wf()
        &&& self.batches@.flatten() == self.source.items@.subrange(
            0,
            self.source.next_index as int,
        )
        &&& forall|i: int| 0 <= i < self.batches@.len() ==> #[trigger] self.batches@[i].len() > 0
        &&& self.sched.acc.admitted@ == self.source.next_index
        &&& self.sched.finished ==> self.source.next_index == self.source.items@.len()
    }

    /// Starts a run over `items` with a fresh scheduler.
    pub fn new(items: &'a [T], sched: Scheduler) -> (r: Self)
        requires
            sched.wf(),
            !sched.finished,
            sched.acc.admitted@ == 0,
        ensures
            r.wf(),
            r.source.items@ == items@,
            r.source.next_index == 0,
            r.sched == sched,
            r.batches@ =~= Seq::<Seq<T>>::empty(),
    {
        let r = SliceRun {
            source: SliceSource::new(items),
            sched,
            batches: Ghost(Seq::empty()),
        };
        proof {
            assert(r.batches@.flatten() =~= items@.subrange(0, 0));
        }
        r
    }

    /// The number of whole items that would be admissible this tick, once
    /// the elapsed time has been credited.
    pub open spec fn tick_admissible(&self, elapsed_nanos: u64) -> usize {
        admissible_of(advanced_credits(
            self.sched.acc.credits,
            self.sched.acc.rate,
            elapsed_nanos,
        ))
    }

    /// One tick of a slice run: credit the elapsed time, and — when a worker
    /// is spare and at least one whole item of credit is held — draw the
    /// admissible batch from the source and hand it back for dispatch.
    /// `None` means nothing is to be dispatched this tick: the pool was
    /// saturated, less than one whole item of credit was held, or the source
    /// had nothing left. A batch is returned exactly when admission is owed,
    /// and is never empty.
    pub fn tick(&mut self, elapsed_nanos: u64, active_workers: usize) -> (r: Option<&'a [T]>)
        requires
            old(self).wf(),
            !old(self).sched.finished,
        ensures
            final(self).wf(),
            final(self).source.items@ == old(self).source.items@,
            final(self).sched.capacity == old(self).sched.capacity,
            final(self).sched.acc.rate == old(self).sched.acc.rate,
            final(self).sched.acc.elapsed@ == old(self).sched.acc.elapsed@ + elapsed_nanos,
            (r is Some) <==> (active_workers < old(self).sched.capacity
                && old(self).tick_admissible(elapsed_nanos) > 0
                && old(self).source.next_index < old(self).source.items@.len()),
            match r {
                Some(batch) => {
                    &&& batch@.len() > 0
                    &&& final(self).source.next_index == if old(self).source.next_index
                        + old(self).tick_admissible(elapsed_nanos)
                        <= old(self).source.items@.len() {
                        old(self).source.next_index + old(self).tick_admissible(elapsed_nanos)
                    } else {
                        old(self).source.items@.len() as int
                    }
                    &&& batch@ == old(self).source.items@.subrange(
                        old(self).source.next_index as int,
                        final(self).source.next_index as int,
                    )
                    &&& final(self).batches@ == old(self).batches@.push(batch@)
                },
                None => {
                    &&& final(self).source.next_index == old(self).source.next_index
                    &&& final(self).batches@ == old(self).batches@
                },
            },
            final(self).sched.acc.credits == advanced_credits(
                old(self).sched.acc.credits,
                old(self).sched.acc.rate,
                elapsed_nanos,
            ) - (final(self).source.next_index - old(self).source.next_index) * CREDIT_UNIT,
            final(self).sched.finished == (active_workers < old(self).sched.capacity
                && old(self).tick_admissible(elapsed_nanos) > 0
                && final(self).source.next_index == old(self).source.items@.len()),
    {
        let n = self.sched.tick(elapsed_nanos, active_workers);
        if n > 0 {
            let (batch, exhausted) = self.source.take(n);
            let k = batch.len();
            self.sched.record(k, exhausted);
            if k > 0 {
                proof {
                    let items = self.source.items@;
                    let lo = old(self).source.next_index as int;
                    let hi = self.source.next_index as int;
                    old(self).batches@.lemma_flatten_push(batch@);
                    assert(items.subrange(0, lo) + items.subrange(lo, hi)
                        =~= items.subrange(0, hi));
                }
                self.batches = Ghost(self.batches@.push(batch@));
                Some(batch)
            } else {
                None
            }
        } else {
            None
        }
    }

    /// Whether the run is over: the source was seen to run out.
    pub fn is_finished(&self) -> (b: bool)
        ensures
            b == self.sched.finished,
    {
        self.sched.is_finished()
    }
}

/// Completeness and order: once a run is finished, the batches dispatched
/// over its lifetime concatenate to exactly the source slice — every element
/// appears exactly once, in original order, none repeated and none omitted.
pub proof fn lemma_batches_cover_source<T>(run: &SliceRun<T>)
    requires
        run.wf(),
        run.sched.finished,
    ensures
        run.batches@.flatten() == run.source.items@,
{
    assert(run.source.items@.subrange(0, run.source.items@.len() as int)
        =~= run.source.items@);
}

} // verus!
