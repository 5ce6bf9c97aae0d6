//! The benchmark driver's warm-up-then-measure protocol.
//!
//! A run makes `2 × n_rounds` identical round trips. The first half
//! primes the transport's ramp-up behaviour and is discarded; only the
//! samples of rounds with index at or past `n_rounds` reach the
//! histogram sink. The driver also decides when a progress notification
//! is due, guarding the percentage step against a zero period on short
//! runs.

use vstd::prelude::*;
use crate::histogram::{hist_sample_count, Histogram};

verus! {

/// The samples that must have reached the histogram sink once `samples`
/// rounds have finished: those of the rounds past the `warmup` first
/// ones, in round order.
pub open spec fn measured(samples: Seq<u64>, warmup: int) -> Seq<u64> {
    if samples.len() <= warmup {
        Seq::empty()
    } else {
        samples.skip(warmup)
    }
}

/// One benchmark run: counts finished rounds and feeds each measured
/// round's latency sample to the histogram sink.
pub struct Driver {
    pub n_rounds: usize,
    pub rounds_done: usize,
    pub period: usize,
    pub recorded: usize,
    pub hist: Histogram,
    pub samples: Ghost<Seq<u64>>,
}

impl Driver {
    /// Rounds a full run makes: twice the measured ones.
    pub open spec fn total_rounds(self) -> int {
        2 * self.n_rounds
    }

    /// The run never exceeds its round budget, the progress period is
    /// one hundredth of the full run, one sample was seen per finished
    /// round, and the sink has received exactly the samples of the
    /// rounds past the warm-up half, in round order.
    pub open spec fn wf(self) -> bool {
        &&& 1 <= self.n_rounds
        &&& self.n_rounds <= usize::MAX / 2
        &&& self.rounds_done <= self.total_rounds()
        &&& self.period == self.total_rounds() / 100
        &&& self.samples@.len() == self.rounds_done
        &&& self.recorded == measured(self.samples@, self.n_rounds as int).len()
        &&& self.hist.wf()
        &&& self.hist.history@ == measured(self.samples@, self.n_rounds as int)
    }

    /// A fresh run over `n_rounds` measured rounds: nothing done,
    /// nothing recorded.
    pub fn new(n_rounds: usize) -> (d: Driver)
        requires
            1 <= n_rounds,
            n_rounds <= usize::MAX / 2,
        ensures
            d.wf(),
            d.n_rounds == n_rounds,
            d.rounds_done == 0,
            d.samples@ == Seq::<u64>::empty(),
            d.hist.history@ == Seq::<u64>::empty(),
    {
        let total: usize = 2 * n_rounds;
        let d = Driver {
            n_rounds,
            rounds_done: 0,
            period: total / 100,
            recorded: 0,
            hist: Histogram::new(),
            samples: Ghost(Seq::empty()),
        };
        proof {
            assert(measured(d.samples@, n_rounds as int) == Seq::<u64>::empty());
        }
        d
    }

    /// Whether every round of the full run has finished.
    pub fn is_done(&self) -> (r: bool)
        requires
            self.wf(),
        ensures
            r == (self.rounds_done == self.total_rounds()),
    {
        self.rounds_done == 2 * self.n_rounds
    }

    /// One finished round: its latency sample reaches the histogram
    /// exactly when the round's index is at or past the warm-up half.
    pub fn record_round(&mut self, sample_ns: u64)
        requires
            old(self).wf(),
            old(self).rounds_done < old(self).total_rounds(),
        ensures
            final(self).wf(),
            final(self).n_rounds == old(self).n_rounds,
            final(self).period == old(self).period,
            final(self).rounds_done == old(self).rounds_done + 1,
            final(self).samples@ == old(self).samples@.push(sample_ns),
            final(self).hist.history@ == if old(self).rounds_done >= old(self).n_rounds {
                old(self).hist.history@.push(sample_ns)
            } else {
                old(self).hist.history@
            },
    {
        let ghost old_samples = self.samples@;
        let ghost warmup = self.n_rounds as int;
        if self.rounds_done >= self.n_rounds {
            self.hist.record(sample_ns);
            self.recorded = self.recorded + 1;
        }
        self.rounds_done = self.rounds_done + 1;
        self.samples = Ghost(self.samples@.push(sample_ns));
        proof {
            if old_samples.len() >= warmup {
                assert(old_samples.push(sample_ns).skip(warmup) =~= measured(
                    old_samples,
                    warmup,
                ).push(sample_ns));
            } else {
                assert(measured(old_samples.push(sample_ns), warmup) == Seq::<u64>::empty());
            }
        }
    }

    /// The progress notification due before the round with index
    /// `rounds_done` starts, as a count of percentage steps, or `None`
    /// when none is due. On a run too short for a single percentage
    /// step the period is zero and no notification is ever due: the
    /// guard against dividing by it.
    pub fn progress_percent(&self) -> (r: Option<usize>)
        ensures
            self.period == 0 ==> r is None,
            self.period > 0 ==> match r {
                Some(p) => self.rounds_done % self.period == 0 && p == self.rounds_done
                    / self.period,
                None => self.rounds_done % self.period != 0,
            },
    {
        if self.period == 0 {
            None
        } else if self.rounds_done % self.period == 0 {
            Some(self.rounds_done / self.period)
        } else {
            None
        }
    }

    /// Hands the filled sink over, for the summary to be rendered.
    pub fn into_histogram(self) -> (h: hdrhist::HDRHist)
        ensures
            hist_sample_count(h) == hist_sample_count(self.hist.inner),
    {
        self.hist.inner
    }
}

/// Warm-up discard: after a full run of `2 × n_rounds` rounds, exactly
/// the `n_rounds` samples of the rounds with index `n_rounds` to
/// `2 × n_rounds - 1` have reached the histogram sink, in round order,
/// and the sink has recorded exactly that many.
pub proof fn lemma_warmup_discard(d: Driver)
    requires
        d.wf(),
        d.rounds_done == d.total_rounds(),
    ensures
        d.hist.history@ == d.samples@.skip(d.n_rounds as int),
        d.hist.history@.len() == d.n_rounds,
        d.recorded == d.n_rounds,
        hist_sample_count(d.hist.inner) == d.n_rounds,
{
    assert(d.samples@.len() == 2 * d.n_rounds);
    assert(measured(d.samples@, d.n_rounds as int) == d.samples@.skip(d.n_rounds as int));
    assert(d.samples@.skip(d.n_rounds as int).len() == d.n_rounds);
}

} // verus!
