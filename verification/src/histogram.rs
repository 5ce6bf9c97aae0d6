//! The histogram sink and its trusted boundary.
//!
//! The benchmark driver hands each measured latency sample to an
//! `hdrhist::HDRHist`. The sink keeps samples at five bits of
//! precision, so the values themselves cannot be read back from it: the
//! only thing its state supports as a contract is how many samples it
//! has recorded, named by [`hist_sample_count`]. The [`Histogram`]
//! struct pairs the sink with the ghost history of the samples this run
//! has recorded into it, which carries the values.

use vstd::prelude::*;

verus! {

#[verifier::external_type_specification]
#[verifier::external_body]
pub struct ExHDRHist(hdrhist::HDRHist);

/// How many latency samples a histogram has recorded so far: the sum of
/// its per-bucket counters.
pub uninterp spec fn hist_sample_count(h: hdrhist::HDRHist) -> nat;

/// Relies on hdrhist::HDRHist::new: a fresh histogram's counters are
/// all zero, so it holds no samples.
#[verifier::external_body]
pub(crate) fn hist_new() -> (h: hdrhist::HDRHist)
    ensures
        hist_sample_count(h) == 0,
{
    hdrhist::HDRHist::new()
}

/// Relies on hdrhist::HDRHist::add_value: one call increments exactly
/// one bucket counter by one, so the sample count grows by one. The
/// counter increment would overflow at `u64::MAX` samples, so that many
/// must not have been recorded.
#[verifier::external_body]
pub(crate) fn hist_record(h: &mut hdrhist::HDRHist, sample_ns: u64)
    requires
        hist_sample_count(*old(h)) < u64::MAX,
    ensures
        hist_sample_count(*final(h)) == hist_sample_count(*old(h)) + 1,
{
    h.add_value(sample_ns)
}

/// The histogram sink together with the history of the samples recorded
/// into it during this run.
pub struct Histogram {
    pub inner: hdrhist::HDRHist,
    pub history: Ghost<Seq<u64>>,
}

impl Histogram {
    /// The sink has recorded exactly as many samples as the history
    /// holds: one call per history entry.
    pub open spec fn wf(self) -> bool {
        hist_sample_count(self.inner) == self.history@.len()
    }

    /// A fresh, empty sink.
    pub fn new() -> (h: Histogram)
        ensures
            h.wf(),
            h.history@ == Seq::<u64>::empty(),
    {
        Histogram { inner: hist_new(), history: Ghost(Seq::empty()) }
    }

    /// Record one sample into the sink.
    pub fn record(&mut self, sample_ns: u64)
        requires
            old(self).wf(),
            old(self).history@.len() < u64::MAX,
        ensures
            final(self).wf(),
            final(self).history@ == old(self).history@.push(sample_ns),
    {
        hist_record(&mut self.inner, sample_ns);
        self.history = Ghost(self.history@.push(sample_ns));
    }
}

} // verus!
