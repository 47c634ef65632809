//! Latency and jitter sampling.
//!
//! The sampler issues a fixed count of small probes against the measurement
//! endpoint, paced by a fixed inter-probe delay; failed probes are skipped
//! and contribute no sample. The reported latency is the upper median of the
//! successful round-trip times; jitter is the mean of the absolute
//! differences between adjacent elements of the magnitude-sorted sample list,
//! kept here as an exact ratio of integers.

use vstd::prelude::*;
use crate::sorting::ascending_of;
use crate::sorting::is_ascending;
use crate::sorting::into_ascending;
use crate::sorting::lemma_ascending_of;
use crate::sorting::lemma_ascending_unique;
use crate::sorting::upper_median_of;

verus! {

/// How many probes one sampling pass issues, successful or not.
pub const PROBE_COUNT: u64 = 20;

/// Payload size of each probe in bytes: small, so that the round trip is
/// dominated by response availability, not body transfer.
pub const PROBE_PAYLOAD_BYTES: u64 = 1000;

/// Pause inserted after every probe, regardless of its outcome.
pub const INTER_PROBE_DELAY_MS: u64 = 50;

/// The absolute difference between two round-trip times.
pub open spec fn abs_diff(a: u64, b: u64) -> int {
    if a <= b {
        b - a
    } else {
        a - b
    }
}

/// Sum of the absolute differences between each pair of adjacent elements.
pub open spec fn adjacent_diff_sum(s: Seq<u64>) -> int
    decreases s.len(),
{
    if s.len() < 2 {
        0
    } else {
        abs_diff(s[0], s[1]) + adjacent_diff_sum(s.drop_first())
    }
}

/// Appending an element adds exactly one adjacent difference.
pub proof fn lemma_adjacent_diff_sum_push(s: Seq<u64>, x: u64)
    ensures
        adjacent_diff_sum(s.push(x)) == if s.len() == 0 {
            0int
        } else {
            adjacent_diff_sum(s) + abs_diff(s.last(), x)
        },
    decreases s.len(),
{
    if s.len() == 0 {
        assert(s.push(x).len() == 1);
    } else {
        assert(s.push(x).drop_first() =~= s.drop_first().push(x));
        lemma_adjacent_diff_sum_push(s.drop_first(), x);
    }
}

/// Jitter as an exact ratio: the mean of the adjacent differences is
/// `sum_ms / intervals`. A single-sample set has jitter zero by definition.
#[derive(Clone, Copy, Debug, PartialEq, Eq, Structural)]
pub struct Jitter {
    pub sum_ms: u64,
    pub intervals: u64,
}

/// The jitter of a non-empty round-trip-time sample set.
pub open spec fn jitter_of(rtts: Seq<u64>) -> Jitter
    recommends
        rtts.len() >= 1,
{
    if rtts.len() == 1 {
        Jitter { sum_ms: 0, intervals: 1 }
    } else {
        Jitter {
            sum_ms: adjacent_diff_sum(ascending_of(rtts)) as u64,
            intervals: (rtts.len() - 1) as u64,
        }
    }
}

/// A single successful probe: the reported latency is that sample and the
/// jitter is zero.
pub proof fn lemma_single_rtt_sample(s: Seq<u64>)
    requires
        s.len() == 1,
    ensures
        upper_median_of(s) == s[0],
        jitter_of(s) == (Jitter { sum_ms: 0, intervals: 1 }),
{
    lemma_ascending_unique(s, s);
}

/// One latency-sampling pass: a fixed number of probes, each either skipped
/// (failed) or contributing its round-trip time in milliseconds.
pub struct LatencyRun {
    pub probes_done: u64,
    pub rtts: Vec<u64>,
}

impl LatencyRun {
    /// Every probe issued so far contributed at most one sample.
    pub open spec fn wf(self) -> bool {
        &&& self.probes_done <= PROBE_COUNT
        &&& self.rtts@.len() <= self.probes_done
    }

    /// All probes have been issued.
    pub open spec fn done(self) -> bool {
        self.probes_done == PROBE_COUNT
    }

    pub fn new() -> (r: Self)
        ensures
            r.wf(),
            r.probes_done == 0,
            r.rtts@ == Seq::<u64>::empty(),
    {
        LatencyRun { probes_done: 0, rtts: Vec::new() }
    }

    /// The payload size of the next probe to issue, or `None` once the fixed
    /// probe count is exhausted.
    pub fn next_probe(&self) -> (r: Option<u64>)
        ensures
            self.done() ==> r is None,
            !self.done() ==> r == Some(PROBE_PAYLOAD_BYTES),
    {
        if self.probes_done == PROBE_COUNT {
            None
        } else {
            Some(PROBE_PAYLOAD_BYTES)
        }
    }

    /// Records the outcome of one probe. A successful probe contributes its
    /// round-trip time; a failed probe contributes nothing and is not
    /// counted as loss.
    pub fn record(&mut self, success: bool, rtt_ms: u64)
        requires
            old(self).wf(),
            !old(self).done(),
        ensures
            final(self).wf(),
            final(self).probes_done == old(self).probes_done + 1,
            success ==> final(self).rtts@ == old(self).rtts@.push(rtt_ms),
            !success ==> final(self).rtts@ == old(self).rtts@,
    {
        if success {
            self.rtts.push(rtt_ms);
        }
        self.probes_done = self.probes_done + 1;
    }

    /// Reduces the collected round-trip times to the reported latency (their
    /// upper median) and jitter. Both are absent exactly when no probe
    /// succeeded.
    pub fn finish(self) -> (r: Option<(u64, Jitter)>)
        ensures
            (r is Some) <==> self.rtts@.len() > 0,
            self.rtts@.len() > 0 ==> r == Some(
                (upper_median_of(self.rtts@), jitter_of(self.rtts@)),
            ),
    {
        let ghost orig = self.rtts@;
        if self.rtts.len() == 0 {
            return None;
        }
        let n = self.rtts.len();
        let sorted = into_ascending(self.rtts);
        let median = sorted[n / 2];
        if n == 1 {
            proof {
                lemma_single_rtt_sample(orig);
            }
            return Some((median, Jitter { sum_ms: 0, intervals: 1 }));
        }
        proof {
            lemma_ascending_of(orig);
        }
        let mut sum: u64 = 0;
        let mut i: usize = 1;
        while i < n
            invariant
                1 <= i <= n,
                n == sorted@.len(),
                n >= 2,
                is_ascending(sorted@),
                sum == adjacent_diff_sum(sorted@.take(i as int)),
                sum == sorted@[i - 1] - sorted@[0],
            decreases n - i,
        {
            proof {
                assert(sorted@.take(i + 1 as int) =~= sorted@.take(i as int).push(
                    sorted@[i as int],
                ));
                lemma_adjacent_diff_sum_push(sorted@.take(i as int), sorted@[i as int]);
                assert(sorted@.take(i as int).last() == sorted@[i - 1]);
            }
            sum = sum + (sorted[i] - sorted[i - 1]);
            i = i + 1;
        }
        proof {
            assert(sorted@.take(n as int) =~= sorted@);
        }
        Some((median, Jitter { sum_ms: sum, intervals: (n - 1) as u64 }))
    }
}

} // verus!
