//! Staged throughput measurement.
//!
//! A throughput pass walks an ordered plan of (payload size, repetition
//! count) stages, smallest payload first, issuing one transfer per
//! repetition, strictly sequentially. Each transfer's outcome either
//! contributes one speed sample or is silently discarded; the collected
//! sample set is then reduced to a single figure: the maximum for downloads,
//! the upper median for uploads. The unverified application shell performs
//! the HTTP transfers and feeds their outcomes back into the run.
//!
//! Speeds are integer bits per second; one megabit per second is 1_000_000.

use vstd::prelude::*;
use crate::latency::Jitter;
use crate::sorting::max_of_samples;
use crate::sorting::reduce_maximum;
use crate::sorting::reduce_upper_median;
use crate::sorting::upper_median_of;

verus! {

/// Host of the remote measurement endpoint.
pub const MEASUREMENT_HOST: &'static str = "https://speed.cloudflare.com";

/// Path prefix of a download or latency probe; the requested byte count is
/// appended.
pub const DOWNLOAD_PATH: &'static str = "/__down?bytes=";

/// Path of an upload probe.
pub const UPLOAD_PATH: &'static str = "/__up";

/// Per-request timeout in seconds of the shared client.
pub const REQUEST_TIMEOUT_SECS: u64 = 30;

/// Largest payload a stage may request: keeps `bytes * 8_000_000` within
/// `u64`, so a speed sample always fits the sample type.
pub const MAX_PAYLOAD_BYTES: u64 = u64::MAX / 8_000_000;

/// The speed, in bits per second, of transferring `bytes` bytes in
/// `elapsed_micros` microseconds: `bytes * 8 / seconds`, scaled to
/// microseconds, and zero when no time elapsed (guards division by zero).
pub open spec fn speed_bits_per_second(bytes: u64, elapsed_micros: u64) -> u64 {
    if elapsed_micros == 0 {
        0u64
    } else {
        ((bytes * 8_000_000) / (elapsed_micros as int)) as u64
    }
}

/// Computes the speed of one transfer in bits per second.
pub fn calculate_speed_bps(bytes: u64, elapsed_micros: u64) -> (r: u64)
    requires
        bytes <= MAX_PAYLOAD_BYTES,
    ensures
        r == speed_bits_per_second(bytes, elapsed_micros),
        elapsed_micros > 0 ==> r == (bytes * 8_000_000) / (elapsed_micros as int),
        elapsed_micros == 0 ==> r == 0,
{
    if elapsed_micros == 0 {
        0
    } else {
        (bytes * 8_000_000) / elapsed_micros
    }
}

/// One stage of a measurement plan: a payload size and how many sequential
/// transfers of that size to issue.
#[derive(Clone, Copy, Debug, PartialEq, Eq, Structural)]
pub struct StageSpec {
    pub payload_size_bytes: u64,
    pub repetition_count: u64,
}

/// A stage issues at least one transfer and its payload is small enough for
/// the speed computation to stay within the sample type.
pub open spec fn stage_wf(s: StageSpec) -> bool {
    &&& s.repetition_count >= 1
    &&& s.payload_size_bytes <= MAX_PAYLOAD_BYTES
}

pub open spec fn plan_wf(p: Seq<StageSpec>) -> bool {
    forall|i: int| 0 <= i < p.len() ==> stage_wf(#[trigger] p[i])
}

/// The download plan: five stages, smallest payload first, warming the
/// connection before approximating sustained throughput.
pub fn download_plan() -> (r: Vec<StageSpec>)
    ensures
        plan_wf(r@),
        r@.len() == 5,
        r@[0] == (StageSpec { payload_size_bytes: 101_000, repetition_count: 10 }),
        r@[1] == (StageSpec { payload_size_bytes: 1_001_000, repetition_count: 8 }),
        r@[2] == (StageSpec { payload_size_bytes: 10_001_000, repetition_count: 6 }),
        r@[3] == (StageSpec { payload_size_bytes: 25_001_000, repetition_count: 4 }),
        r@[4] == (StageSpec { payload_size_bytes: 100_001_000, repetition_count: 1 }),
{
    let mut r: Vec<StageSpec> = Vec::new();
    r.push(StageSpec { payload_size_bytes: 101_000, repetition_count: 10 });
    r.push(StageSpec { payload_size_bytes: 1_001_000, repetition_count: 8 });
    r.push(StageSpec { payload_size_bytes: 10_001_000, repetition_count: 6 });
    r.push(StageSpec { payload_size_bytes: 25_001_000, repetition_count: 4 });
    r.push(StageSpec { payload_size_bytes: 100_001_000, repetition_count: 1 });
    r
}

/// The upload plan: three stages, shorter and smaller than the download
/// plan, reflecting asymmetric link capacity.
pub fn upload_plan() -> (r: Vec<StageSpec>)
    ensures
        plan_wf(r@),
        r@.len() == 3,
        r@[0] == (StageSpec { payload_size_bytes: 101_000, repetition_count: 10 }),
        r@[1] == (StageSpec { payload_size_bytes: 1_001_000, repetition_count: 8 }),
        r@[2] == (StageSpec { payload_size_bytes: 10_001_000, repetition_count: 6 }),
{
    let mut r: Vec<StageSpec> = Vec::new();
    r.push(StageSpec { payload_size_bytes: 101_000, repetition_count: 10 });
    r.push(StageSpec { payload_size_bytes: 1_001_000, repetition_count: 8 });
    r.push(StageSpec { payload_size_bytes: 10_001_000, repetition_count: 6 });
    r
}

/// Whether a pass measures downloads (GET, body drained and counted) or
/// uploads (POST with a generated payload).
#[derive(Clone, Copy, Debug, PartialEq, Eq, Structural)]
pub enum TransferKind {
    Download,
    Upload,
}

/// What one transfer observably did: whether it completed successfully, how
/// many bytes actually moved, and how long it took.
#[derive(Clone, Copy, Debug, PartialEq, Eq, Structural)]
pub struct TransferOutcome {
    pub success: bool,
    pub bytes_transferred: u64,
    pub elapsed_micros: u64,
}

/// Whether a transfer outcome yields a sample. A download must deliver
/// exactly the requested byte count; an upload must merely report success,
/// since the sender cannot observe delivered bytes.
pub open spec fn outcome_valid(kind: TransferKind, requested_bytes: u64, o: TransferOutcome) -> bool {
    match kind {
        TransferKind::Download => o.success && o.bytes_transferred == requested_bytes,
        TransferKind::Upload => o.success,
    }
}

/// The figure a finished pass reports for a non-empty sample set: the
/// maximum observed sample for downloads, the upper median for uploads.
pub open spec fn reduced_value(kind: TransferKind, samples: Seq<u64>) -> u64
    recommends
        samples.len() > 0,
{
    match kind {
        TransferKind::Download => max_of_samples(samples),
        TransferKind::Upload => upper_median_of(samples),
    }
}

/// One throughput pass over a staged plan. The unverified shell drives it:
/// ask `next_request` for the payload size to transfer, perform the
/// transfer, `record` the outcome, and `finish` once `next_request` returns
/// `None`.
pub struct ThroughputRun {
    pub kind: TransferKind,
    pub plan: Vec<StageSpec>,
    pub stage: usize,
    pub rep: u64,
    pub samples: Vec<u64>,
}

impl ThroughputRun {
    /// The cursor always rests on an unissued repetition of a stage of a
    /// well-formed plan, or one past the last stage when the pass is done.
    pub open spec fn wf(self) -> bool {
        &&& plan_wf(self.plan@)
        &&& self.stage <= self.plan@.len()
        &&& (self.stage < self.plan@.len() ==> self.rep < self.plan@[
            self.stage as int
        ].repetition_count)
        &&& (self.stage == self.plan@.len() ==> self.rep == 0)
    }

    /// Every repetition of every stage has been issued.
    pub open spec fn done(self) -> bool {
        self.stage == self.plan@.len()
    }

    pub fn new(kind: TransferKind, plan: Vec<StageSpec>) -> (r: Self)
        requires
            plan_wf(plan@),
        ensures
            r.wf(),
            r.kind == kind,
            r.plan == plan,
            r.samples@ == Seq::<u64>::empty(),
            r.stage == 0,
            r.rep == 0,
            plan@.len() > 0 ==> !r.done(),
    {
        ThroughputRun { kind, plan, stage: 0, rep: 0, samples: Vec::new() }
    }

    /// A download pass over the fixed download plan.
    pub fn download_run() -> (r: Self)
        ensures
            r.wf(),
            r.kind == TransferKind::Download,
            r.plan@ == download_plan_seq(),
            r.samples@ == Seq::<u64>::empty(),
            r.stage == 0,
            r.rep == 0,
            !r.done(),
    {
        Self::new(TransferKind::Download, download_plan())
    }

    /// An upload pass over the fixed upload plan.
    pub fn upload_run() -> (r: Self)
        ensures
            r.wf(),
            r.kind == TransferKind::Upload,
            r.plan@ == upload_plan_seq(),
            r.samples@ == Seq::<u64>::empty(),
            r.stage == 0,
            r.rep == 0,
            !r.done(),
    {
        Self::new(TransferKind::Upload, upload_plan())
    }

    /// The payload size of the next transfer to issue, or `None` once the
    /// plan is exhausted.
    pub fn next_request(&self) -> (r: Option<u64>)
        requires
            self.wf(),
        ensures
            self.done() ==> r is None,
            !self.done() ==> r == Some(self.plan@[self.stage as int].payload_size_bytes),
    {
        if self.stage == self.plan.len() {
            None
        } else {
            Some(self.plan[self.stage].payload_size_bytes)
        }
    }

    /// Records the outcome of the transfer that `next_request` asked for. A
    /// valid outcome contributes one speed sample; any other outcome is
    /// silently discarded, without retry. The cursor always advances by one
    /// repetition.
    pub fn record(&mut self, outcome: TransferOutcome)
        requires
            old(self).wf(),
            !old(self).done(),
        ensures
            final(self).wf(),
            final(self).kind == old(self).kind,
            final(self).plan == old(self).plan,
            outcome_valid(old(self).kind, old(self).plan@[old(self).stage as int].payload_size_bytes, outcome)
                ==> final(self).samples@ == old(self).samples@.push(
                speed_bits_per_second(
                    old(self).plan@[old(self).stage as int].payload_size_bytes,
                    outcome.elapsed_micros,
                ),
            ),
            !outcome_valid(old(self).kind, old(self).plan@[old(self).stage as int].payload_size_bytes, outcome)
                ==> final(self).samples@ == old(self).samples@,
            old(self).rep + 1 < old(self).plan@[old(self).stage as int].repetition_count
                ==> final(self).stage == old(self).stage && final(self).rep == old(self).rep + 1,
            old(self).rep + 1 == old(self).plan@[old(self).stage as int].repetition_count
                ==> final(self).stage == old(self).stage + 1 && final(self).rep == 0,
    {
        let size = self.plan[self.stage].payload_size_bytes;
        let valid = match self.kind {
            TransferKind::Download => outcome.success && outcome.bytes_transferred == size,
            TransferKind::Upload => outcome.success,
        };
        if valid {
            let spd = calculate_speed_bps(size, outcome.elapsed_micros);
            self.samples.push(spd);
        }
        let reps = self.plan[self.stage].repetition_count;
        if self.rep + 1 < reps {
            self.rep = self.rep + 1;
        } else {
            proof {
                assert(self.stage < self.plan@.len());
                assert(self.plan@.len() == self.plan.len());
            }
            self.rep = 0;
            self.stage = self.stage + 1;
        }
    }

    /// Reduces the collected sample set to the single reported figure, or
    /// `None` exactly when every transfer was discarded.
    pub fn finish(self) -> (r: Option<u64>)
        ensures
            (r is Some) <==> self.samples@.len() > 0,
            self.samples@.len() > 0 ==> r == Some(reduced_value(self.kind, self.samples@)),
    {
        match self.kind {
            TransferKind::Download => reduce_maximum(self.samples),
            TransferKind::Upload => reduce_upper_median(self.samples),
        }
    }
}

/// The fixed download plan as a sequence, for contracts.
pub open spec fn download_plan_seq() -> Seq<StageSpec> {
    seq![
        StageSpec { payload_size_bytes: 101_000, repetition_count: 10 },
        StageSpec { payload_size_bytes: 1_001_000, repetition_count: 8 },
        StageSpec { payload_size_bytes: 10_001_000, repetition_count: 6 },
        StageSpec { payload_size_bytes: 25_001_000, repetition_count: 4 },
        StageSpec { payload_size_bytes: 100_001_000, repetition_count: 1 },
    ]
}

/// The fixed upload plan as a sequence, for contracts.
pub open spec fn upload_plan_seq() -> Seq<StageSpec> {
    seq![
        StageSpec { payload_size_bytes: 101_000, repetition_count: 10 },
        StageSpec { payload_size_bytes: 1_001_000, repetition_count: 8 },
        StageSpec { payload_size_bytes: 10_001_000, repetition_count: 6 },
    ]
}

/// The combined report of one engine invocation. A measurable field is
/// populated exactly when its measurer collected at least one sample;
/// `packet_loss_percent` and `error` are reserved and never populated.
#[derive(Debug)]
pub struct FullTestResult {
    pub download_bps: Option<u64>,
    pub upload_bps: Option<u64>,
    pub latency_ms: Option<u64>,
    pub jitter: Option<Jitter>,
    pub packet_loss_percent: Option<u64>,
    pub error: Option<String>,
}

impl FullTestResult {
    /// Joins the three measurers' reduced figures into one report. The
    /// invocation as a whole always succeeds: a measurer that yielded no
    /// data leaves its fields absent, and the reserved fields stay absent
    /// whatever happened.
    pub fn assemble(
        download_bps: Option<u64>,
        upload_bps: Option<u64>,
        latency_jitter: Option<(u64, Jitter)>,
    ) -> (r: Self)
        ensures
            r.download_bps == download_bps,
            r.upload_bps == upload_bps,
            (match latency_jitter {
                Some(lj) => r.latency_ms == Some(lj.0) && r.jitter == Some(lj.1),
                None => r.latency_ms is None && r.jitter is None,
            }),
            r.packet_loss_percent is None,
            r.error is None,
    {
        let (latency_ms, jitter) = match latency_jitter {
            Some(lj) => (Some(lj.0), Some(lj.1)),
            None => (None, None),
        };
        FullTestResult {
            download_bps,
            upload_bps,
            latency_ms,
            jitter,
            packet_loss_percent: None,
            error: None,
        }
    }
}

} // verus!
