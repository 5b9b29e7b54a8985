//! The metrics sampler core: percentage arithmetic, the bounded rolling
//! buffer that smooths noisy CPU readings, and the fallback decisions for
//! the scratch directory and the disk capacity.
//!
//! Reading the operating-system counters themselves (memory, CPU, disks,
//! the scratch-directory scan) is I/O and lives outside this crate; callers
//! hand the raw readings in as a [`RawReading`] and this module computes the
//! [`Metrics`] snapshot from them.

use std::collections::VecDeque;
use vstd::prelude::*;

verus! {

/// Size of the CPU smoothing window: 6 samples, a 30-second window at the
/// 5-second poll interval.
pub const CPU_HISTORY_LEN: usize = 6;

/// Bytes per megabyte.
pub const BYTES_PER_MB: u64 = 1024 * 1024;

/// Nominal disk capacity in MB (256 GB), used when the volume holding the
/// scratch directory cannot be resolved.
pub const FALLBACK_DISK_MB: u64 = 256 * 1024;

/// A percentage `part * 100 / whole`, rounded down, clamped to 100, and
/// defined as 0 when `whole` is 0.
pub open spec fn percent_of(part: u64, whole: u64) -> int {
    if whole == 0 {
        0
    } else if part * 100 / (whole as int) > 100 {
        100
    } else {
        part * 100 / (whole as int)
    }
}

/// A rolling buffer after one raw sample is appended: the sample goes to the
/// tail, and the head is dropped once the window size is exceeded.
pub open spec fn push_sample(history: Seq<u64>, sample: u64) -> Seq<u64> {
    let grown = history.push(sample);
    if grown.len() > CPU_HISTORY_LEN {
        grown.subrange(1, grown.len() as int)
    } else {
        grown
    }
}

/// Sum of a sequence of samples.
pub open spec fn seq_sum(s: Seq<u64>) -> int
    decreases s.len(),
{
    if s.len() == 0 {
        0
    } else {
        seq_sum(s.drop_last()) + s.last()
    }
}

/// Arithmetic mean of a sequence of samples, rounded down.
pub open spec fn mean_of(s: Seq<u64>) -> int
    recommends
        s.len() > 0,
{
    seq_sum(s) / s.len() as int
}

/// The smoothed metrics snapshot computed from one raw reading against the
/// CPU history as it stood before the reading was pushed.
pub open spec fn metrics_of(history: Seq<u64>, reading: RawReading) -> Metrics {
    Metrics {
        ram_percent: percent_of(reading.mem_used_bytes, reading.mem_total_bytes) as u64,
        cpu_percent: mean_of(push_sample(history, reading.cpu_percent)) as u64,
        disk_junk_percent: percent_of(
            (reading.junk_bytes / BYTES_PER_MB) as u64,
            disk_mb_of(reading.disk_total_bytes) as u64,
        ) as u64,
        disk_junk_mb: (reading.junk_bytes / BYTES_PER_MB) as u64,
        total_disk_mb: disk_mb_of(reading.disk_total_bytes) as u64,
    }
}

/// Total disk capacity in MB: the resolved volume size when one was found,
/// else the nominal fallback capacity.
pub open spec fn disk_mb_of(total_bytes: Option<u64>) -> int {
    match total_bytes {
        Some(b) => b as int / BYTES_PER_MB as int,
        None => FALLBACK_DISK_MB as int,
    }
}

/// System metrics snapshot. Percentages are whole percents in `[0, 100]`.
#[derive(Debug, Clone, Copy, PartialEq, Eq, Structural)]
pub struct Metrics {
    pub ram_percent: u64,
    pub cpu_percent: u64,
    pub disk_junk_percent: u64,
    pub disk_junk_mb: u64,
    pub total_disk_mb: u64,
}

impl Metrics {
    /// Every percentage field lies in `[0, 100]`. Nothing relates
    /// `disk_junk_mb` to `total_disk_mb`: the junk is scanned from a scratch
    /// directory, not the whole volume, so it may exceed the volume size.
    pub open spec fn valid(self) -> bool {
        &&& self.ram_percent <= 100
        &&& self.cpu_percent <= 100
        &&& self.disk_junk_percent <= 100
    }
}

/// One tick's worth of raw operating-system readings, gathered by the caller
/// and handed in as plain values.
#[derive(Debug, Clone, Copy)]
pub struct RawReading {
    /// Bytes of memory in use.
    pub mem_used_bytes: u64,
    /// Bytes of memory installed; 0 means no memory information.
    pub mem_total_bytes: u64,
    /// Instantaneous CPU usage as a whole percent in `[0, 100]`.
    pub cpu_percent: u64,
    /// Bytes found beneath the scratch directory.
    pub junk_bytes: u64,
    /// Size in bytes of the volume holding the scratch directory, or `None`
    /// when the volume could not be resolved.
    pub disk_total_bytes: Option<u64>,
}

/// The sampler core: owns the short rolling history of raw CPU readings
/// that smooths the noisy instantaneous values.
pub struct SystemMonitor {
    cpu_history: VecDeque<u64>,
    max_history_size: usize,
}

impl SystemMonitor {
    /// The rolling history never outgrows the window and holds only
    /// percentages.
    pub closed spec fn wf(self) -> bool {
        &&& self.cpu_history@.len() <= CPU_HISTORY_LEN
        &&& forall|i: int|
            0 <= i < self.cpu_history@.len() ==> self.cpu_history@[i] <= 100
        &&& self.max_history_size == CPU_HISTORY_LEN
    }

    /// The raw CPU samples currently in the smoothing window, oldest first.
    pub closed spec fn history(self) -> Seq<u64> {
        self.cpu_history@
    }

    /// Create a new system monitor with an empty smoothing window.
    pub fn new() -> (r: SystemMonitor)
        ensures
            r.wf(),
            r.history() == Seq::<u64>::empty(),
    {
        let r = SystemMonitor {
            cpu_history: VecDeque::with_capacity(CPU_HISTORY_LEN),
            max_history_size: CPU_HISTORY_LEN,
        };
        proof {
            assert(r.cpu_history@ =~= Seq::<u64>::empty());
        }
        r
    }

    /// Compute the current metrics snapshot from one raw reading, with
    /// temporal smoothing for CPU: the raw sample enters the rolling window
    /// (evicting the oldest when full) and the smoothed value is the mean of
    /// the window. Percentages degrade to 0 rather than faulting when a
    /// total is 0, and a missing volume size falls back to a nominal
    /// capacity.
    pub fn get_metrics(&mut self, reading: &RawReading) -> (r: Metrics)
        requires
            old(self).wf(),
            reading.cpu_percent <= 100,
        ensures
            final(self).wf(),
            final(self).history() == push_sample(old(self).history(), reading.cpu_percent),
            r == metrics_of(old(self).history(), *reading),
            r.valid(),
    {
        let ghost history0 = self.cpu_history@;
        let ram_percent = percent_clamped(reading.mem_used_bytes, reading.mem_total_bytes);

        // Push the raw sample; drop the oldest once the window overflows.
        self.cpu_history.push_back(reading.cpu_percent);
        if self.cpu_history.len() > self.max_history_size {
            self.cpu_history.pop_front();
        }
        proof {
            assert(self.cpu_history@ =~= push_sample(history0, reading.cpu_percent));
        }

        // Smoothed CPU: arithmetic mean of the window contents.
        let total: u64 = sum_samples(&self.cpu_history);
        let count: u64 = self.cpu_history.len() as u64;
        let cpu_percent: u64 = total / count;
        proof {
            lemma_seq_sum_bounds(self.cpu_history@);
            assert(cpu_percent <= 100) by (nonlinear_arith)
                requires
                    cpu_percent == total as int / count as int,
                    0 < count,
                    total <= 100 * count,
            {}
        }

        let disk_junk_mb = reading.junk_bytes / BYTES_PER_MB;
        let total_disk_mb = match reading.disk_total_bytes {
            Some(b) => b / BYTES_PER_MB,
            None => FALLBACK_DISK_MB,
        };
        let disk_junk_percent = percent_clamped(disk_junk_mb, total_disk_mb);

        Metrics {
            ram_percent,
            cpu_percent,
            disk_junk_percent,
            disk_junk_mb,
            total_disk_mb,
        }
    }
}

impl Default for SystemMonitor {
    /// A fresh monitor with an empty smoothing window.
    fn default() -> (r: SystemMonitor)
        ensures
            r.wf(),
            r.history() == Seq::<u64>::empty(),
    {
        SystemMonitor::new()
    }
}

/// Computes `percent_of` exactly, with no division fault and no overflow.
fn percent_clamped(part: u64, whole: u64) -> (r: u64)
    ensures
        r as int == percent_of(part, whole),
        r <= 100,
{
    if whole == 0 {
        0
    } else {
        let scaled: u128 = (part as u128) * 100;
        let q: u128 = scaled / (whole as u128);
        if q > 100 {
            100
        } else {
            q as u64
        }
    }
}

/// Sum of the samples currently in the window.
fn sum_samples(samples: &VecDeque<u64>) -> (total: u64)
    requires
        samples@.len() <= CPU_HISTORY_LEN,
        forall|i: int| 0 <= i < samples@.len() ==> samples@[i] <= 100,
    ensures
        total as int == seq_sum(samples@),
{
    let mut total: u64 = 0;
    let mut i: usize = 0;
    while i < samples.len()
        invariant
            i <= samples@.len(),
            samples@.len() <= CPU_HISTORY_LEN,
            forall|j: int| 0 <= j < samples@.len() ==> samples@[j] <= 100,
            total as int == seq_sum(samples@.take(i as int)),
            total <= 100 * i,
        decreases samples@.len() - i,
    {
        proof {
            lemma_seq_sum_take_step(samples@, i as int);
        }
        total = total + samples[i];
        i = i + 1;
    }
    proof {
        assert(samples@.take(samples@.len() as int) =~= samples@);
    }
    total
}

/// Extending a prefix sum by one element adds that element.
proof fn lemma_seq_sum_take_step(s: Seq<u64>, i: int)
    requires
        0 <= i < s.len(),
    ensures
        seq_sum(s.take(i + 1)) == seq_sum(s.take(i)) + s[i],
{
    assert(s.take(i + 1).drop_last() =~= s.take(i));
    assert(s.take(i + 1).last() == s[i]);
}

/// A sum of percentages lies between 0 and 100 per sample.
proof fn lemma_seq_sum_bounds(s: Seq<u64>)
    requires
        forall|i: int| 0 <= i < s.len() ==> s[i] <= 100,
    ensures
        0 <= seq_sum(s) <= 100 * s.len(),
    decreases s.len(),
{
    if s.len() > 0 {
        assert(forall|i: int| 0 <= i < s.drop_last().len() ==> s.drop_last()[i] <= 100);
        lemma_seq_sum_bounds(s.drop_last());
    }
}

/// The scratch directory: the first configured path that is present, with
/// the platform default when neither environment variable is set.
pub fn scratch_dir_path(temp_var: Option<String>, tmp_var: Option<String>) -> (r: String)
    ensures
        temp_var matches Some(p) ==> r@ == p@,
        temp_var is None ==> (tmp_var matches Some(p) ==> r@ == p@),
        temp_var is None && tmp_var is None ==> r@ == "C:\\Windows\\Temp"@,
{
    match temp_var {
        Some(p) => p,
        None => match tmp_var {
            Some(p) => p,
            None => {
                let fallback = "C:\\Windows\\Temp";
                fallback.to_string()
            },
        },
    }
}

} // verus!
