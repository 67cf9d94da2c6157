//! Statistics model: per-worker run results, their aggregation into the
//! benchmark-wide stats, and the report derived from them.
//!
//! Merging is pairwise: durations and operation counts sum, histograms
//! merge by union, so the merged result is independent of worker order.
//! Throughput deliberately divides an operation count by the summed
//! per-worker duration, not by the wall-clock span of the concurrent run:
//! the two differ whenever more than one worker runs, and both are kept.

use vstd::prelude::*;
use vstd::multiset::Multiset;
use crate::hist::{LatencyHist, all_within_bound, bucket_summary, lemma_add_within_bound, lemma_percentile_monotone, quantile_value};
use crate::timer::add_micros;

verus! {

broadcast use vstd::multiset::group_multiset_axioms;

/// Throughput in whole operations per second: `ops` operations completed in
/// `micros` microseconds, rounded toward zero; zero when no work or no time
/// was recorded, saturating at `u64::MAX`.
pub open spec fn spec_throughput(ops: u64, micros: u64) -> int {
    if ops == 0 || micros == 0 {
        0
    } else if ops as int * 1_000_000 / micros as int > u64::MAX {
        u64::MAX as int
    } else {
        ops as int * 1_000_000 / micros as int
    }
}

/// Operations per second from an operation count and an elapsed time in
/// microseconds.
pub fn throughput_ops_per_sec(ops: u64, micros: u64) -> (r: u64)
    ensures
        r == spec_throughput(ops, micros),
{
    if ops == 0 || micros == 0 {
        0
    } else {
        let wide: u128 = (ops as u128) * 1_000_000 / (micros as u128);
        if wide > u64::MAX as u128 {
            u64::MAX
        } else {
            wide as u64
        }
    }
}

/// An integer sum as it lands in a 64-bit accumulator: saturating above,
/// and zero-floored (sums of unsigned values never go below).
pub open spec fn clamp_u64(v: int) -> u64 {
    if v > u64::MAX {
        u64::MAX
    } else if v < 0 {
        0
    } else {
        v as u64
    }
}

/// What one worker measured during the run phase: operation counts, time
/// spent strictly inside backend calls, and per-operation latencies.
pub struct RunResult {
    pub read_time_micros: u64,
    pub read_ops: u64,
    pub read_hist: LatencyHist,
    pub write_time_micros: u64,
    pub write_ops: u64,
    pub write_hist: LatencyHist,
}

impl RunResult {
    /// Histogram counts equal operation counts.
    pub open spec fn wf(&self) -> bool {
        &&& self.read_hist@.len() == self.read_ops
        &&& self.write_hist@.len() == self.write_ops
    }

    /// An empty result: no operations, no time, no samples.
    pub fn new() -> (r: RunResult)
        ensures
            r.wf(),
            r.read_time_micros == 0,
            r.read_ops == 0,
            r.read_hist@ == Multiset::<u64>::empty(),
            r.write_time_micros == 0,
            r.write_ops == 0,
            r.write_hist@ == Multiset::<u64>::empty(),
    {
        RunResult {
            read_time_micros: 0,
            read_ops: 0,
            read_hist: LatencyHist::new(),
            write_time_micros: 0,
            write_ops: 0,
            write_hist: LatencyHist::new(),
        }
    }
}

/// Sum of the workers' read operation counts.
pub open spec fn sum_read_ops(rs: Seq<RunResult>) -> int
    decreases rs.len(),
{
    if rs.len() == 0 {
        0
    } else {
        sum_read_ops(rs.drop_last()) + rs.last().read_ops
    }
}

/// Sum of the workers' write operation counts.
pub open spec fn sum_write_ops(rs: Seq<RunResult>) -> int
    decreases rs.len(),
{
    if rs.len() == 0 {
        0
    } else {
        sum_write_ops(rs.drop_last()) + rs.last().write_ops
    }
}

/// Sum of the workers' read durations, in microseconds.
pub open spec fn sum_read_time(rs: Seq<RunResult>) -> int
    decreases rs.len(),
{
    if rs.len() == 0 {
        0
    } else {
        sum_read_time(rs.drop_last()) + rs.last().read_time_micros
    }
}

/// Sum of the workers' write durations, in microseconds.
pub open spec fn sum_write_time(rs: Seq<RunResult>) -> int
    decreases rs.len(),
{
    if rs.len() == 0 {
        0
    } else {
        sum_write_time(rs.drop_last()) + rs.last().write_time_micros
    }
}

/// Union of the workers' read-latency samples.
pub open spec fn combined_read_hist(rs: Seq<RunResult>) -> Multiset<u64>
    decreases rs.len(),
{
    if rs.len() == 0 {
        Multiset::empty()
    } else {
        combined_read_hist(rs.drop_last()).add(rs.last().read_hist@)
    }
}

/// Union of the workers' write-latency samples.
pub open spec fn combined_write_hist(rs: Seq<RunResult>) -> Multiset<u64>
    decreases rs.len(),
{
    if rs.len() == 0 {
        Multiset::empty()
    } else {
        combined_write_hist(rs.drop_last()).add(rs.last().write_hist@)
    }
}

/// Merged histogram counts equal merged operation counts, and all sums are
/// non-negative: the aggregate invariant follows from each worker's.
pub proof fn lemma_result_sums(rs: Seq<RunResult>)
    requires
        forall|i: int| 0 <= i < rs.len() ==> (#[trigger] rs[i]).wf(),
    ensures
        sum_read_ops(rs) >= 0,
        sum_write_ops(rs) >= 0,
        sum_read_time(rs) >= 0,
        sum_write_time(rs) >= 0,
        combined_read_hist(rs).len() == sum_read_ops(rs),
        combined_write_hist(rs).len() == sum_write_ops(rs),
    decreases rs.len(),
{
    if rs.len() > 0 {
        let front = rs.drop_last();
        assert(forall|i: int| 0 <= i < front.len() ==> #[trigger] front[i] == rs[i]);
        lemma_result_sums(front);
        assert(rs.last().wf());
    }
}

/// All samples of every worker lie within the histogram bound, for both
/// of a worker's histograms.
pub open spec fn results_within_bound(rs: Seq<RunResult>) -> bool {
    forall|i: int|
        0 <= i < rs.len() ==> all_within_bound((#[trigger] rs[i]).read_hist@) && all_within_bound(
            rs[i].write_hist@,
        )
}

/// Worker-bounded samples stay bounded through the merge.
pub proof fn lemma_combined_within_bound(rs: Seq<RunResult>)
    requires
        results_within_bound(rs),
    ensures
        all_within_bound(combined_read_hist(rs)),
        all_within_bound(combined_write_hist(rs)),
    decreases rs.len(),
{
    if rs.len() == 0 {
        assert forall|v: u64| combined_read_hist(rs).count(v) > 0 implies v
            <= crate::hist::HIST_MAX_MICROS by {
            assert(combined_read_hist(rs).count(v) == 0);
        }
        assert forall|v: u64| combined_write_hist(rs).count(v) > 0 implies v
            <= crate::hist::HIST_MAX_MICROS by {
            assert(combined_write_hist(rs).count(v) == 0);
        }
    } else {
        let front = rs.drop_last();
        assert(forall|i: int| 0 <= i < front.len() ==> #[trigger] front[i] == rs[i]);
        lemma_combined_within_bound(front);
        lemma_add_within_bound(combined_read_hist(front), rs.last().read_hist@);
        lemma_add_within_bound(combined_write_hist(front), rs.last().write_hist@);
    }
}

/// Process-lifetime aggregate of one benchmark invocation. Mutated exactly
/// twice: `record_load` after the load phase, `record_run` after the run
/// phase.
pub struct WorkloadStats {
    pub load_time_micros: u64,
    pub load_ops: u64,
    pub run_wall_time_micros: u64,
    pub run_read_time_micros: u64,
    pub run_read_ops: u64,
    pub run_read_hist: LatencyHist,
    pub run_write_time_micros: u64,
    pub run_write_ops: u64,
    pub run_write_hist: LatencyHist,
}

impl WorkloadStats {
    /// Histogram counts equal operation counts.
    pub open spec fn wf(&self) -> bool {
        &&& self.run_read_hist@.len() == self.run_read_ops
        &&& self.run_write_hist@.len() == self.run_write_ops
    }

    /// Fresh stats: all counters zero, both histograms empty.
    pub fn new() -> (s: WorkloadStats)
        ensures
            s.wf(),
            s.load_time_micros == 0,
            s.load_ops == 0,
            s.run_wall_time_micros == 0,
            s.run_read_time_micros == 0,
            s.run_read_ops == 0,
            s.run_read_hist@ == Multiset::<u64>::empty(),
            s.run_write_time_micros == 0,
            s.run_write_ops == 0,
            s.run_write_hist@ == Multiset::<u64>::empty(),
    {
        WorkloadStats {
            load_time_micros: 0,
            load_ops: 0,
            run_wall_time_micros: 0,
            run_read_time_micros: 0,
            run_read_ops: 0,
            run_read_hist: LatencyHist::new(),
            run_write_time_micros: 0,
            run_write_ops: 0,
            run_write_hist: LatencyHist::new(),
        }
    }

    /// Record the outcome of the load phase; the run-phase fields are
    /// untouched.
    pub fn record_load(&mut self, micros: u64, ops: u64)
        ensures
            final(self).load_time_micros == micros,
            final(self).load_ops == ops,
            final(self).run_wall_time_micros == old(self).run_wall_time_micros,
            final(self).run_read_time_micros == old(self).run_read_time_micros,
            final(self).run_read_ops == old(self).run_read_ops,
            final(self).run_read_hist == old(self).run_read_hist,
            final(self).run_write_time_micros == old(self).run_write_time_micros,
            final(self).run_write_ops == old(self).run_write_ops,
            final(self).run_write_hist == old(self).run_write_hist,
    {
        self.load_time_micros = micros;
        self.load_ops = ops;
    }

    /// Merge the workers' results into this aggregate: operation counts and
    /// durations sum pairwise, histograms merge by union, and the wall-clock
    /// span of the whole run phase is stored separately from the summed
    /// durations. The load-phase fields are untouched.
    pub fn record_run(&mut self, results: &Vec<RunResult>, wall_micros: u64)
        requires
            forall|i: int| 0 <= i < results@.len() ==> (#[trigger] results@[i]).wf(),
            sum_read_ops(results@) + sum_write_ops(results@) <= u64::MAX,
        ensures
            final(self).wf(),
            final(self).run_read_ops == sum_read_ops(results@),
            final(self).run_write_ops == sum_write_ops(results@),
            final(self).run_read_hist@ == combined_read_hist(results@),
            final(self).run_write_hist@ == combined_write_hist(results@),
            final(self).run_read_time_micros == clamp_u64(sum_read_time(results@)),
            final(self).run_write_time_micros == clamp_u64(sum_write_time(results@)),
            final(self).run_wall_time_micros == wall_micros,
            final(self).load_time_micros == old(self).load_time_micros,
            final(self).load_ops == old(self).load_ops,
            results_within_bound(results@) ==> all_within_bound(final(self).run_read_hist@)
                && all_within_bound(final(self).run_write_hist@),
    {
        let mut read_time: u64 = 0;
        let mut read_ops: u64 = 0;
        let mut read_hist = LatencyHist::new();
        let mut write_time: u64 = 0;
        let mut write_ops: u64 = 0;
        let mut write_hist = LatencyHist::new();
        let mut i: usize = 0;
        proof {
            assert(results@.take(0) =~= Seq::<RunResult>::empty());
        }
        while i < results.len()
            invariant
                0 <= i <= results@.len(),
                forall|k: int| 0 <= k < results@.len() ==> (#[trigger] results@[k]).wf(),
                sum_read_ops(results@) + sum_write_ops(results@) <= u64::MAX,
                read_ops == sum_read_ops(results@.take(i as int)),
                write_ops == sum_write_ops(results@.take(i as int)),
                read_hist@ == combined_read_hist(results@.take(i as int)),
                write_hist@ == combined_write_hist(results@.take(i as int)),
                read_time == clamp_u64(sum_read_time(results@.take(i as int))),
                write_time == clamp_u64(sum_write_time(results@.take(i as int))),
            decreases results@.len() - i,
        {
            let ghost pre = results@.take(i as int);
            let ghost post = results@.take(i as int + 1);
            proof {
                assert(post.drop_last() =~= pre);
                assert(post.last() == results@[i as int]);
                lemma_result_sums(results@);
                lemma_prefix_sums_bounded(results@, i as int + 1);
                lemma_result_sums(post);
                lemma_result_sums(pre);
            }
            let r = &results[i];
            read_time = add_micros(read_time, r.read_time_micros);
            write_time = add_micros(write_time, r.write_time_micros);
            read_ops = read_ops + r.read_ops;
            write_ops = write_ops + r.write_ops;
            read_hist.merge_from(&r.read_hist);
            write_hist.merge_from(&r.write_hist);
            i = i + 1;
        }
        proof {
            assert(results@.take(results@.len() as int) =~= results@);
            lemma_result_sums(results@);
            if results_within_bound(results@) {
                lemma_combined_within_bound(results@);
            }
        }
        self.run_read_time_micros = read_time;
        self.run_read_ops = read_ops;
        self.run_read_hist = read_hist;
        self.run_write_time_micros = write_time;
        self.run_write_ops = write_ops;
        self.run_write_hist = write_hist;
        self.run_wall_time_micros = wall_micros;
    }
}

/// Prefix sums of operation counts never exceed the whole-sequence sums.
proof fn lemma_prefix_sums_bounded(rs: Seq<RunResult>, n: int)
    requires
        0 <= n <= rs.len(),
        forall|i: int| 0 <= i < rs.len() ==> (#[trigger] rs[i]).wf(),
    ensures
        sum_read_ops(rs.take(n)) <= sum_read_ops(rs),
        sum_write_ops(rs.take(n)) <= sum_write_ops(rs),
    decreases rs.len() - n,
{
    if n == rs.len() {
        assert(rs.take(n) =~= rs);
    } else {
        let bigger = rs.take(n + 1);
        assert(bigger.drop_last() =~= rs.take(n));
        assert(bigger.last() == rs[n]);
        assert(rs[n].wf());
        lemma_prefix_sums_bounded(rs, n + 1);
    }
}

/// The load section of a report: operation count, elapsed time, throughput.
pub struct LoadReport {
    pub ops: u64,
    pub time_micros: u64,
    pub throughput: u64,
}

/// One run-phase section of a report. `time_micros` is the summed
/// per-worker duration (the throughput denominator); `wall_micros` is the
/// single wall-clock span of the whole concurrent run. The percentiles are
/// `None` — the no-data sentinel — when nothing was recorded.
pub struct PhaseReport {
    pub ops: u64,
    pub time_micros: u64,
    pub wall_micros: u64,
    pub throughput: u64,
    pub p50: Option<u64>,
    pub p95: Option<u64>,
    pub p99: Option<u64>,
    pub p999: Option<u64>,
}

/// The fixed three-section report: load, run-read, run-write.
pub struct Report {
    pub load: LoadReport,
    pub read: PhaseReport,
    pub write: PhaseReport,
}

impl WorkloadStats {
    /// Derive the report. Throughputs use the summed per-worker durations;
    /// each percentile is the value at that quantile of the merged
    /// histogram, `None` exactly when the phase recorded nothing, and the
    /// four percentiles of a phase are non-decreasing.
    pub fn report(&self) -> (r: Report)
        requires
            self.wf(),
        ensures
            r.load.ops == self.load_ops,
            r.load.time_micros == self.load_time_micros,
            r.load.throughput == spec_throughput(self.load_ops, self.load_time_micros),
            r.read.ops == self.run_read_ops,
            r.read.time_micros == self.run_read_time_micros,
            r.read.wall_micros == self.run_wall_time_micros,
            r.read.throughput == spec_throughput(self.run_read_ops, self.run_read_time_micros),
            r.write.ops == self.run_write_ops,
            r.write.time_micros == self.run_write_time_micros,
            r.write.wall_micros == self.run_wall_time_micros,
            r.write.throughput == spec_throughput(self.run_write_ops, self.run_write_time_micros),
            r.read.p50 is None <==> self.run_read_ops == 0,
            r.read.p95 is None <==> self.run_read_ops == 0,
            r.read.p99 is None <==> self.run_read_ops == 0,
            r.read.p999 is None <==> self.run_read_ops == 0,
            r.write.p50 is None <==> self.run_write_ops == 0,
            r.write.p95 is None <==> self.run_write_ops == 0,
            r.write.p99 is None <==> self.run_write_ops == 0,
            r.write.p999 is None <==> self.run_write_ops == 0,
            self.run_read_ops > 0 ==> r.read.p50->Some_0 <= r.read.p95->Some_0
                <= r.read.p99->Some_0 <= r.read.p999->Some_0,
            self.run_write_ops > 0 ==> r.write.p50->Some_0 <= r.write.p95->Some_0
                <= r.write.p99->Some_0 <= r.write.p999->Some_0,
            self.run_read_ops > 0 ==> r.read.p50
                == Some::<u64>(quantile_value(bucket_summary(self.run_read_hist@), self.run_read_hist@.len(), 500)),
            self.run_read_ops > 0 ==> r.read.p95
                == Some::<u64>(quantile_value(bucket_summary(self.run_read_hist@), self.run_read_hist@.len(), 950)),
            self.run_read_ops > 0 ==> r.read.p99
                == Some::<u64>(quantile_value(bucket_summary(self.run_read_hist@), self.run_read_hist@.len(), 990)),
            self.run_read_ops > 0 ==> r.read.p999
                == Some::<u64>(quantile_value(bucket_summary(self.run_read_hist@), self.run_read_hist@.len(), 999)),
            self.run_write_ops > 0 ==> r.write.p50
                == Some::<u64>(quantile_value(bucket_summary(self.run_write_hist@), self.run_write_hist@.len(), 500)),
            self.run_write_ops > 0 ==> r.write.p95
                == Some::<u64>(quantile_value(bucket_summary(self.run_write_hist@), self.run_write_hist@.len(), 950)),
            self.run_write_ops > 0 ==> r.write.p99
                == Some::<u64>(quantile_value(bucket_summary(self.run_write_hist@), self.run_write_hist@.len(), 990)),
            self.run_write_ops > 0 ==> r.write.p999
                == Some::<u64>(quantile_value(bucket_summary(self.run_write_hist@), self.run_write_hist@.len(), 999)),
    {
        let r_p50 = self.run_read_hist.value_at_quantile(500);
        let r_p95 = self.run_read_hist.value_at_quantile(950);
        let r_p99 = self.run_read_hist.value_at_quantile(990);
        let r_p999 = self.run_read_hist.value_at_quantile(999);
        let w_p50 = self.run_write_hist.value_at_quantile(500);
        let w_p95 = self.run_write_hist.value_at_quantile(950);
        let w_p99 = self.run_write_hist.value_at_quantile(990);
        let w_p999 = self.run_write_hist.value_at_quantile(999);
        proof {
            if self.run_read_hist@.len() > 0 {
                let b = bucket_summary(self.run_read_hist@);
                lemma_percentile_monotone(b, self.run_read_hist@.len(), 500, 950);
                lemma_percentile_monotone(b, self.run_read_hist@.len(), 950, 990);
                lemma_percentile_monotone(b, self.run_read_hist@.len(), 990, 999);
            }
            if self.run_write_hist@.len() > 0 {
                let b = bucket_summary(self.run_write_hist@);
                lemma_percentile_monotone(b, self.run_write_hist@.len(), 500, 950);
                lemma_percentile_monotone(b, self.run_write_hist@.len(), 950, 990);
                lemma_percentile_monotone(b, self.run_write_hist@.len(), 990, 999);
            }
        }
        Report {
            load: LoadReport {
                ops: self.load_ops,
                time_micros: self.load_time_micros,
                throughput: throughput_ops_per_sec(self.load_ops, self.load_time_micros),
            },
            read: PhaseReport {
                ops: self.run_read_ops,
                time_micros: self.run_read_time_micros,
                wall_micros: self.run_wall_time_micros,
                throughput: throughput_ops_per_sec(self.run_read_ops, self.run_read_time_micros),
                p50: r_p50,
                p95: r_p95,
                p99: r_p99,
                p999: r_p999,
            },
            write: PhaseReport {
                ops: self.run_write_ops,
                time_micros: self.run_write_time_micros,
                wall_micros: self.run_wall_time_micros,
                throughput: throughput_ops_per_sec(self.run_write_ops, self.run_write_time_micros),
                p50: w_p50,
                p95: w_p95,
                p99: w_p99,
                p999: w_p999,
            },
        }
    }
}

} // verus!
