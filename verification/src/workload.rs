//! The workload descriptor and the two-phase execution engine.
//!
//! A benchmark first runs the load phase — a sequential, deterministic
//! population of the backend with exactly `load_insert_count` keys — and
//! then the run phase, in which workers each issue `operation_count`
//! operations mixed between reads and writes.
//!
//! Operation shares are fixed-point fractions in parts per million of
//! `MIX_SCALE`; a valid mix sums into (0, MIX_SCALE]. When the shares sum
//! below `MIX_SCALE` the leftover slice of each draw is an explicit skip —
//! no operation is issued and nothing is recorded — rather than an
//! unreachable path.
//!
//! The skewed draws that pick value sizes and key indices come in as plain
//! numbers (`WorkerInput`), pre-sampled by the caller from a Zipfian
//! distribution over `[1, range]`; everything after the draw is verified
//! here.

pub mod read_heavy;
pub mod read_write;

use vstd::prelude::*;
use vstd::multiset::Multiset;
use crate::database::{Database, DbError};
use crate::generator::{ByteGen, rng_from_seed, random_below};
use crate::hist::{all_within_bound, clamp_sample, lemma_insert_within_bound};
use crate::stats::{RunResult, WorkloadStats, results_within_bound, sum_read_ops, sum_write_ops};
use crate::timer::{add_micros, instant_now, micros_since};

verus! {

broadcast use vstd::multiset::group_multiset_axioms;

/// Denominator of the fixed-point operation shares: one million parts.
pub const MIX_SCALE: u64 = 1_000_000;

/// Why a workload descriptor was rejected.
#[derive(Copy, Clone, PartialEq, Eq, Structural, Debug)]
pub enum ConfigError {
    ReadShareOutOfRange,
    WriteShareOutOfRange,
    EmptyMix,
    OversubscribedMix,
}

/// A valid operation mix: both shares are fractions of `MIX_SCALE` and
/// their sum lies in (0, MIX_SCALE].
pub open spec fn valid_mix(read_ppm: u64, write_ppm: u64) -> bool {
    &&& read_ppm <= MIX_SCALE
    &&& write_ppm <= MIX_SCALE
    &&& read_ppm + write_ppm > 0
    &&& read_ppm + write_ppm <= MIX_SCALE
}

/// The statistical shape of one benchmark: operation mix, key and value
/// sizing, key-space cardinality, concurrency degree. Immutable once built.
pub struct WorkloadConfig {
    pub name: String,
    /// Keys populated in the load phase; also the key-space cardinality the
    /// run phase draws indices from.
    pub load_insert_count: u64,
    /// Operations issued by each worker during the run phase.
    pub operation_count: u64,
    /// Read share of the mix, in parts per million.
    pub read_ppm: u64,
    /// Write share of the mix, in parts per million.
    pub write_ppm: u64,
    /// Fixed byte length of every generated key.
    pub key_size: u64,
    /// Half-open interval `[min, max)` of value byte lengths.
    pub value_size_min: u64,
    pub value_size_max: u64,
    /// Worker parallelism of the run phase.
    pub thread_count: u32,
}

impl WorkloadConfig {
    /// The descriptor invariant: a valid operation mix.
    pub open spec fn wf(&self) -> bool {
        valid_mix(self.read_ppm, self.write_ppm)
    }

    /// Machine-size bounds needed to materialize payload buffers.
    pub open spec fn sizes_fit(&self) -> bool {
        &&& self.key_size <= usize::MAX
        &&& self.value_size_max <= usize::MAX
        &&& self.value_size_min <= self.value_size_max
    }

    /// Build a descriptor, rejecting any invalid operation mix before it
    /// can reach a backend.
    pub fn new(
        name: String,
        load_insert_count: u64,
        operation_count: u64,
        read_ppm: u64,
        write_ppm: u64,
        key_size: u64,
        value_size_min: u64,
        value_size_max: u64,
        thread_count: u32,
    ) -> (r: Result<WorkloadConfig, ConfigError>)
        ensures
            r is Ok <==> valid_mix(read_ppm, write_ppm),
            r is Ok ==> (r->Ok_0).wf(),
            r is Ok ==> r->Ok_0.name == name && r->Ok_0.load_insert_count == load_insert_count
                && r->Ok_0.operation_count == operation_count && r->Ok_0.read_ppm == read_ppm
                && r->Ok_0.write_ppm == write_ppm && r->Ok_0.key_size == key_size
                && r->Ok_0.value_size_min == value_size_min
                && r->Ok_0.value_size_max == value_size_max
                && r->Ok_0.thread_count == thread_count,
    {
        let config = WorkloadConfig {
            name,
            load_insert_count,
            operation_count,
            read_ppm,
            write_ppm,
            key_size,
            value_size_min,
            value_size_max,
            thread_count,
        };
        match validate_config(&config) {
            Ok(_) => Ok(config),
            Err(e) => Err(e),
        }
    }
}

/// Check a descriptor's operation mix: each share within `[0, MIX_SCALE]`
/// and the sum within (0, MIX_SCALE]. Reports the first violation, in the
/// order the checks are listed.
pub fn validate_config(config: &WorkloadConfig) -> (r: Result<(), ConfigError>)
    ensures
        r is Ok <==> config.wf(),
        config.read_ppm > MIX_SCALE
            ==> r == Err::<(), ConfigError>(ConfigError::ReadShareOutOfRange),
        config.read_ppm <= MIX_SCALE && config.write_ppm > MIX_SCALE
            ==> r == Err::<(), ConfigError>(ConfigError::WriteShareOutOfRange),
        config.read_ppm == 0 && config.write_ppm == 0
            ==> r == Err::<(), ConfigError>(ConfigError::EmptyMix),
        config.read_ppm <= MIX_SCALE && config.write_ppm <= MIX_SCALE
            && config.read_ppm + config.write_ppm > MIX_SCALE
            ==> r == Err::<(), ConfigError>(ConfigError::OversubscribedMix),
{
    if config.read_ppm > MIX_SCALE {
        Err(ConfigError::ReadShareOutOfRange)
    } else if config.write_ppm > MIX_SCALE {
        Err(ConfigError::WriteShareOutOfRange)
    } else if config.read_ppm == 0 && config.write_ppm == 0 {
        Err(ConfigError::EmptyMix)
    } else if config.read_ppm + config.write_ppm > MIX_SCALE {
        Err(ConfigError::OversubscribedMix)
    } else {
        Ok(())
    }
}

/// Populate the backend with exactly `load_insert_count` keys, sequential
/// and single-threaded. Key and value bytes for index `i` are derived by
/// reseeding a byte source from `i` itself, so the key universe is exactly
/// the fixed keys of indices `0..load_insert_count`, independent of any
/// run-phase sampling. Each `set` call is timed; the total time inside
/// `set` is returned. The value size of index `i` is the caller's Zipfian
/// draw plus the range floor.
pub fn load<D: Database>(
    db: &D,
    config: &WorkloadConfig,
    value_size_draws: &Vec<u64>,
) -> (r: Result<u64, DbError>)
    requires
        config.wf(),
        config.sizes_fit(),
        value_size_draws@.len() == config.load_insert_count,
        forall|i: int|
            0 <= i < value_size_draws@.len() ==> 1 <= #[trigger] value_size_draws@[i]
                <= config.value_size_max - config.value_size_min,
    ensures
        config.load_insert_count == 0 ==> r == Ok::<u64, DbError>(0),
{
    let mut time: u64 = 0;
    let key_size = config.key_size as usize;
    let mut i: u64 = 0;
    while i < config.load_insert_count
        invariant
            config.wf(),
            config.sizes_fit(),
            value_size_draws@.len() == config.load_insert_count,
            forall|k: int|
                0 <= k < value_size_draws@.len() ==> 1 <= #[trigger] value_size_draws@[k]
                    <= config.value_size_max - config.value_size_min,
            0 <= i <= config.load_insert_count,
            key_size == config.key_size,
            i == 0 ==> time == 0,
        decreases config.load_insert_count - i,
    {
        let draw = value_size_draws[i as usize];
        let value_size = draw + config.value_size_min;
        let (key, value) = ByteGen::get_load_pair(i, key_size, value_size as usize);
        let t0 = instant_now();
        match db.set(key.as_slice(), value.as_slice()) {
            Ok(_) => {},
            Err(e) => {
                return Err(e);
            },
        }
        time = add_micros(time, micros_since(&t0));
        i = i + 1;
    }
    Ok(time)
}

/// Run the load phase: initialize the backend, populate it, and record the
/// outcome. On success the stats report exactly `load_insert_count` load
/// operations; on failure the stats are untouched.
pub fn exec_load<D: Database>(
    db: &D,
    config: &WorkloadConfig,
    value_size_draws: &Vec<u64>,
    stats: &mut WorkloadStats,
) -> (r: Result<(), DbError>)
    requires
        config.wf(),
        config.sizes_fit(),
        value_size_draws@.len() == config.load_insert_count,
        forall|i: int|
            0 <= i < value_size_draws@.len() ==> 1 <= #[trigger] value_size_draws@[i]
                <= config.value_size_max - config.value_size_min,
    ensures
        r is Ok ==> final(stats).load_ops == config.load_insert_count,
        r is Ok ==> final(stats).run_wall_time_micros == old(stats).run_wall_time_micros
            && final(stats).run_read_time_micros == old(stats).run_read_time_micros
            && final(stats).run_read_ops == old(stats).run_read_ops
            && final(stats).run_read_hist == old(stats).run_read_hist
            && final(stats).run_write_time_micros == old(stats).run_write_time_micros
            && final(stats).run_write_ops == old(stats).run_write_ops
            && final(stats).run_write_hist == old(stats).run_write_hist,
        r is Err ==> *final(stats) == *old(stats),
{
    match db.init() {
        Ok(_) => {},
        Err(e) => {
            return Err(e);
        },
    }
    let time = match load(db, config, value_size_draws) {
        Ok(t) => t,
        Err(e) => {
            return Err(e);
        },
    };
    stats.record_load(time, config.load_insert_count);
    Ok(())
}

/// The pre-sampled inputs one worker consumes: a Zipfian key index and a
/// Zipfian value-size draw per operation, plus the seeds of the worker's
/// own mix and value-byte generators.
pub struct WorkerInput {
    pub key_indices: Vec<u64>,
    pub value_size_draws: Vec<u64>,
    pub mix_seed: u64,
    pub value_seed: u64,
}

impl WorkerInput {
    /// One draw per operation; key indices within the loaded key space,
    /// size draws within the value-size range width.
    pub open spec fn wf(&self, config: WorkloadConfig) -> bool {
        &&& self.key_indices@.len() == config.operation_count
        &&& self.value_size_draws@.len() == config.operation_count
        &&& (forall|i: int|
            0 <= i < self.key_indices@.len() ==> 1 <= #[trigger] self.key_indices@[i]
                <= config.load_insert_count)
        &&& (forall|i: int|
            0 <= i < self.value_size_draws@.len() ==> 1 <= #[trigger] self.value_size_draws@[i]
                <= config.value_size_max - config.value_size_min)
    }
}

/// One worker's slice of the run phase: `operation_count` operations, each
/// a read with probability `read_ppm`/`MIX_SCALE`, a write with probability
/// `write_ppm`/`MIX_SCALE`, and otherwise an explicit skip. Reads and
/// writes target the fixed key of the operation's pre-sampled index; write
/// values take fresh bytes of the pre-sampled size (deliberately the raw
/// draw, without the range floor the load phase adds). Each backend call
/// is timed and recorded. A backend failure aborts the worker at once.
///
/// On success, histogram counts equal operation counts, reads and writes
/// together never exceed `operation_count`, and they equal it exactly
/// whenever the mix fills the whole scale (no gap to skip).
pub fn run_worker<D: Database>(
    db: &D,
    config: &WorkloadConfig,
    input: &WorkerInput,
) -> (r: Result<RunResult, DbError>)
    requires
        config.wf(),
        config.sizes_fit(),
        input.wf(*config),
    ensures
        r is Ok ==> (r->Ok_0).wf(),
        r is Ok ==> r->Ok_0.read_ops + r->Ok_0.write_ops <= config.operation_count,
        r is Ok && config.read_ppm + config.write_ppm == MIX_SCALE ==> r->Ok_0.read_ops
            + r->Ok_0.write_ops == config.operation_count,
        r is Ok ==> all_within_bound(r->Ok_0.read_hist@) && all_within_bound(r->Ok_0.write_hist@),
        config.operation_count == 0 ==> r is Ok && r->Ok_0.read_ops == 0
            && r->Ok_0.write_ops == 0 && r->Ok_0.read_time_micros == 0
            && r->Ok_0.write_time_micros == 0
            && r->Ok_0.read_hist@ == Multiset::<u64>::empty()
            && r->Ok_0.write_hist@ == Multiset::<u64>::empty(),
{
    let mut result = RunResult::new();
    let mut skipped: u64 = 0;
    let mut mix_rng = rng_from_seed(input.mix_seed);
    let mut value_gen = ByteGen::new(input.value_seed);
    let key_size = config.key_size as usize;
    let mut op: u64 = 0;
    while op < config.operation_count
        invariant
            config.wf(),
            config.sizes_fit(),
            input.wf(*config),
            0 <= op <= config.operation_count,
            key_size == config.key_size,
            result.wf(),
            result.read_ops + result.write_ops + skipped == op,
            config.read_ppm + config.write_ppm == MIX_SCALE ==> skipped == 0,
            all_within_bound(result.read_hist@),
            all_within_bound(result.write_hist@),
            op == 0 ==> result.read_time_micros == 0 && result.write_time_micros == 0
                && result.read_hist@ == Multiset::<u64>::empty()
                && result.write_hist@ == Multiset::<u64>::empty(),
        decreases config.operation_count - op,
    {
        let x = random_below(&mut mix_rng, MIX_SCALE);
        let key = ByteGen::get_key_bytes(input.key_indices[op as usize], key_size);
        if x < config.read_ppm {
            let t0 = instant_now();
            match db.get(key.as_slice()) {
                Ok(_) => {},
                Err(e) => {
                    return Err(e);
                },
            }
            let el = micros_since(&t0);
            result.read_time_micros = add_micros(result.read_time_micros, el);
            proof {
                lemma_insert_within_bound(result.read_hist@, clamp_sample(el));
            }
            result.read_hist.record_clamped(el);
            result.read_ops = result.read_ops + 1;
        } else if x < config.read_ppm + config.write_ppm {
            let vs = input.value_size_draws[op as usize];
            let value = value_gen.get_value_bytes(vs as usize);
            let t0 = instant_now();
            match db.set(key.as_slice(), value.as_slice()) {
                Ok(_) => {},
                Err(e) => {
                    return Err(e);
                },
            }
            let el = micros_since(&t0);
            result.write_time_micros = add_micros(result.write_time_micros, el);
            proof {
                lemma_insert_within_bound(result.write_hist@, clamp_sample(el));
            }
            result.write_hist.record_clamped(el);
            result.write_ops = result.write_ops + 1;
        } else {
            skipped = skipped + 1;
        }
        op = op + 1;
    }
    Ok(result)
}

/// Run the whole run phase and record the merged outcome: one worker per
/// `thread_count`, each with its own inputs, all against the shared
/// backend, driven here one after another. The wall-clock span covers the
/// first worker's start to the last worker's end and is stored apart from
/// the summed per-worker durations. A worker failure fails the phase and
/// leaves the stats untouched.
///
/// An embedder that wants real parallelism instead runs `run_worker` on
/// its own threads and merges the collected results with
/// `WorkloadStats::record_run`; the merged outcome is the same, as merge
/// order does not matter.
///
/// On success the merged read and write counts total at most
/// `thread_count * operation_count`, and exactly that when the mix fills
/// the whole scale.
pub fn exec_run<D: Database>(
    db: &D,
    config: &WorkloadConfig,
    inputs: &Vec<WorkerInput>,
    stats: &mut WorkloadStats,
) -> (r: Result<(), DbError>)
    requires
        config.wf(),
        config.sizes_fit(),
        inputs@.len() == config.thread_count,
        forall|k: int| 0 <= k < inputs@.len() ==> (#[trigger] inputs@[k]).wf(*config),
        (config.thread_count as int) * (config.operation_count as int) <= u64::MAX,
    ensures
        r is Ok ==> final(stats).wf(),
        r is Ok ==> final(stats).run_read_ops + final(stats).run_write_ops
            <= (config.thread_count as int) * (config.operation_count as int),
        r is Ok && config.read_ppm + config.write_ppm == MIX_SCALE
            ==> final(stats).run_read_ops + final(stats).run_write_ops
                == (config.thread_count as int) * (config.operation_count as int),
        r is Ok ==> final(stats).load_time_micros == old(stats).load_time_micros
            && final(stats).load_ops == old(stats).load_ops,
        r is Ok ==> all_within_bound(final(stats).run_read_hist@) && all_within_bound(
            final(stats).run_write_hist@,
        ),
        config.operation_count == 0 || config.thread_count == 0 ==> r is Ok,
        r is Err ==> *final(stats) == *old(stats),
{
    let wall0 = instant_now();
    let mut results: Vec<RunResult> = Vec::new();
    let mut w: usize = 0;
    while w < inputs.len()
        invariant
            config.wf(),
            config.sizes_fit(),
            inputs@.len() == config.thread_count,
            forall|k: int| 0 <= k < inputs@.len() ==> (#[trigger] inputs@[k]).wf(*config),
            (config.thread_count as int) * (config.operation_count as int) <= u64::MAX,
            0 <= w <= inputs@.len(),
            results@.len() == w,
            forall|k: int| 0 <= k < results@.len() ==> (#[trigger] results@[k]).wf(),
            results_within_bound(results@),
            sum_read_ops(results@) >= 0,
            sum_write_ops(results@) >= 0,
            sum_read_ops(results@) + sum_write_ops(results@)
                <= (w as int) * (config.operation_count as int),
            config.read_ppm + config.write_ppm == MIX_SCALE ==> sum_read_ops(results@)
                + sum_write_ops(results@) == (w as int) * (config.operation_count as int),
        decreases inputs@.len() - w,
    {
        let res = match run_worker(db, config, &inputs[w]) {
            Ok(rr) => rr,
            Err(e) => {
                return Err(e);
            },
        };
        proof {
            let pushed = results@.push(res);
            assert(pushed.drop_last() =~= results@);
            assert(pushed.last() == res);
            assert(((w + 1) as int) * (config.operation_count as int)
                == (w as int) * (config.operation_count as int) + config.operation_count)
                by (nonlinear_arith);
        }
        results.push(res);
        w = w + 1;
    }
    let wall = micros_since(&wall0);
    proof {
        assert(results@.len() == config.thread_count);
    }
    stats.record_run(&results, wall);
    Ok(())
}

/// The selectable workload variants.
#[derive(Copy, Clone, PartialEq, Eq, Structural)]
pub enum WorkloadType {
    ReadWrite,
    ReadHeavy,
}

/// The descriptor of a workload variant, named after it and carrying that
/// preset's documented constants.
pub fn get_wl(wl: WorkloadType) -> (r: WorkloadConfig)
    ensures
        r.wf(),
        r.sizes_fit(),
        r.load_insert_count == 10_000,
        r.operation_count == 8_000,
        r.key_size == 128,
        r.value_size_min == 512,
        r.value_size_max == 1024,
        r.thread_count == 16,
        wl == WorkloadType::ReadWrite ==> r.name@ == "ReadWrite"@ && r.read_ppm == 500_000
            && r.write_ppm == 500_000,
        wl == WorkloadType::ReadHeavy ==> r.name@ == "ReadHeavy"@ && r.read_ppm == 950_000
            && r.write_ppm == 50_000,
{
    match wl {
        WorkloadType::ReadWrite => read_write::ReadWrite.config(),
        WorkloadType::ReadHeavy => read_heavy::ReadHeavy.config(),
    }
}

} // verus!
