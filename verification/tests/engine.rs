//! End-to-end engine behaviour: descriptor validation, the load phase, the
//! run phase, and the report derived from the stats.

use kvbench::database::{get_db, get_db_name, Database, DatabaseType, MemBTree};
use kvbench::generator::ByteGen;
use kvbench::render::{format_count, percentile_field};
use kvbench::stats::WorkloadStats;
use kvbench::workload::{
    exec_load, exec_run, get_wl, run_worker, validate_config, ConfigError, WorkerInput,
    WorkloadConfig, WorkloadType,
};
use rand::distr::Distribution;
use rand::rngs::SmallRng;
use rand::SeedableRng;
use rand_distr::Zipf;

fn zipf_draws(n: u64, count: usize, seed: u64) -> Vec<u64> {
    let z = Zipf::new(n as f64, 1.0).unwrap();
    let mut rng = SmallRng::seed_from_u64(seed);
    (0..count).map(|_| z.sample(&mut rng) as u64).collect()
}

fn small_config(load: u64, ops: u64, read_ppm: u64, write_ppm: u64, threads: u32) -> WorkloadConfig {
    WorkloadConfig::new(
        "small".to_string(),
        load,
        ops,
        read_ppm,
        write_ppm,
        8,
        16,
        32,
        threads,
    )
    .unwrap()
}

fn worker_inputs(config: &WorkloadConfig, base_seed: u64) -> Vec<WorkerInput> {
    (0..config.thread_count as u64)
        .map(|w| WorkerInput {
            key_indices: zipf_draws(
                config.load_insert_count,
                config.operation_count as usize,
                base_seed + 2 * w,
            ),
            value_size_draws: zipf_draws(
                config.value_size_max - config.value_size_min,
                config.operation_count as usize,
                base_seed + 2 * w + 1,
            ),
            mix_seed: base_seed + 100 + w,
            value_seed: base_seed + 200 + w,
        })
        .collect()
}

#[test]
fn invalid_read_share_is_rejected() {
    let r = WorkloadConfig::new("bad".to_string(), 10, 10, 1_200_000, 0, 8, 16, 32, 1);
    assert!(matches!(r, Err(ConfigError::ReadShareOutOfRange)));
}

#[test]
fn invalid_write_share_is_rejected() {
    let r = WorkloadConfig::new("bad".to_string(), 10, 10, 100_000, 1_000_001, 8, 16, 32, 1);
    assert!(matches!(r, Err(ConfigError::WriteShareOutOfRange)));
}

#[test]
fn empty_mix_is_rejected() {
    let r = WorkloadConfig::new("bad".to_string(), 10, 10, 0, 0, 8, 16, 32, 1);
    assert!(matches!(r, Err(ConfigError::EmptyMix)));
}

#[test]
fn oversubscribed_mix_is_rejected() {
    let r = WorkloadConfig::new("bad".to_string(), 10, 10, 600_000, 600_000, 8, 16, 32, 1);
    assert!(matches!(r, Err(ConfigError::OversubscribedMix)));
}

#[test]
fn partial_mix_is_accepted() {
    let r = WorkloadConfig::new("ok".to_string(), 10, 10, 300_000, 300_000, 8, 16, 32, 1);
    assert!(r.is_ok());
    let c = r.unwrap();
    assert!(validate_config(&c).is_ok());
}

#[test]
fn load_populates_exactly_n_distinct_keys() {
    let config = small_config(100, 0, 500_000, 500_000, 1);
    let draws = zipf_draws(config.value_size_max - config.value_size_min, 100, 42);
    let db = MemBTree::new();
    let mut stats = WorkloadStats::new();
    exec_load(&db, &config, &draws, &mut stats).unwrap();
    assert_eq!(stats.load_ops, 100);
    assert_eq!(db.len(), 100);
    // loading again writes the same key universe: still 100 distinct keys
    exec_load(&db, &config, &draws, &mut stats).unwrap();
    assert_eq!(db.len(), 100);
}

#[test]
fn run_phase_issues_all_operations() {
    // a complete mix partitions every draw into a read or a write
    let config = small_config(100, 50, 500_000, 500_000, 4);
    let db = MemBTree::new();
    let mut stats = WorkloadStats::new();
    let load_draws = zipf_draws(config.value_size_max - config.value_size_min, 100, 7);
    exec_load(&db, &config, &load_draws, &mut stats).unwrap();
    let inputs = worker_inputs(&config, 1000);
    exec_run(&db, &config, &inputs, &mut stats).unwrap();
    assert_eq!(stats.run_read_ops + stats.run_write_ops, 200);
    assert_eq!(stats.run_read_hist.total(), stats.run_read_ops);
    assert_eq!(stats.run_write_hist.total(), stats.run_write_ops);
}

#[test]
fn end_to_end_scenario_reports_all_percentiles() {
    let config = small_config(100, 50, 500_000, 500_000, 4);
    let db = get_db(DatabaseType::MemBtree).unwrap();
    let mut stats = WorkloadStats::new();
    let load_draws = zipf_draws(config.value_size_max - config.value_size_min, 100, 9);
    exec_load(&db, &config, &load_draws, &mut stats).unwrap();
    let inputs = worker_inputs(&config, 2000);
    exec_run(&db, &config, &inputs, &mut stats).unwrap();
    let report = stats.report();
    assert_eq!(report.load.ops, 100);
    assert_eq!(report.read.ops + report.write.ops, 200);
    assert!(report.read.p50.is_some());
    assert!(report.read.p95.is_some());
    assert!(report.read.p99.is_some());
    assert!(report.read.p999.is_some());
    assert!(report.write.p50.is_some());
    assert!(report.write.p95.is_some());
    assert!(report.write.p99.is_some());
    assert!(report.write.p999.is_some());
}

#[test]
fn empty_run_renders_no_data_sentinel() {
    let config = small_config(10, 0, 500_000, 500_000, 4);
    let db = MemBTree::new();
    let mut stats = WorkloadStats::new();
    let inputs: Vec<WorkerInput> = (0..4)
        .map(|w| WorkerInput {
            key_indices: Vec::new(),
            value_size_draws: Vec::new(),
            mix_seed: w,
            value_seed: w + 10,
        })
        .collect();
    exec_run(&db, &config, &inputs, &mut stats).unwrap();
    let report = stats.report();
    assert!(report.read.p50.is_none());
    assert!(report.write.p999.is_none());
    assert_eq!(percentile_field(report.read.p50), "-");
    assert_eq!(percentile_field(report.write.p999), "-");
}

#[test]
fn throughput_of_thousand_ops_in_one_second() {
    let mut stats = WorkloadStats::new();
    stats.record_load(1_000_000, 1000);
    let report = stats.report();
    assert_eq!(report.load.throughput, 1000);
    assert_eq!(format_count(report.load.throughput), "1_000");
}

#[test]
fn run_worker_values_use_the_raw_draw() {
    // a worker with a write-only mix issues exactly operation_count writes
    let config = small_config(10, 20, 0, 1_000_000, 1);
    let db = MemBTree::new();
    let mut stats = WorkloadStats::new();
    let load_draws = zipf_draws(16, 10, 3);
    exec_load(&db, &config, &load_draws, &mut stats).unwrap();
    let inputs = worker_inputs(&config, 77);
    exec_run(&db, &config, &inputs, &mut stats).unwrap();
    assert_eq!(stats.run_read_ops, 0);
    assert_eq!(stats.run_write_ops, 20);
}

#[test]
fn get_db_provides_only_the_in_memory_backend() {
    assert!(get_db(DatabaseType::MemBtree).is_ok());
    assert!(get_db(DatabaseType::Redb).is_err());
    assert!(get_db(DatabaseType::Sled).is_err());
    assert_eq!(get_db_name(DatabaseType::MemBtree), "MemBtree");
    assert_eq!(get_db_name(DatabaseType::Redb), "Redb");
    assert_eq!(get_db_name(DatabaseType::Sled), "Sled");
}

#[test]
fn presets_describe_the_documented_workloads() {
    let rh = get_wl(WorkloadType::ReadHeavy);
    assert_eq!(rh.name, "ReadHeavy");
    assert_eq!(rh.read_ppm, 950_000);
    assert_eq!(rh.write_ppm, 50_000);
    assert_eq!(rh.load_insert_count, 10_000);
    assert_eq!(rh.operation_count, 8_000);
    assert_eq!(rh.key_size, 128);
    assert_eq!(rh.value_size_min, 512);
    assert_eq!(rh.value_size_max, 1024);
    assert_eq!(rh.thread_count, 16);
    let rw = get_wl(WorkloadType::ReadWrite);
    assert_eq!(rw.name, "ReadWrite");
    assert_eq!(rw.read_ppm, 500_000);
    assert_eq!(rw.write_ppm, 500_000);
    assert_eq!(rw.thread_count, 16);
}

#[test]
fn backend_calls_succeed_on_the_in_memory_store() {
    let db = MemBTree::new();
    db.init().unwrap();
    db.set(b"alpha", b"one").unwrap();
    db.set(b"alpha", b"two").unwrap();
    db.set(b"beta", b"three").unwrap();
    db.get(b"alpha").unwrap();
    db.get(b"missing").unwrap();
    assert_eq!(db.len(), 2);
    let key = ByteGen::get_key_bytes(3, 8);
    db.set(key.as_slice(), b"payload").unwrap();
    assert_eq!(db.len(), 3);
}

#[test]
fn worker_with_no_operations_succeeds() {
    let config = small_config(10, 0, 500_000, 500_000, 1);
    let db = MemBTree::new();
    let input = WorkerInput {
        key_indices: Vec::new(),
        value_size_draws: Vec::new(),
        mix_seed: 1,
        value_seed: 2,
    };
    let result = run_worker(&db, &config, &input).unwrap();
    assert_eq!(result.read_ops, 0);
    assert_eq!(result.write_ops, 0);
    assert_eq!(result.read_time_micros, 0);
    assert_eq!(result.write_time_micros, 0);
    assert_eq!(result.read_hist.total(), 0);
    assert_eq!(result.write_hist.total(), 0);
}
