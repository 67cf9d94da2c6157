//! Byte generation: deterministic keys, free-running value streams, and
//! number rendering.

use kvbench::generator::ByteGen;
use kvbench::render::format_count;
use kvbench::stats::throughput_ops_per_sec;

#[test]
fn key_bytes_are_deterministic_per_index() {
    let first = ByteGen::get_key_bytes(7, 16);
    let second = ByteGen::get_key_bytes(7, 16);
    assert_eq!(first.len(), 16);
    assert_eq!(first, second);
}

#[test]
fn key_bytes_differ_between_indices() {
    let a = ByteGen::get_key_bytes(7, 16);
    let b = ByteGen::get_key_bytes(8, 16);
    assert_ne!(a, b);
}

#[test]
fn load_pair_key_matches_the_fixed_key() {
    let (key, value) = ByteGen::get_load_pair(5, 8, 24);
    assert_eq!(key, ByteGen::get_key_bytes(5, 8));
    assert_eq!(key.len(), 8);
    assert_eq!(value.len(), 24);
}

#[test]
fn load_keys_are_pairwise_distinct() {
    let keys: Vec<Vec<u8>> = (0u64..100).map(|i| ByteGen::get_key_bytes(i, 8)).collect();
    for i in 0..keys.len() {
        for j in (i + 1)..keys.len() {
            assert_ne!(keys[i], keys[j]);
        }
    }
}

#[test]
fn value_bytes_advance_the_stream() {
    let mut g = ByteGen::new(99);
    let first = g.get_value_bytes(32);
    let second = g.get_value_bytes(32);
    assert_eq!(first.len(), 32);
    assert_eq!(second.len(), 32);
    assert_ne!(first, second);
    // a fresh generator with the same seed replays the same stream
    let mut g2 = ByteGen::new(99);
    assert_eq!(g2.get_value_bytes(32), first);
}

#[test]
fn counts_render_with_underscores() {
    assert_eq!(format_count(0), "0");
    assert_eq!(format_count(999), "999");
    assert_eq!(format_count(1_000), "1_000");
    assert_eq!(format_count(1_234_567), "1_234_567");
}

#[test]
fn throughput_formula_matches_expectations() {
    assert_eq!(throughput_ops_per_sec(1000, 1_000_000), 1000);
    assert_eq!(throughput_ops_per_sec(0, 5), 0);
    assert_eq!(throughput_ops_per_sec(5, 0), 0);
    assert_eq!(throughput_ops_per_sec(3, 2_000_000), 1);
    assert_eq!(throughput_ops_per_sec(1_500_000, 1_000_000), 1_500_000);
}
