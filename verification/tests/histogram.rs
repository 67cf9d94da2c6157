//! Histogram behaviour: recording, quantile queries, merge laws.

use kvbench::hist::LatencyHist;

fn hist_of(values: &[u64]) -> LatencyHist {
    let mut h = LatencyHist::new();
    for &v in values {
        h.record_clamped(v);
    }
    h
}

fn quantiles(h: &LatencyHist) -> [Option<u64>; 4] {
    [
        h.value_at_quantile(500),
        h.value_at_quantile(950),
        h.value_at_quantile(990),
        h.value_at_quantile(999),
    ]
}

#[test]
fn quantiles_of_ten_known_samples() {
    let h = hist_of(&[1, 2, 3, 4, 5, 6, 7, 8, 9, 10]);
    assert_eq!(h.total(), 10);
    // rank ceil(10 * 500 / 1000) = 5 -> the fifth smallest sample
    assert_eq!(h.value_at_quantile(500), Some(5));
    // rank ceil(10 * 950 / 1000) = 10 -> the largest sample
    assert_eq!(h.value_at_quantile(950), Some(10));
    assert_eq!(h.value_at_quantile(999), Some(10));
    assert_eq!(h.value_at_quantile(0), Some(1));
    assert_eq!(h.value_at_quantile(1000), Some(10));
}

#[test]
fn empty_histogram_yields_the_sentinel() {
    let h = LatencyHist::new();
    assert_eq!(h.total(), 0);
    assert_eq!(h.value_at_quantile(500), None);
    assert_eq!(h.value_at_quantile(999), None);
}

#[test]
fn outliers_saturate_at_the_upper_bound() {
    let mut h = LatencyHist::new();
    h.record_clamped(123_456_789_000);
    assert_eq!(h.total(), 1);
    // the sample lands in the topmost bin, whose quantized value sits
    // within the bin width of the 10,000,000 bound
    let p50 = h.value_at_quantile(500).unwrap();
    assert!(p50 >= 9_990_000);
    assert!(p50 <= 10_010_000);
}

#[test]
fn percentiles_are_monotone() {
    let h = hist_of(&[3, 3, 7, 50, 50, 1200, 1200, 1201, 90_000, 2_000_000, 14]);
    let [p50, p95, p99, p999] = quantiles(&h);
    assert!(p50.unwrap() <= p95.unwrap());
    assert!(p95.unwrap() <= p99.unwrap());
    assert!(p99.unwrap() <= p999.unwrap());
}

#[test]
fn merge_is_commutative_and_associative() {
    let a = [1u64, 5, 9, 200, 200, 3567];
    let b = [2u64, 2, 77, 4096];
    let c = [888u64, 888, 888, 1_000_000, 3];

    // (a + b) + c
    let mut m1 = hist_of(&a);
    let hb = hist_of(&b);
    m1.merge_from(&hb);
    let hc = hist_of(&c);
    m1.merge_from(&hc);

    // a + (b + c)
    let mut bc = hist_of(&b);
    bc.merge_from(&hist_of(&c));
    let mut m2 = hist_of(&a);
    m2.merge_from(&bc);

    // c + b + a, fully reversed
    let mut m3 = hist_of(&c);
    m3.merge_from(&hist_of(&b));
    m3.merge_from(&hist_of(&a));

    assert_eq!(m1.total(), (a.len() + b.len() + c.len()) as u64);
    assert_eq!(m2.total(), m1.total());
    assert_eq!(m3.total(), m1.total());
    assert_eq!(quantiles(&m1), quantiles(&m2));
    assert_eq!(quantiles(&m1), quantiles(&m3));
}

#[test]
fn merge_with_empty_changes_nothing() {
    let mut h = hist_of(&[10, 20, 30]);
    let before = quantiles(&h);
    h.merge_from(&LatencyHist::new());
    assert_eq!(h.total(), 3);
    assert_eq!(quantiles(&h), before);
}
