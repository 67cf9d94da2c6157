//! Bounded latency histograms: recording, union merge, quantile queries.
//!
//! A `LatencyHist` is modelled as the multiset of microsecond samples
//! recorded into it. Quantile queries are computed here, in verified code,
//! from the histogram's quantized bins: the value at quantile q/1000 is the
//! value of the first bin at which the cumulative sample count reaches
//! max(ceil(total * q / 1000), 1).

use vstd::prelude::*;
use vstd::multiset::Multiset;
use vstd::arithmetic::div_mod::lemma_div_is_ordered;

verus! {

broadcast use vstd::multiset::group_multiset_axioms;

/// Highest latency, in microseconds, that a histogram can track.
pub const HIST_MAX_MICROS: u64 = 10_000_000;

/// The multiset of samples recorded into a histogram.
pub uninterp spec fn hist_contents(h: LatencyHist) -> Multiset<u64>;

/// The quantized bins of a sample multiset under this library's fixed
/// histogram configuration: for each non-empty bin, its highest equivalent
/// value and its sample count, in ascending value order.
pub uninterp spec fn bucket_summary(m: Multiset<u64>) -> Seq<(u64, u64)>;

/// Total sample count held by a sequence of bins.
pub open spec fn sum_counts(b: Seq<(u64, u64)>) -> int
    decreases b.len(),
{
    if b.len() == 0 {
        0
    } else {
        b[0].1 + sum_counts(b.drop_first())
    }
}

/// What `bucket_summary` always yields: strictly ascending bin values,
/// no empty bins, and counts that add up to the sample total.
pub open spec fn wf_buckets(b: Seq<(u64, u64)>, total: nat) -> bool {
    &&& (forall|i: int, j: int| 0 <= i < j < b.len() ==> (#[trigger] b[i]).0 < (#[trigger] b[j]).0)
    &&& (forall|i: int| 0 <= i < b.len() ==> (#[trigger] b[i]).1 >= 1)
    &&& sum_counts(b) == total
}

/// The sample rank a quantile query must reach: ceil(total * q / 1000), but
/// at least the first recorded sample.
pub open spec fn quantile_target(total: nat, q_permille: int) -> int {
    let t = (total * q_permille + 999) / 1000;
    if t < 1 {
        1
    } else {
        t
    }
}

/// The value of the first bin at which the cumulative count reaches `need`.
pub open spec fn value_at_rank(b: Seq<(u64, u64)>, need: int) -> u64
    decreases b.len(),
{
    if b.len() == 0 {
        0
    } else if b[0].1 >= need {
        b[0].0
    } else {
        value_at_rank(b.drop_first(), need - b[0].1)
    }
}

/// The value at quantile `q_permille`/1000 of a distribution with bins `b`
/// and `total` samples.
pub open spec fn quantile_value(b: Seq<(u64, u64)>, total: nat, q_permille: int) -> u64 {
    value_at_rank(b, quantile_target(total, q_permille))
}

proof fn lemma_value_at_rank_in_buckets(b: Seq<(u64, u64)>, need: int)
    requires
        b.len() > 0,
        1 <= need <= sum_counts(b),
        forall|i: int| 0 <= i < b.len() ==> (#[trigger] b[i]).1 >= 1,
    ensures
        exists|i: int| 0 <= i < b.len() && value_at_rank(b, need) == (#[trigger] b[i]).0,
    decreases b.len(),
{
    if b[0].1 >= need {
        assert(value_at_rank(b, need) == b[0].0);
    } else {
        let t = b.drop_first();
        assert(forall|i: int| 0 <= i < t.len() ==> (#[trigger] t[i]).1 >= 1) by {
            assert(forall|i: int| 0 <= i < t.len() ==> #[trigger] t[i] == b[i + 1]);
        }
        assert(sum_counts(b) == b[0].1 + sum_counts(t));
        if t.len() == 0 {
            assert(sum_counts(t) == 0);
        }
        lemma_value_at_rank_in_buckets(t, need - b[0].1);
        let j = choose|j: int| 0 <= j < t.len() && value_at_rank(t, need - b[0].1) == (#[trigger] t[j]).0;
        assert(b[j + 1] == t[j]);
    }
}

proof fn lemma_value_at_rank_monotone(b: Seq<(u64, u64)>, n1: int, n2: int)
    requires
        1 <= n1 <= n2 <= sum_counts(b),
        forall|i: int| 0 <= i < b.len() ==> (#[trigger] b[i]).1 >= 1,
        forall|i: int, j: int| 0 <= i < j < b.len() ==> (#[trigger] b[i]).0 < (#[trigger] b[j]).0,
    ensures
        value_at_rank(b, n1) <= value_at_rank(b, n2),
    decreases b.len(),
{
    if b.len() == 0 {
        assert(sum_counts(b) == 0);
    } else if b[0].1 >= n2 {
        assert(value_at_rank(b, n1) == b[0].0);
    } else {
        let t = b.drop_first();
        assert(forall|i: int| 0 <= i < t.len() ==> #[trigger] t[i] == b[i + 1]);
        assert(sum_counts(b) == b[0].1 + sum_counts(t));
        if t.len() == 0 {
            assert(sum_counts(t) == 0);
        }
        if b[0].1 >= n1 {
            assert(value_at_rank(b, n1) == b[0].0);
            lemma_value_at_rank_in_buckets(t, n2 - b[0].1);
            let j = choose|j: int| 0 <= j < t.len() && value_at_rank(t, n2 - b[0].1) == (#[trigger] t[j]).0;
            assert(b[0].0 < b[j + 1].0);
        } else {
            lemma_value_at_rank_monotone(t, n1 - b[0].1, n2 - b[0].1);
        }
    }
}

/// Percentile monotonicity: on one non-empty latency distribution, a lower
/// quantile never maps to a larger value than a higher quantile.
pub proof fn lemma_percentile_monotone(b: Seq<(u64, u64)>, total: nat, q1: int, q2: int)
    requires
        wf_buckets(b, total),
        total > 0,
        0 <= q1 <= q2 <= 1000,
    ensures
        quantile_value(b, total, q1) <= quantile_value(b, total, q2),
{
    let t = total as int;
    assert(t * q1 <= t * q2) by (nonlinear_arith)
        requires
            q1 <= q2,
            t >= 0,
    ;
    lemma_div_is_ordered(t * q1 + 999, t * q2 + 999, 1000);
    assert(t * q2 <= t * 1000) by (nonlinear_arith)
        requires
            q2 <= 1000,
            t >= 0,
    ;
    lemma_div_is_ordered(t * q2 + 999, t * 1000 + 999, 1000);
    assert((t * 1000 + 999) / 1000 == t) by (nonlinear_arith)
        requires
            t > 0,
    ;
    let t1 = quantile_target(total, q1);
    let t2 = quantile_target(total, q2);
    assert(1 <= t1 <= t2 <= total);
    lemma_value_at_rank_monotone(b, t1, t2);
}

/// Merging two sample sets is commutative: either order yields the same
/// combined distribution.
pub proof fn lemma_merge_commutative(a: Multiset<u64>, b: Multiset<u64>)
    ensures
        a.add(b) == b.add(a),
{
    assert(a.add(b) =~= b.add(a));
}

/// Merging sample sets is associative: grouping does not matter.
pub proof fn lemma_merge_associative(a: Multiset<u64>, b: Multiset<u64>, c: Multiset<u64>)
    ensures
        a.add(b).add(c) == a.add(b.add(c)),
{
    assert(a.add(b).add(c) =~= a.add(b.add(c)));
}

/// Quantile outputs of a merged distribution do not depend on the order in
/// which the two parts were merged.
pub proof fn lemma_merge_order_irrelevant(a: Multiset<u64>, b: Multiset<u64>, total: nat, q: int)
    ensures
        quantile_value(bucket_summary(a.add(b)), total, q)
            == quantile_value(bucket_summary(b.add(a)), total, q),
{
    lemma_merge_commutative(a, b);
}

/// A bounded histogram of per-operation latencies in microseconds, over the
/// range 1..=10,000,000 with 3 significant decimal digits of precision.
/// The interior is a bin-count structure of the hdrhistogram crate, opaque
/// here; this library reads it only through the accessors below.
#[verifier::external_body]
pub struct LatencyHist {
    inner: hdrhistogram::Histogram<u64>,
}

impl View for LatencyHist {
    type V = Multiset<u64>;

    closed spec fn view(&self) -> Multiset<u64> {
        hist_contents(*self)
    }
}

/// Relies on hdrhistogram's `Histogram::new_with_bounds`: the bounds
/// 1..=10,000,000 with 3 significant digits are valid, and a freshly built
/// histogram has no recorded samples.
#[verifier::external_body]
fn fresh_hist() -> (h: LatencyHist)
    ensures
        hist_contents(h) == Multiset::<u64>::empty(),
{
    LatencyHist { inner: hdrhistogram::Histogram::new_with_bounds(1, 10_000_000, 3).unwrap() }
}

/// Relies on hdrhistogram's `Histogram::record`: a value no greater than
/// the highest trackable value is always accepted, adding one sample.
#[verifier::external_body]
fn record_raw(h: &mut LatencyHist, value: u64)
    requires
        value <= HIST_MAX_MICROS,
        old(h)@.len() < u64::MAX,
    ensures
        hist_contents(*final(h)) == hist_contents(*old(h)).insert(value),
{
    h.inner.record(value).unwrap();
}

/// Relies on hdrhistogram's `Histogram::add`: all `LatencyHist`s are built
/// with identical bounds, so their bucket layouts match, the addition
/// succeeds, and the sample multisets combine.
#[verifier::external_body]
fn add_raw(h: &mut LatencyHist, other: &LatencyHist)
    requires
        old(h)@.len() + other@.len() <= u64::MAX,
    ensures
        hist_contents(*final(h)) == hist_contents(*old(h)).add(hist_contents(*other)),
{
    h.inner.add(&other.inner).unwrap();
}

/// Relies on hdrhistogram's `Histogram::len`: the total number of recorded
/// samples.
#[verifier::external_body]
fn total_raw(h: &LatencyHist) -> (r: u64)
    ensures
        r == hist_contents(*h).len(),
{
    h.inner.len()
}

/// Relies on hdrhistogram's `iter_recorded`: it visits exactly the
/// non-empty bins in ascending value order, yielding each bin's highest
/// equivalent value and the sample count it holds.
#[verifier::external_body]
fn buckets_raw(h: &LatencyHist) -> (r: Vec<(u64, u64)>)
    ensures
        r@ == bucket_summary(hist_contents(*h)),
        wf_buckets(r@, hist_contents(*h).len()),
{
    h.inner.iter_recorded().map(|v| (v.value_iterated_to(), v.count_since_last_iteration())).collect()
}

impl LatencyHist {
    /// An empty latency histogram.
    pub fn new() -> (h: LatencyHist)
        ensures
            h@ == Multiset::<u64>::empty(),
    {
        fresh_hist()
    }

    /// Record one latency sample, clamped to the histogram's upper bound so
    /// that an extreme outlier saturates instead of corrupting the counts.
    pub fn record_clamped(&mut self, micros: u64)
        requires
            old(self)@.len() < u64::MAX,
        ensures
            final(self)@ == old(self)@.insert(clamp_sample(micros)),
    {
        let v = if micros > HIST_MAX_MICROS {
            HIST_MAX_MICROS
        } else {
            micros
        };
        record_raw(self, v);
    }

    /// Number of recorded samples.
    pub fn total(&self) -> (r: u64)
        ensures
            r == self@.len(),
    {
        total_raw(self)
    }

    /// Merge by union: the other histogram's samples are added to this one,
    /// so later quantile queries reflect the combined distribution.
    pub fn merge_from(&mut self, other: &LatencyHist)
        requires
            old(self)@.len() + other@.len() <= u64::MAX,
        ensures
            final(self)@ == old(self)@.add(other@),
    {
        add_raw(self, other);
    }

    /// The value at quantile `q_permille`/1000 of the recorded samples, or
    /// the no-data sentinel `None` when nothing was recorded.
    pub fn value_at_quantile(&self, q_permille: u64) -> (r: Option<u64>)
        requires
            q_permille <= 1000,
        ensures
            r is None <==> self@.len() == 0,
            self@.len() > 0 ==> r == Some::<u64>(
                quantile_value(bucket_summary(self@), self@.len(), q_permille as int),
            ),
            wf_buckets(bucket_summary(self@), self@.len()),
    {
        let bs = buckets_raw(self);
        let total = total_raw(self);
        if total == 0 {
            return None;
        }
        proof {
            assert((total as int) * (q_permille as int) <= u64::MAX as int * 1000)
                by (nonlinear_arith)
                requires
                    0 <= total as int <= u64::MAX as int,
                    0 <= q_permille as int <= 1000,
            ;
        }
        let wide: u128 = (total as u128) * (q_permille as u128) + 999;
        let need_wide: u128 = wide / 1000;
        proof {
            let t = total as int;
            assert(wide == t * q_permille + 999);
            assert(need_wide == (t * q_permille + 999) / 1000);
            assert(t * q_permille <= t * 1000) by (nonlinear_arith)
                requires
                    q_permille <= 1000,
                    t >= 0,
            ;
            lemma_div_is_ordered(t * q_permille + 999, t * 1000 + 999, 1000);
            assert((t * 1000 + 999) / 1000 == t) by (nonlinear_arith)
                requires
                    t > 0,
            ;
            assert(need_wide <= total);
        }
        let mut need: u64 = need_wide as u64;
        if need == 0 {
            need = 1;
        }
        proof {
            assert(need == quantile_target(self@.len(), q_permille as int));
        }
        let ghost need0: int = need as int;
        let mut i: usize = 0;
        let mut remaining: u64 = need;
        proof {
            assert(bs@.skip(0) =~= bs@);
        }
        while i < bs.len()
            invariant
                bs@ == bucket_summary(self@),
                wf_buckets(bs@, self@.len()),
                self@.len() > 0,
                need0 == quantile_target(self@.len(), q_permille as int),
                0 <= i <= bs.len(),
                1 <= remaining,
                remaining <= sum_counts(bs@.skip(i as int)),
                value_at_rank(bs@.skip(i as int), remaining as int) == value_at_rank(bs@, need0),
            decreases bs.len() - i,
        {
            let (v, c) = bs[i];
            proof {
                assert(bs@.skip(i as int)[0] == bs@[i as int]);
            }
            if c >= remaining {
                proof {
                    assert(value_at_rank(bs@.skip(i as int), remaining as int) == v);
                }
                return Some(v);
            }
            proof {
                let s = bs@.skip(i as int);
                assert(s.drop_first() =~= bs@.skip(i as int + 1));
                assert(sum_counts(s) == s[0].1 + sum_counts(s.drop_first()));
                assert(value_at_rank(s, remaining as int)
                    == value_at_rank(s.drop_first(), remaining - s[0].1));
            }
            remaining = remaining - c;
            i = i + 1;
        }
        proof {
            assert(bs@.skip(bs@.len() as int).len() == 0);
            assert(sum_counts(bs@.skip(i as int)) == 0);
            assert(false);
        }
        None
    }
}

/// Every sample of the set lies within the histogram's trackable range:
/// what clamping on entry guarantees, so that an extreme outlier can never
/// corrupt the aggregate counts.
pub open spec fn all_within_bound(m: Multiset<u64>) -> bool {
    forall|v: u64| m.count(v) > 0 ==> v <= HIST_MAX_MICROS
}

/// Clamped recording preserves the sample bound.
pub proof fn lemma_insert_within_bound(m: Multiset<u64>, v: u64)
    requires
        all_within_bound(m),
        v <= HIST_MAX_MICROS,
    ensures
        all_within_bound(m.insert(v)),
{
    assert forall|x: u64| m.insert(v).count(x) > 0 implies x <= HIST_MAX_MICROS by {
        if x != v {
            assert(m.insert(v).count(x) == m.count(x));
        }
    }
}

/// Union merging preserves the sample bound.
pub proof fn lemma_add_within_bound(a: Multiset<u64>, b: Multiset<u64>)
    requires
        all_within_bound(a),
        all_within_bound(b),
    ensures
        all_within_bound(a.add(b)),
{
    assert forall|x: u64| a.add(b).count(x) > 0 implies x <= HIST_MAX_MICROS by {
        assert(a.add(b).count(x) == a.count(x) + b.count(x));
    }
}

/// A latency sample as it enters the histogram: values beyond the trackable
/// range saturate at the upper bound.
pub open spec fn clamp_sample(micros: u64) -> u64 {
    if micros > HIST_MAX_MICROS {
        HIST_MAX_MICROS
    } else {
        micros
    }
}

} // verus!
