//! The statistics engine: reduces the latency samples of one phase to a
//! summary (count, min, max, sum, average, bandwidth, percentiles).
//!
//! Samples are durations in whole nanoseconds. Every figure is an exact
//! integer; the caller that renders a report divides by `NANOS_PER_SECOND`.

use vstd::prelude::*;
use crate::duration::NANOS_PER_SECOND;
use vstd::relations::{sorted_by, total_ordering};
use vstd::seq_lib::{group_to_multiset_ensures, lemma_sorted_unique, to_multiset_remove};

verus! {

/// Number of percentile cut points in a histogram.
pub const CUT_POINTS: usize = 5;

/// Histogram slot of the 50th percentile.
pub const FIFTY: usize = 0;

/// Histogram slot of the 70th percentile.
pub const SEVENTY: usize = 1;

/// Histogram slot of the 90th percentile.
pub const NINETY: usize = 2;

/// Histogram slot of the 95th percentile.
pub const NINETY5: usize = 3;

/// Histogram slot of the 99th percentile.
pub const NINETY9: usize = 4;

/// Why a summary could not be computed.
#[derive(Clone, Copy, Debug, PartialEq, Eq, Structural)]
pub enum StatsError {
    /// The sample collection was empty.
    InvalidInput,
}

/// The order by which samples are sorted.
pub open spec fn sample_leq() -> spec_fn(u64, u64) -> bool {
    |a: u64, b: u64| a <= b
}

/// The samples in ascending order.
pub open spec fn ascending(samples: Seq<u64>) -> Seq<u64> {
    samples.sort_by(sample_leq())
}

/// The sum of a sequence of samples.
pub open spec fn total(samples: Seq<u64>) -> nat
    decreases samples.len(),
{
    if samples.len() == 0 {
        0
    } else {
        total(samples.drop_last()) + samples.last() as nat
    }
}

/// The percentage of the cut point held in a histogram slot.
pub open spec fn cut_point(slot: int) -> nat {
    if slot == 0 {
        50
    } else if slot == 1 {
        70
    } else if slot == 2 {
        90
    } else if slot == 3 {
        95
    } else {
        99
    }
}

/// Nearest-rank index of a percentile among `count` sorted samples:
/// `floor(count * percent / 100)`, clamped to `[0, count - 1]`.
pub open spec fn percentile_index(count: nat, percent: nat) -> int {
    let raw = (count * percent) / 100;
    if raw >= count {
        count - 1
    } else {
        raw as int
    }
}

/// Bytes per second, rounded down: `bytes / (sum / NANOS_PER_SECOND)`. There is
/// no figure when the summed latency is zero or when the scaled byte count
/// does not fit 128 bits.
pub open spec fn bandwidth_of(bytes: nat, sum: nat) -> Option<nat> {
    if sum == 0 || bytes * NANOS_PER_SECOND as nat > u128::MAX {
        None
    } else {
        Some((bytes * NANOS_PER_SECOND as nat) / sum)
    }
}

/// The mathematical content of a summary.
pub struct Summary {
    pub category: Seq<char>,
    pub num_samples: nat,
    pub min: nat,
    pub max: nat,
    pub sum: nat,
    pub average: nat,
    pub bytes: nat,
    pub bandwidth: Option<nat>,
    pub histogram: Seq<nat>,
}

/// The summary of a non-empty sample collection for objects of `obj_size`
/// bytes.
pub open spec fn summarize(category: Seq<char>, samples: Seq<u64>, obj_size: nat) -> Summary
    recommends
        samples.len() > 0,
{
    let sorted = ascending(samples);
    let count = samples.len();
    Summary {
        category,
        num_samples: count,
        min: sorted[0] as nat,
        max: sorted[count - 1] as nat,
        sum: total(samples),
        average: total(samples) / count,
        bytes: count * obj_size,
        bandwidth: bandwidth_of(count * obj_size, total(samples)),
        histogram: Seq::new(
            CUT_POINTS as nat,
            |slot: int| sorted[percentile_index(count, cut_point(slot))] as nat,
        ),
    }
}

/// `<=` on samples is a total order.
pub proof fn lemma_sample_leq_total()
    ensures
        total_ordering(sample_leq()),
{
}

/// Sorting keeps the samples and their number, and puts them in ascending
/// order.
pub proof fn lemma_ascending(samples: Seq<u64>)
    ensures
        ascending(samples).len() == samples.len(),
        ascending(samples).to_multiset() == samples.to_multiset(),
        forall|i: int, j: int|
            0 <= i <= j < samples.len() ==> ascending(samples)[i] <= ascending(samples)[j],
{
    broadcast use group_to_multiset_ensures;

    lemma_sample_leq_total();
    samples.lemma_sort_by_ensures(sample_leq());
    let sorted = ascending(samples);
    assert(sorted.to_multiset().len() == sorted.len());
    assert(samples.to_multiset().len() == samples.len());
    assert forall|i: int, j: int| 0 <= i <= j < samples.len() implies sorted[i] <= sorted[j] by {
        if i < j {
            assert(sample_leq()(sorted[i], sorted[j]));
        }
    }
}

/// A sequence that is in ascending order and holds the same samples as
/// `samples` is `ascending(samples)`.
pub proof fn lemma_ascending_unique(sorted: Seq<u64>, samples: Seq<u64>)
    requires
        sorted_by(sorted, sample_leq()),
        sorted.to_multiset() == samples.to_multiset(),
    ensures
        sorted == ascending(samples),
{
    lemma_sample_leq_total();
    samples.lemma_sort_by_ensures(sample_leq());
    lemma_sorted_unique(sorted, ascending(samples), sample_leq());
}

/// The nearest-rank index always falls inside the collection.
pub proof fn lemma_percentile_index_bounds(count: nat, percent: nat)
    requires
        count >= 1,
    ensures
        0 <= percentile_index(count, percent) < count,
{
}

/// For cut points below 100 the nearest-rank index needs no clamping, and
/// a larger cut point gives an index that is no smaller.
pub proof fn lemma_percentile_index_monotone(count: nat, low: nat, high: nat)
    requires
        count >= 1,
        low <= high < 100,
    ensures
        percentile_index(count, low) == (count * low) / 100,
        percentile_index(count, low) <= percentile_index(count, high),
{
    assert(count * low <= count * high) by (nonlinear_arith)
        requires
            low <= high,
    ;
    assert(count * high < count * 100) by (nonlinear_arith)
        requires
            high < 100,
            count >= 1,
    ;
}

/// The sum of a sequence is the sum of the sequence without one of its
/// samples, and that sample.
pub proof fn lemma_total_remove(samples: Seq<u64>, at: int)
    requires
        0 <= at < samples.len(),
    ensures
        total(samples) == total(samples.remove(at)) + samples[at],
    decreases samples.len(),
{
    if at == samples.len() - 1 {
        assert(samples.remove(at) =~= samples.drop_last());
    } else {
        let front = samples.drop_last();
        lemma_total_remove(front, at);
        assert(samples.remove(at).drop_last() =~= front.remove(at));
        assert(samples.remove(at).last() == samples.last());
    }
}

/// The sum does not depend on the order of the samples.
pub proof fn lemma_total_ignores_order(first: Seq<u64>, second: Seq<u64>)
    requires
        first.to_multiset() == second.to_multiset(),
    ensures
        total(first) == total(second),
    decreases first.len(),
{
    broadcast use group_to_multiset_ensures;

    assert(first.to_multiset().len() == first.len());
    assert(second.to_multiset().len() == second.len());
    if first.len() > 0 {
        let sample = first.last();
        assert(first.contains(sample));
        assert(second.to_multiset().count(sample) > 0);
        assert(second.contains(sample));
        let at = choose|at: int| 0 <= at < second.len() && second[at] == sample;
        assert(first.drop_last() =~= first.remove(first.len() - 1));
        to_multiset_remove(first, first.len() - 1);
        to_multiset_remove(second, at);
        lemma_total_ignores_order(first.drop_last(), second.remove(at));
        lemma_total_remove(second, at);
    }
}

/// The sum of samples that all lie between `low` and `high` lies between
/// their number times `low` and their number times `high`.
pub proof fn lemma_total_bounds(samples: Seq<u64>, low: nat, high: nat)
    requires
        forall|i: int| 0 <= i < samples.len() ==> low <= #[trigger] samples[i] <= high,
    ensures
        samples.len() * low <= total(samples) <= samples.len() * high,
    decreases samples.len(),
{
    if samples.len() > 0 {
        let rest = samples.drop_last();
        assert forall|i: int| 0 <= i < rest.len() implies low <= #[trigger] rest[i] <= high by {
            assert(rest[i] == samples[i]);
        }
        lemma_total_bounds(rest, low, high);
        assert(samples.len() * low == rest.len() * low + low) by (nonlinear_arith)
            requires
                samples.len() == rest.len() + 1,
        ;
        assert(samples.len() * high == rest.len() * high + high) by (nonlinear_arith)
            requires
                samples.len() == rest.len() + 1,
        ;
    } else {
        assert(samples.len() * low == 0) by (nonlinear_arith)
            requires
                samples.len() == 0,
        ;
        assert(samples.len() * high == 0) by (nonlinear_arith)
            requires
                samples.len() == 0,
        ;
    }
}

/// The minimum and the maximum of a summary are samples of the collection,
/// and every sample lies between them.
pub proof fn lemma_min_max_are_extremes(category: Seq<char>, samples: Seq<u64>, obj_size: nat)
    requires
        samples.len() >= 1,
    ensures
        forall|i: int|
            0 <= i < samples.len() ==> summarize(category, samples, obj_size).min
                <= #[trigger] samples[i] <= summarize(category, samples, obj_size).max,
        exists|i: int|
            0 <= i < samples.len() && #[trigger] samples[i] == summarize(
                category,
                samples,
                obj_size,
            ).min,
        exists|i: int|
            0 <= i < samples.len() && #[trigger] samples[i] == summarize(
                category,
                samples,
                obj_size,
            ).max,
{
    broadcast use group_to_multiset_ensures;

    lemma_ascending(samples);
    let sorted = ascending(samples);
    let last = samples.len() - 1;
    assert forall|i: int| 0 <= i < samples.len() implies sorted[0] <= #[trigger] samples[i]
        <= sorted[last] by {
        assert(samples.contains(samples[i]));
        assert(sorted.to_multiset().count(samples[i]) > 0);
        assert(sorted.contains(samples[i]));
        let k = choose|k: int| 0 <= k < sorted.len() && sorted[k] == samples[i];
        assert(sorted[0] <= sorted[k] <= sorted[last]);
    }
    assert(sorted.contains(sorted[0]));
    assert(samples.to_multiset().count(sorted[0]) > 0);
    assert(samples.contains(sorted[0]));
    let low = choose|k: int| 0 <= k < samples.len() && samples[k] == sorted[0];
    assert(samples[low] == summarize(category, samples, obj_size).min);
    assert(sorted.contains(sorted[last]));
    assert(samples.to_multiset().count(sorted[last]) > 0);
    assert(samples.contains(sorted[last]));
    let high = choose|k: int| 0 <= k < samples.len() && samples[k] == sorted[last];
    assert(samples[high] == summarize(category, samples, obj_size).max);
}

/// Every percentile of a summary lies between its minimum and its maximum,
/// and so does the average, which is the sum divided by the number of
/// samples, rounded down.
pub proof fn lemma_percentiles_within_range(category: Seq<char>, samples: Seq<u64>, obj_size: nat)
    requires
        samples.len() >= 1,
    ensures
        ({
            let summary = summarize(category, samples, obj_size);
            &&& summary.num_samples == samples.len()
            &&& summary.histogram.len() == CUT_POINTS
            &&& forall|slot: int|
                0 <= slot < CUT_POINTS ==> summary.min <= #[trigger] summary.histogram[slot]
                    <= summary.max
            &&& summary.average == summary.sum / summary.num_samples
            &&& summary.average * summary.num_samples <= summary.sum < (summary.average + 1)
                * summary.num_samples
            &&& summary.min <= summary.average <= summary.max
        }),
{
    lemma_ascending(samples);
    let summary = summarize(category, samples, obj_size);
    let sorted = ascending(samples);
    let count = samples.len();
    assert forall|slot: int| 0 <= slot < CUT_POINTS implies summary.min
        <= #[trigger] summary.histogram[slot] <= summary.max by {
        lemma_percentile_index_bounds(count, cut_point(slot));
    }
    lemma_total_bounds(sorted, summary.min, summary.max);
    lemma_total_ignores_order(sorted, samples);
    let sum = summary.sum;
    let average = summary.average;
    let low = summary.min;
    let high = summary.max;
    assert(average * count <= sum < (average + 1) * count && low <= average <= high)
        by (nonlinear_arith)
        requires
            count >= 1,
            average == sum / count,
            count * low <= sum <= count * high,
    ;
}

/// The percentiles of a summary do not decrease from the 50th to the 99th.
pub proof fn lemma_percentiles_monotone(category: Seq<char>, samples: Seq<u64>, obj_size: nat)
    requires
        samples.len() >= 1,
    ensures
        forall|low: int, high: int|
            0 <= low <= high < CUT_POINTS ==> summarize(category, samples, obj_size).histogram[low]
                <= summarize(category, samples, obj_size).histogram[high],
{
    lemma_ascending(samples);
    let count = samples.len();
    assert forall|low: int, high: int| 0 <= low <= high < CUT_POINTS implies summarize(
        category,
        samples,
        obj_size,
    ).histogram[low] <= summarize(category, samples, obj_size).histogram[high] by {
        lemma_percentile_index_monotone(count, cut_point(low), cut_point(high));
        lemma_percentile_index_bounds(count, cut_point(high));
    }
}

/// A summary depends on the samples alone, not on the order in which they
/// were collected: two collections that hold the same samples have the same
/// summary.
pub proof fn lemma_summary_ignores_order(
    category: Seq<char>,
    first: Seq<u64>,
    second: Seq<u64>,
    obj_size: nat,
)
    requires
        first.to_multiset() == second.to_multiset(),
    ensures
        summarize(category, first, obj_size) == summarize(category, second, obj_size),
{
    lemma_ascending(first);
    lemma_ascending(second);
    lemma_sample_leq_total();
    first.lemma_sort_by_ensures(sample_leq());
    lemma_ascending_unique(ascending(first), second);
    lemma_total_ignores_order(first, second);
}

/// Summarizing the same collection twice gives identical summaries.
pub proof fn lemma_summary_repeatable(
    once: Stats,
    again: Stats,
    category: Seq<char>,
    samples: Seq<u64>,
    obj_size: nat,
)
    requires
        once@ == summarize(category, samples, obj_size),
        again@ == summarize(category, samples, obj_size),
    ensures
        once@ == again@,
{
}

/// The summary of a single sample: minimum, maximum, sum, average and every
/// percentile are that sample.
pub proof fn lemma_single_sample(category: Seq<char>, sample: u64, obj_size: nat)
    ensures
        summarize(category, seq![sample], obj_size).num_samples == 1,
        summarize(category, seq![sample], obj_size).min == sample,
        summarize(category, seq![sample], obj_size).max == sample,
        summarize(category, seq![sample], obj_size).sum == sample,
        summarize(category, seq![sample], obj_size).average == sample,
        summarize(category, seq![sample], obj_size).bytes == obj_size,
        summarize(category, seq![sample], obj_size).histogram.len() == CUT_POINTS,
        forall|slot: int|
            0 <= slot < CUT_POINTS ==> #[trigger] summarize(
                category,
                seq![sample],
                obj_size,
            ).histogram[slot] == sample,
{
    let samples = seq![sample];
    lemma_ascending_unique(samples, samples);
    let summary = summarize(category, samples, obj_size);
    assert(samples.len() == 1);
    assert(samples.drop_last().len() == 0);
    assert(total(samples) == total(samples.drop_last()) + sample);
    assert(total(samples.drop_last()) == 0);
    assert(summary.sum == sample);
    assert(summary.average == sample) by (nonlinear_arith)
        requires
            summary.average == summary.sum / samples.len(),
            samples.len() == 1,
            summary.sum == sample,
    ;
    assert(summary.histogram.len() == CUT_POINTS);
    assert(summary.bytes == obj_size) by (nonlinear_arith)
        requires
            summary.bytes == samples.len() * obj_size,
            samples.len() == 1,
    ;
    assert forall|slot: int| 0 <= slot < CUT_POINTS implies #[trigger] summary.histogram[slot]
        == sample by {
        lemma_percentile_index_bounds(1, cut_point(slot));
    }
}

/// The summary of one phase's samples. It is computed once and only read
/// afterwards.
#[derive(Debug)]
pub struct Stats {
    category: &'static str,
    num_samples: usize,
    min: u64,
    max: u64,
    sum: u128,
    average: u128,
    bytes: u128,
    bandwidth: Option<u128>,
    histogram: [u64; 5],
}

/// Sorts the samples in place with `Vec::sort` of the standard library,
/// which is documented to order the slice by `Ord`: afterwards the same
/// samples stand in ascending order.
#[verifier::external_body]
fn sort_samples(samples: &mut Vec<u64>)
    ensures
        sorted_by(final(samples)@, sample_leq()),
        final(samples)@.to_multiset() == old(samples)@.to_multiset(),
{
    samples.sort();
}

/// Adds up the samples. The sum of at most `usize::MAX` values of 64 bits
/// fits 128 bits.
fn sum_samples(samples: &Vec<u64>) -> (sum: u128)
    ensures
        sum == total(samples@),
{
    let mut sum: u128 = 0;
    let mut i: usize = 0;
    while i < samples.len()
        invariant
            i <= samples.len(),
            sum == total(samples@.take(i as int)),
            sum <= i * u64::MAX,
        decreases samples.len() - i,
    {
        proof {
            let next = samples@.take(i + 1);
            assert(next.drop_last() == samples@.take(i as int));
            assert(next.last() == samples@[i as int]);
            assert((i + 1) * u64::MAX == i * u64::MAX + u64::MAX) by (nonlinear_arith);
            assert(i * u64::MAX <= usize::MAX * u64::MAX) by (nonlinear_arith)
                requires
                    i <= usize::MAX,
            ;
            assert(usize::MAX * u64::MAX <= u64::MAX * u64::MAX) by (nonlinear_arith)
                requires
                    usize::MAX <= u64::MAX,
            ;
        }
        sum = sum + samples[i] as u128;
        i = i + 1;
    }
    proof {
        assert(samples@.take(i as int) == samples@);
    }
    sum
}

/// The nearest-rank index of the percentile `percent` among `count`
/// samples.
fn rank(count: usize, percent: u8) -> (index: usize)
    requires
        count >= 1,
    ensures
        index == percentile_index(count as nat, percent as nat),
        index < count,
{
    assert(count * percent <= usize::MAX * 255) by (nonlinear_arith)
        requires
            count <= usize::MAX,
            percent <= 255,
    ;
    let raw: u128 = (count as u128 * percent as u128) / 100;
    if raw >= count as u128 {
        count - 1
    } else {
        raw as usize
    }
}

/// Bytes per second for `bytes` moved in `sum` nanoseconds of latency.
fn bandwidth(bytes: u128, sum: u128) -> (rate: Option<u128>)
    ensures
        rate matches Some(r) ==> bandwidth_of(bytes as nat, sum as nat) == Some(r as nat),
        rate is None ==> bandwidth_of(bytes as nat, sum as nat) is None,
{
    if sum == 0 {
        None
    } else {
        match bytes.checked_mul(NANOS_PER_SECOND as u128) {
            Some(scaled) => Some(scaled / sum),
            None => None,
        }
    }
}

impl Stats {
    /// What the summary holds.
    pub closed spec fn view(&self) -> Summary {
        Summary {
            category: self.category@,
            num_samples: self.num_samples as nat,
            min: self.min as nat,
            max: self.max as nat,
            sum: self.sum as nat,
            average: self.average as nat,
            bytes: self.bytes as nat,
            bandwidth: match self.bandwidth {
                Some(rate) => Some(rate as nat),
                None => None,
            },
            histogram: Seq::new(CUT_POINTS as nat, |slot: int| self.histogram@[slot] as nat),
        }
    }

    /// Summarizes the latency samples of one phase, given in nanoseconds,
    /// for objects of `obj_size` bytes. An empty collection is refused.
    pub fn new(category: &'static str, samples: Vec<u64>, obj_size: usize) -> (result: Result<
        Stats,
        StatsError,
    >)
        ensures
            samples@.len() == 0 <==> result is Err,
            result is Err ==> result == Err::<Stats, StatsError>(StatsError::InvalidInput),
            result matches Ok(stats) ==> stats@ == summarize(
                category@,
                samples@,
                obj_size as nat,
            ),
    {
        if samples.len() == 0 {
            return Err(StatsError::InvalidInput);
        }
        let mut samples = samples;
        let ghost given = samples@;
        sort_samples(&mut samples);
        proof {
            lemma_ascending_unique(samples@, given);
            lemma_ascending(given);
            lemma_total_ignores_order(samples@, given);
        }
        let count = samples.len();
        let sum = sum_samples(&samples);
        let min = samples[0];
        let max = samples[count - 1];
        assert(count * obj_size <= u64::MAX * u64::MAX) by (nonlinear_arith)
            requires
                count <= u64::MAX,
                obj_size <= u64::MAX,
        ;
        let bytes: u128 = count as u128 * obj_size as u128;
        let average = sum / count as u128;
        let rate = bandwidth(bytes, sum);
        let histogram: [u64; 5] = [
            samples[rank(count, 50)],
            samples[rank(count, 70)],
            samples[rank(count, 90)],
            samples[rank(count, 95)],
            samples[rank(count, 99)],
        ];
        let stats = Stats {
            category,
            num_samples: count,
            min,
            max,
            sum,
            average,
            bytes,
            bandwidth: rate,
            histogram,
        };
        proof {
            assert(stats@.histogram =~= summarize(
                category@,
                given,
                obj_size as nat,
            ).histogram);
        }
        Ok(stats)
    }

    /// The label of the phase that the samples came from.
    pub fn category(&self) -> (category: &'static str)
        ensures
            category@ == self@.category,
    {
        self.category
    }

    /// The number of samples.
    pub fn num_samples(&self) -> (count: usize)
        ensures
            count == self@.num_samples,
    {
        self.num_samples
    }

    /// The smallest sample, in nanoseconds.
    pub fn min(&self) -> (min: u64)
        ensures
            min == self@.min,
    {
        self.min
    }

    /// The largest sample, in nanoseconds.
    pub fn max(&self) -> (max: u64)
        ensures
            max == self@.max,
    {
        self.max
    }

    /// The sum of the samples, in nanoseconds.
    pub fn sum(&self) -> (sum: u128)
        ensures
            sum == self@.sum,
    {
        self.sum
    }

    /// The sum divided by the number of samples, rounded down, in
    /// nanoseconds.
    pub fn average(&self) -> (average: u128)
        ensures
            average == self@.average,
    {
        self.average
    }

    /// The bytes moved: the number of samples times the object size.
    pub fn bytes(&self) -> (bytes: u128)
        ensures
            bytes == self@.bytes,
    {
        self.bytes
    }

    /// Bytes per second of summed latency, rounded down; `None` where
    /// `bandwidth_of` has no figure. This weighs by latency and is no
    /// measure of concurrent throughput.
    pub fn bandwidth(&self) -> (rate: Option<u128>)
        ensures
            rate matches Some(r) ==> self@.bandwidth == Some(r as nat),
            rate is None ==> self@.bandwidth is None,
    {
        self.bandwidth
    }

    /// The percentile held in a histogram slot, in nanoseconds.
    pub fn percentile(&self, slot: usize) -> (value: u64)
        requires
            slot < CUT_POINTS,
        ensures
            value == self@.histogram[slot as int],
    {
        self.histogram[slot]
    }

    /// The five percentiles, in the order of the slots.
    pub fn histogram(&self) -> (values: [u64; 5])
        ensures
            values@.len() == CUT_POINTS,
            forall|slot: int|
                0 <= slot < CUT_POINTS ==> values@[slot] == #[trigger] self@.histogram[slot],
    {
        self.histogram
    }
}

} // verus!
