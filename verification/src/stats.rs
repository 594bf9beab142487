//! The latency accumulator: folds one duration per completed round into
//! minimum, maximum, sum, squared sum and count, and summarizes them.
//!
//! Durations and instants are carried as plain nanosecond counts, so every
//! statistic here is exact integer arithmetic. The two reported rates
//! (messages per second and mebibytes per second) are kept as exact
//! rationals, a numerator and a denominator each; turning them into a
//! decimal for display is the caller's business.

use vstd::arithmetic::div_mod::{lemma_div_by_multiple, lemma_div_is_ordered};
use vstd::prelude::*;

verus! {

/// One round-trip duration, in nanoseconds.
pub type DurationNs = u64;

/// The smaller of two integers.
pub open spec fn min_int(a: int, b: int) -> int {
    if a <= b {
        a
    } else {
        b
    }
}

/// The larger of two integers.
pub open spec fn max_int(a: int, b: int) -> int {
    if a >= b {
        a
    } else {
        b
    }
}

/// The mathematical state of an accumulator: what it has absorbed so far,
/// free of any machine-width concern.
pub struct AccumModel {
    pub minimum: int,
    pub maximum: int,
    pub sum: int,
    pub squared_sum: int,
    pub count: int,
}

/// The state of an accumulator that has absorbed nothing: the minimum sits
/// at the largest representable duration so the first sample always lowers
/// it, the maximum at zero so the first sample always raises it.
pub open spec fn initial_model() -> AccumModel {
    AccumModel { minimum: u64::MAX as int, maximum: 0, sum: 0, squared_sum: 0, count: 0 }
}

/// Absorbing one duration `d` into the model.
pub open spec fn step_model(m: AccumModel, d: int) -> AccumModel {
    AccumModel {
        minimum: min_int(m.minimum, d),
        maximum: max_int(m.maximum, d),
        sum: m.sum + d,
        squared_sum: m.squared_sum + d * d,
        count: m.count + 1,
    }
}

/// Absorbing a whole sequence of durations, oldest first.
pub open spec fn fold_model(s: Seq<int>) -> AccumModel
    decreases s.len(),
{
    if s.len() == 0 {
        initial_model()
    } else {
        step_model(fold_model(s.drop_last()), s.last())
    }
}

/// Sum of a sequence of integers.
pub open spec fn seq_sum(s: Seq<int>) -> int
    decreases s.len(),
{
    if s.len() == 0 {
        0
    } else {
        seq_sum(s.drop_last()) + s.last()
    }
}

/// Sum of the squares of a sequence of integers.
pub open spec fn seq_squared_sum(s: Seq<int>) -> int
    decreases s.len(),
{
    if s.len() == 0 {
        0
    } else {
        seq_squared_sum(s.drop_last()) + s.last() * s.last()
    }
}

/// Smallest element of a non-empty sequence.
pub open spec fn seq_min(s: Seq<int>) -> int
    recommends
        s.len() >= 1,
    decreases s.len(),
{
    if s.len() <= 1 {
        s[0]
    } else {
        min_int(seq_min(s.drop_last()), s.last())
    }
}

/// Largest element of a non-empty sequence.
pub open spec fn seq_max(s: Seq<int>) -> int
    recommends
        s.len() >= 1,
    decreases s.len(),
{
    if s.len() <= 1 {
        s[0]
    } else {
        max_int(seq_max(s.drop_last()), s.last())
    }
}

/// After folding in any sequence of representable durations, the
/// accumulator model holds exactly the minimum, maximum, count, sum and
/// squared sum of that sequence; while nothing has been folded in, the
/// minimum and maximum still sit at their sentinels.
pub proof fn lemma_accumulator_folds_statistics(s: Seq<int>)
    requires
        forall|i: int| 0 <= i < s.len() ==> 0 <= #[trigger] s[i] <= u64::MAX as int,
    ensures
        fold_model(s).count == s.len(),
        fold_model(s).sum == seq_sum(s),
        fold_model(s).squared_sum == seq_squared_sum(s),
        s.len() == 0 ==> fold_model(s).minimum == u64::MAX as int && fold_model(s).maximum == 0,
        s.len() >= 1 ==> fold_model(s).minimum == seq_min(s) && fold_model(s).maximum == seq_max(s),
    decreases s.len(),
{
    if s.len() > 0 {
        let prefix = s.drop_last();
        assert(forall|i: int| 0 <= i < prefix.len() ==> 0 <= #[trigger] prefix[i] <= u64::MAX as int);
        lemma_accumulator_folds_statistics(prefix);
    }
}

/// Integer mean of a sum over a positive count.
pub open spec fn spec_average(sum: int, count: int) -> int
    recommends
        count >= 1,
{
    sum / count
}

/// Variance of the raw nanosecond magnitudes: mean of the squares minus
/// the square of the integer mean, floored at zero (integer rounding can
/// push the difference a hair below zero where the real value is zero).
pub open spec fn spec_variance(sum: int, squared_sum: int, count: int) -> int
    recommends
        count >= 1,
{
    let a = sum / count;
    let m = squared_sum / count;
    if m >= a * a {
        m - a * a
    } else {
        0
    }
}

/// Numerator of the message rate in messages per second: the rate is
/// `count / elapsed_seconds`, i.e. `count * 10^9 / elapsed_ns`.
pub open spec fn spec_rate_num(count: int) -> int {
    count * 1_000_000_000
}

/// Denominator of the message rate: the elapsed nanoseconds.
pub open spec fn spec_rate_den(elapsed_ns: int) -> int {
    elapsed_ns
}

/// Numerator of the throughput in mebibytes per second: the throughput is
/// `count * payload_size / 2^20 / elapsed_seconds`.
pub open spec fn spec_throughput_num(count: int, payload_size: int) -> int {
    count * payload_size * 1_000_000_000
}

/// Denominator of the throughput: elapsed nanoseconds scaled by one
/// mebibyte.
pub open spec fn spec_throughput_den(elapsed_ns: int) -> int {
    elapsed_ns * 1_048_576
}

/// The two rationals the summary carries are consistent with each other:
/// the message rate equals `count` per elapsed second, and the throughput
/// equals the message rate times the payload size divided by one
/// mebibyte — both as exact cross-multiplied identities.
pub proof fn lemma_throughput_matches_rate(count: int, payload_size: int, elapsed_ns: int)
    ensures
        spec_rate_num(count) * elapsed_ns == count * (spec_rate_den(elapsed_ns) * 1_000_000_000),
        spec_throughput_num(count, payload_size) * (spec_rate_den(elapsed_ns) * 1_048_576) == (
        spec_rate_num(count) * payload_size) * spec_throughput_den(elapsed_ns),
{
    assert(count * 1_000_000_000 * elapsed_ns == count * (elapsed_ns * 1_000_000_000))
        by (nonlinear_arith);
    assert(count * payload_size * 1_000_000_000 * (elapsed_ns * 1_048_576) == (count
        * 1_000_000_000 * payload_size) * (elapsed_ns * 1_048_576)) by (nonlinear_arith);
}

/// On a single sample `d`, the statistics collapse: count is one, minimum,
/// maximum and average all equal `d`, and the variance is exactly zero.
pub proof fn lemma_single_sample_summary(d: int)
    requires
        0 <= d <= u64::MAX as int,
    ensures
        fold_model(seq![d]).count == 1,
        fold_model(seq![d]).minimum == d,
        fold_model(seq![d]).maximum == d,
        spec_average(fold_model(seq![d]).sum, 1) == d,
        spec_variance(fold_model(seq![d]).sum, fold_model(seq![d]).squared_sum, 1) == 0,
{
    let s = seq![d];
    assert(s.len() == 1);
    assert(s.last() == d);
    assert(s.drop_last() =~= Seq::<int>::empty());
    assert(fold_model(s.drop_last()) == initial_model());
    assert(fold_model(s) == step_model(initial_model(), d));
}

/// The read-only record `summarize` produces: the exact statistics of one
/// completed run. All fields are integer-exact; the two rates are carried
/// as rationals.
#[derive(Clone, Copy, Debug, PartialEq, Eq, Structural)]
pub struct Summary {
    /// Number of completed rounds.
    pub count: usize,
    /// The configured payload size in bytes (accounting only).
    pub payload_size: usize,
    /// Wall time from the start of the first round to the summary, in ns.
    pub total_elapsed_ns: u64,
    /// Integer mean round duration, in ns.
    pub average_ns: u64,
    /// Smallest observed round duration, in ns.
    pub minimum_ns: u64,
    /// Largest observed round duration, in ns.
    pub maximum_ns: u64,
    /// Variance of the raw nanosecond magnitudes, in ns squared.
    pub variance_ns2: u128,
    /// Message rate in messages per second, as the rational
    /// `message_rate_num / message_rate_den`.
    pub message_rate_num: u128,
    pub message_rate_den: u128,
    /// Throughput in mebibytes per second, as the rational
    /// `throughput_num / throughput_den`.
    pub throughput_num: u128,
    pub throughput_den: u128,
}

/// The mutable aggregate the coordinator folds each round duration into.
#[derive(Clone, Copy, Debug)]
pub struct LatencyAccumulator {
    /// Instant (ns) at which the first round began.
    pub total_start_ns: u64,
    /// Instant (ns) at which the current round began.
    pub round_start_ns: u64,
    /// Smallest duration seen so far; starts at the largest representable.
    pub minimum_ns: u64,
    /// Largest duration seen so far; starts at zero.
    pub maximum_ns: u64,
    /// Running total of all durations, in ns.
    pub sum_ns: u128,
    /// Running total of the squared nanosecond magnitudes.
    pub squared_sum_ns2: u128,
    /// Number of durations folded in.
    pub count: usize,
}

impl LatencyAccumulator {
    /// The abstract statistics this accumulator holds.
    pub open spec fn model(self) -> AccumModel {
        AccumModel {
            minimum: self.minimum_ns as int,
            maximum: self.maximum_ns as int,
            sum: self.sum_ns as int,
            squared_sum: self.squared_sum_ns2 as int,
            count: self.count as int,
        }
    }

    /// The value of a freshly created accumulator whose clock reads
    /// `now_ns`.
    pub open spec fn spec_initial(now_ns: u64) -> LatencyAccumulator {
        LatencyAccumulator {
            total_start_ns: now_ns,
            round_start_ns: now_ns,
            minimum_ns: u64::MAX,
            maximum_ns: 0,
            sum_ns: 0,
            squared_sum_ns2: 0,
            count: 0,
        }
    }

    /// Every reachable accumulator satisfies this: the running sums are
    /// bounded by what `count` samples of the largest duration could have
    /// produced, and once a sample is in, the minimum cannot exceed the
    /// maximum.
    pub open spec fn well_formed(self) -> bool {
        &&& self.sum_ns as int <= (self.count as int) * (u64::MAX as int)
        &&& self.squared_sum_ns2 as int <= (self.count as int) * ((u64::MAX as int) * (
        u64::MAX as int))
        &&& self.count >= 1 ==> self.minimum_ns <= self.maximum_ns
    }

    /// Creates the accumulator immediately before the round loop begins;
    /// `now_ns` is the instant the first round starts.
    pub fn new(now_ns: u64) -> (r: LatencyAccumulator)
        ensures
            r == LatencyAccumulator::spec_initial(now_ns),
            r.model() == initial_model(),
            r.well_formed(),
    {
        LatencyAccumulator {
            total_start_ns: now_ns,
            round_start_ns: now_ns,
            minimum_ns: u64::MAX,
            maximum_ns: 0,
            sum_ns: 0,
            squared_sum_ns2: 0,
            count: 0,
        }
    }

    /// Resets the per-round start instant at the beginning of a round.
    pub fn begin_round(&mut self, now_ns: u64)
        ensures
            *final(self) == (LatencyAccumulator { round_start_ns: now_ns, ..*old(self) }),
    {
        self.round_start_ns = now_ns;
    }

    /// Folds one round duration in. Pure arithmetic; the preconditions
    /// only keep the running machine-width sums from overflowing, which
    /// no bounded benchmark run approaches.
    pub fn update(&mut self, duration: DurationNs)
        requires
            old(self).sum_ns as int + duration as int <= u128::MAX as int,
            old(self).squared_sum_ns2 as int + (duration as int) * (duration as int)
                <= u128::MAX as int,
            old(self).count < usize::MAX,
        ensures
            final(self).model() == step_model(old(self).model(), duration as int),
            final(self).total_start_ns == old(self).total_start_ns,
            final(self).round_start_ns == old(self).round_start_ns,
            old(self).well_formed() ==> final(self).well_formed(),
            final(self).count == old(self).count + 1,
            final(self).minimum_ns <= old(self).minimum_ns,
            final(self).maximum_ns >= old(self).maximum_ns,
            final(self).sum_ns >= old(self).sum_ns,
            final(self).squared_sum_ns2 >= old(self).squared_sum_ns2,
    {
        proof {
            if self.well_formed() {
                assert((duration as int) * (duration as int) <= (u64::MAX as int) * (
                u64::MAX as int)) by (nonlinear_arith)
                    requires
                        0 <= duration as int <= u64::MAX as int,
                ;
                assert((self.count as int + 1) * ((u64::MAX as int) * (u64::MAX as int)) == (
                self.count as int) * ((u64::MAX as int) * (u64::MAX as int)) + (u64::MAX as int) * (
                u64::MAX as int)) by (nonlinear_arith);
                assert((self.count as int + 1) * (u64::MAX as int) == (self.count as int) * (
                u64::MAX as int) + (u64::MAX as int)) by (nonlinear_arith);
            }
        }
        if duration < self.minimum_ns {
            self.minimum_ns = duration;
        }
        if duration > self.maximum_ns {
            self.maximum_ns = duration;
        }
        self.sum_ns = self.sum_ns + (duration as u128);
        let squared: u128 = (duration as u128) * (duration as u128);
        self.squared_sum_ns2 = self.squared_sum_ns2 + squared;
        self.count = self.count + 1;
    }

    /// The summary `summarize` owes for this accumulator at instant
    /// `now_ns`, with the given payload size.
    pub open spec fn spec_summary(self, now_ns: u64, payload_size: usize) -> Summary {
        Summary {
            count: self.count,
            payload_size: payload_size,
            total_elapsed_ns: (now_ns - self.total_start_ns) as u64,
            average_ns: spec_average(self.sum_ns as int, self.count as int) as u64,
            minimum_ns: self.minimum_ns,
            maximum_ns: self.maximum_ns,
            variance_ns2: spec_variance(
                self.sum_ns as int,
                self.squared_sum_ns2 as int,
                self.count as int,
            ) as u128,
            message_rate_num: spec_rate_num(self.count as int) as u128,
            message_rate_den: (now_ns - self.total_start_ns) as u128,
            throughput_num: spec_throughput_num(self.count as int, payload_size as int) as u128,
            throughput_den: spec_throughput_den((now_ns - self.total_start_ns) as int) as u128,
        }
    }

    /// Computes the summary of a run that completed at instant `now_ns`.
    /// Does not mutate the accumulator. At least one round must have been
    /// folded in (an empty run has no mean), and the throughput numerator
    /// must be representable.
    pub fn summarize(&self, now_ns: u64, payload_size: usize) -> (r: Summary)
        requires
            self.well_formed(),
            self.count >= 1,
            now_ns >= self.total_start_ns,
            (self.count as int) * (payload_size as int) * 1_000_000_000 <= u128::MAX as int,
        ensures
            r == self.spec_summary(now_ns, payload_size),
    {
        let elapsed: u64 = now_ns - self.total_start_ns;
        let count128: u128 = self.count as u128;
        proof {
            lemma_div_is_ordered(
                self.sum_ns as int,
                (self.count as int) * (u64::MAX as int),
                self.count as int,
            );
            lemma_div_by_multiple(u64::MAX as int, self.count as int);
            assert(((self.count as int) * (u64::MAX as int)) == ((u64::MAX as int) * (
            self.count as int))) by (nonlinear_arith);
        }
        let average128: u128 = self.sum_ns / count128;
        let average: u64 = average128 as u64;
        let mean_square: u128 = self.squared_sum_ns2 / count128;
        proof {
            assert(average128 * average128 <= (u64::MAX as int) * (u64::MAX as int))
                by (nonlinear_arith)
                requires
                    0 <= average128 as int <= u64::MAX as int,
            ;
        }
        let average_squared: u128 = average128 * average128;
        let variance: u128 = if mean_square >= average_squared {
            mean_square - average_squared
        } else {
            0
        };
        let rate_num: u128 = count128 * 1_000_000_000;
        proof {
            assert((self.count as int) * (payload_size as int) <= (self.count as int) * (
            payload_size as int) * 1_000_000_000) by (nonlinear_arith)
                requires
                    0 <= self.count as int,
                    0 <= payload_size as int,
            ;
        }
        let throughput_num: u128 = count128 * (payload_size as u128) * 1_000_000_000;
        let throughput_den: u128 = (elapsed as u128) * 1_048_576;
        Summary {
            count: self.count,
            payload_size,
            total_elapsed_ns: elapsed,
            average_ns: average,
            minimum_ns: self.minimum_ns,
            maximum_ns: self.maximum_ns,
            variance_ns2: variance,
            message_rate_num: rate_num,
            message_rate_den: elapsed as u128,
            throughput_num,
            throughput_den,
        }
    }
}

} // verus!
