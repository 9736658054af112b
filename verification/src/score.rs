//! Data-quality scores and thresholds, and how a score is made of its dimensions.

use crate::text;
use vstd::prelude::*;

verus! {

/// A data-quality score, or a threshold that scores are held against: a binary64 number. The policy
/// orders it by its bits and shows it by its text.
#[derive(Debug)]
pub struct Score {
    /// The bits of the number: sign, exponent, fraction.
    pub bits: u64,
    /// The number with two decimals.
    pub text: String,
}

/// The bit that is set in negative numbers.
pub const SIGN_BIT: u64 = 0x8000_0000_0000_0000;

/// The bits of positive infinity; the magnitude of anything that is not a number is above it.
pub const INFINITY_BITS: u64 = 0x7ff0_0000_0000_0000;

/// The bits without the sign.
pub open spec fn magnitude(bits: u64) -> int {
    if bits >= SIGN_BIT {
        bits - SIGN_BIT
    } else {
        bits as int
    }
}

/// The bits are those of no number.
pub open spec fn not_a_number(bits: u64) -> bool {
    magnitude(bits) > INFINITY_BITS
}

/// A rank that orders all numbers as their values do. Both zeros have the same.
pub open spec fn rank(bits: u64) -> int {
    if bits >= SIGN_BIT {
        -magnitude(bits)
    } else {
        magnitude(bits)
    }
}

/// One number is less than another. Nothing is less than what is not a number, nor greater.
pub open spec fn less(a: u64, b: u64) -> bool {
    !not_a_number(a) && !not_a_number(b) && rank(a) < rank(b)
}

fn magnitude_of(bits: u64) -> (r: u64)
    ensures
        r == magnitude(bits),
        r < SIGN_BIT,
{
    if bits >= SIGN_BIT {
        bits - SIGN_BIT
    } else {
        bits
    }
}

impl Score {
    /// Whether the score is less than another.
    pub fn less_than(&self, other: &Score) -> (r: bool)
        ensures
            r == less(self.bits, other.bits),
    {
        let a: u64 = magnitude_of(self.bits);
        let b: u64 = magnitude_of(other.bits);
        if a > INFINITY_BITS || b > INFINITY_BITS {
            return false;
        }
        if self.bits >= SIGN_BIT {
            if other.bits >= SIGN_BIT {
                b < a
            } else {
                a > 0 || b > 0
            }
        } else {
            if other.bits >= SIGN_BIT {
                false
            } else {
                a < b
            }
        }
    }
}

impl Clone for Score {
    fn clone(&self) -> (r: Score)
        ensures
            r == *self,
    {
        Score { bits: self.bits, text: self.text.clone() }
    }
}

/// One dimension (completeness, validity, accuracy, ...) of an asset's data quality.
#[derive(Debug)]
pub struct DqDimensionResult {
    pub score: Score,
}

/// The lower of two scores, the first where they are equal. What is not a number gives way.
pub open spec fn lower_of(a: Score, b: Score) -> Score {
    if not_a_number(a.bits) || less(b.bits, a.bits) {
        b
    } else {
        a
    }
}

/// The lowest of one or more dimensions.
pub open spec fn lowest(results: Seq<DqDimensionResult>) -> Score
    recommends
        results.len() > 0,
    decreases results.len(),
{
    if results.len() <= 1 {
        results[0].score
    } else {
        lower_of(lowest(results.drop_last()), results.last().score)
    }
}

/// The score that dimensions are combined into; `average` is their mean.
pub open spec fn aggregated(
    results: Seq<DqDimensionResult>,
    average: Score,
    mode: Seq<char>,
) -> Option<Score> {
    if results.len() == 0 {
        None
    } else if mode == "average"@ {
        Some(average)
    } else {
        Some(lowest(results))
    }
}

/// Combines the dimensions of an asset into the one score that is held against the thresholds.
/// The mode `average` takes their mean, which the caller hands in; any other mode takes the worst
/// dimension. There is no score where there are no dimensions.
pub fn aggregate_score(results: &Vec<DqDimensionResult>, average: Score, mode: &str) -> (r: Option<
    Score,
>)
    ensures
        r == aggregated(results@, average, mode@),
        r is None <==> results@.len() == 0,
        results@.len() > 0 && mode@ == "average"@ ==> r == Some(average),
        results@.len() > 0 && mode@ != "average"@ ==> r is Some && exists|i: int|
            0 <= i < results@.len() && r == Some(#[trigger] results@[i].score),
        mode@ != "average"@ ==> forall|i: int|
            0 <= i < results@.len() ==> !less(#[trigger] results@[i].score.bits, r->0.bits),
{
    proof {
        law_aggregation_counts_every_dimension(results@, average, mode@);
    }
    if results.len() == 0 {
        return None;
    }
    if text::same_text(mode, "average") {
        return Some(average);
    }
    let mut best: usize = 0;
    let mut i: usize = 1;
    assert(results@.take(1)[0] == results@[0]);
    while i < results.len()
        invariant
            best < i <= results@.len(),
            results@[best as int].score == lowest(results@.take(i as int)),
        decreases results@.len() - i,
    {
        assert(results@.take(i + 1).drop_last() =~= results@.take(i as int));
        let kept = &results[best].score;
        let next = &results[i].score;
        if magnitude_of(kept.bits) > INFINITY_BITS || next.less_than(kept) {
            best = i;
        }
        i += 1;
    }
    assert(results@.take(i as int) =~= results@);
    Some(results[best].score.clone())
}

/// In every mode but `average`, the combined score is the score of one of the dimensions, no
/// dimension is below it, and it is not a number only where no dimension is one.
pub proof fn law_worst_dimension_counts(results: Seq<DqDimensionResult>)
    requires
        results.len() > 0,
    ensures
        exists|i: int| 0 <= i < results.len() && lowest(results) == #[trigger] results[i].score,
        forall|i: int|
            0 <= i < results.len() ==> !less(#[trigger] results[i].score.bits, lowest(results).bits),
        forall|i: int|
            0 <= i < results.len() && not_a_number(lowest(results).bits) ==> not_a_number(
                #[trigger] results[i].score.bits,
            ),
    decreases results.len(),
{
    if results.len() == 1 {
        assert(lowest(results) == results[0].score);
    } else {
        let rest = results.drop_last();
        law_worst_dimension_counts(rest);
        let k = choose|i: int| 0 <= i < rest.len() && lowest(rest) == #[trigger] rest[i].score;
        assert(results[k].score == rest[k].score);
        assert(results[results.len() - 1].score == results.last().score);
        assert forall|i: int| 0 <= i < results.len() implies !less(
            #[trigger] results[i].score.bits,
            lowest(results).bits,
        ) && (not_a_number(lowest(results).bits) ==> not_a_number(results[i].score.bits)) by {
            if i < rest.len() {
                assert(results[i] == rest[i]);
            }
        }
    }
}

/// "Less" orders scores strictly: nothing is less than itself, and what is less than something
/// less than a third is less than the third.
pub proof fn law_less_is_a_strict_order(a: u64, b: u64, c: u64)
    ensures
        !less(a, a),
        less(a, b) && less(b, c) ==> less(a, c),
        less(a, b) ==> !less(b, a),
{
}

/// Bits are ordered as the numbers are that they stand for: positive numbers as their bits, negative
/// numbers against them, negative below positive, and both zeros alike. What is not a number is
/// neither less nor greater than anything.
pub proof fn law_less_orders_bits_as_numbers(a: u64, b: u64)
    ensures
        a <= 0x7ff0_0000_0000_0000 && b <= 0x7ff0_0000_0000_0000 ==> (less(a, b) <==> a < b),
        0x8000_0000_0000_0000 <= a <= 0xfff0_0000_0000_0000 && 0x8000_0000_0000_0000 <= b
            <= 0xfff0_0000_0000_0000 ==> (less(a, b) <==> b < a),
        0x8000_0000_0000_0000 <= a <= 0xfff0_0000_0000_0000 && b <= 0x7ff0_0000_0000_0000 ==> {
            &&& less(a, b) <==> a > 0x8000_0000_0000_0000 || b > 0
            &&& !less(b, a)
        },
        0x7ff0_0000_0000_0000 < a < 0x8000_0000_0000_0000 || a > 0xfff0_0000_0000_0000 ==> !less(a, b)
            && !less(b, a),
{
}

/// The combined score: none of no dimensions, the mean where it is asked for, and otherwise the
/// score of one of the dimensions, below which none of them lies. It is a number where one of them
/// is.
pub proof fn law_aggregation_counts_every_dimension(
    results: Seq<DqDimensionResult>,
    average: Score,
    mode: Seq<char>,
)
    ensures
        aggregated(results, average, mode) is None <==> results.len() == 0,
        results.len() > 0 && mode == "average"@ ==> aggregated(results, average, mode) == Some(
            average,
        ),
        results.len() > 0 && mode != "average"@ ==> exists|i: int|
            0 <= i < results.len() && aggregated(results, average, mode) == Some(
                #[trigger] results[i].score,
            ),
        mode != "average"@ ==> forall|i: int|
            0 <= i < results.len() ==> {
                let combined = aggregated(results, average, mode)->0.bits;
                let one = #[trigger] results[i].score.bits;
                &&& !less(one, combined)
                &&& one <= 0x7ff0_0000_0000_0000 ==> combined <= 0x7ff0_0000_0000_0000 || (
                0x8000_0000_0000_0000 <= combined <= 0xfff0_0000_0000_0000)
                &&& 0x8000_0000_0000_0000 <= one <= 0xfff0_0000_0000_0000 ==> combined
                    <= 0x7ff0_0000_0000_0000 || (0x8000_0000_0000_0000 <= combined
                    <= 0xfff0_0000_0000_0000)
            },
{
    if results.len() > 0 && mode != "average"@ {
        law_worst_dimension_counts(results);
    }
}

/// The order of the dimensions does not matter, nor does a dimension that is counted twice: lists
/// with the same scores in them combine into scores of which neither is less than the other.
pub proof fn law_aggregation_ignores_order(
    one: Seq<DqDimensionResult>,
    other: Seq<DqDimensionResult>,
    average: Score,
    mode: Seq<char>,
)
    requires
        mode != "average"@,
        one.len() > 0,
        forall|i: int| 0 <= i < one.len() ==> other.contains(#[trigger] one[i]),
        forall|i: int| 0 <= i < other.len() ==> one.contains(#[trigger] other[i]),
    ensures
        aggregated(one, average, mode) is Some,
        aggregated(other, average, mode) is Some,
        !less(
            aggregated(one, average, mode)->0.bits,
            aggregated(other, average, mode)->0.bits,
        ),
        !less(
            aggregated(other, average, mode)->0.bits,
            aggregated(one, average, mode)->0.bits,
        ),
{
    assert(other.contains(one[0]));
    law_aggregation_counts_every_dimension(one, average, mode);
    law_aggregation_counts_every_dimension(other, average, mode);
    let i = choose|i: int|
        0 <= i < one.len() && aggregated(one, average, mode) == Some(#[trigger] one[i].score);
    let j = choose|j: int|
        0 <= j < other.len() && aggregated(other, average, mode) == Some(#[trigger] other[j].score);
    let k = choose|k: int| 0 <= k < other.len() && other[k] == one[i];
    let l = choose|l: int| 0 <= l < one.len() && one[l] == other[j];
    assert(!less(other[k].score.bits, aggregated(other, average, mode)->0.bits));
    assert(!less(one[l].score.bits, aggregated(one, average, mode)->0.bits));
}

} // verus!
