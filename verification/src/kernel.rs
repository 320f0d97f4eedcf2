//! The decision layer of the numeric kernel.
//!
//! Every branch the kernel functions take — input validation, saturation
//! cutoffs, clamping, the per-element positivity scan, the extremes of a
//! sequence — is a comparison of IEEE-754 encodings, and lives here fully
//! verified against the model in [`crate::fp`].  The arithmetic between the
//! branches (sums, products, exponentials, roots) is floating-point work the
//! verifier cannot hold, and is done by the unverified numeric layer, which
//! must call these functions for every decision it takes.

use vstd::prelude::*;

use crate::errors::ErrorKind;
use crate::fp;
use crate::fp::{fp_lt, fp_le, fp_eq, fp_max, fp_min, is_nan, mag_of};

verus! {

/// The encoding of 500.0, the saturation cutoff of the sigmoid.
pub const SIGMOID_CUTOFF_BITS: u64 = 0x407F_4000_0000_0000;

/// The encoding of -500.0, the lower saturation cutoff of the sigmoid.
pub const SIGMOID_NEG_CUTOFF_BITS: u64 = 0xC07F_4000_0000_0000;

/// Accepts exactly the non-empty lengths; an empty sequence is the
/// `EmptyInput` failure.
pub fn check_nonempty(len: usize) -> (r: Result<(), ErrorKind>)
    ensures
        r == Ok::<(), ErrorKind>(()) <==> len > 0,
        r == Err::<(), ErrorKind>(ErrorKind::EmptyInput) <==> len == 0,
{
    if len == 0 {
        Err(ErrorKind::EmptyInput)
    } else {
        Ok(())
    }
}

/// Accepts exactly the equal pairs of lengths; unequal lengths are the
/// `LengthMismatch` failure.  Emptiness is acceptable here: the dot product
/// and the Euclidean distance of two empty vectors are empty sums.
pub fn check_same_length(a_len: usize, b_len: usize) -> (r: Result<(), ErrorKind>)
    ensures
        r == Ok::<(), ErrorKind>(()) <==> a_len == b_len,
        r == Err::<(), ErrorKind>(ErrorKind::LengthMismatch) <==> a_len != b_len,
{
    if a_len != b_len {
        Err(ErrorKind::LengthMismatch)
    } else {
        Ok(())
    }
}

/// The shared preamble of the two-sequence kernels that also refuse empty
/// input: a length mismatch is reported first, then emptiness.
pub fn check_pair(a_len: usize, b_len: usize) -> (r: Result<(), ErrorKind>)
    ensures
        r == Err::<(), ErrorKind>(ErrorKind::LengthMismatch) <==> a_len != b_len,
        r == Err::<(), ErrorKind>(ErrorKind::EmptyInput) <==> a_len == b_len && a_len == 0,
        r == Ok::<(), ErrorKind>(()) <==> a_len == b_len && a_len > 0,
{
    if a_len != b_len {
        Err(ErrorKind::LengthMismatch)
    } else if a_len == 0 {
        Err(ErrorKind::EmptyInput)
    } else {
        Ok(())
    }
}

/// Whether an encoding lies within machine epsilon of zero: the kernel's
/// degenerate-denominator test, `|b| < epsilon`.  False for a NaN, as every
/// comparison with a NaN is.
pub open spec fn near_zero(b: u64) -> bool {
    fp_lt(mag_of(b), fp::EPSILON_BITS)
}

/// Whether `|b| < epsilon` holds of the encoding.
pub fn below_epsilon(b: u64) -> (r: bool)
    ensures
        r == near_zero(b),
{
    fp::lt(fp::abs_bits(b), fp::EPSILON_BITS)
}

/// Guard of the cosine similarity's division: either norm within machine
/// epsilon of zero is the `ZeroNormError` failure.
pub fn check_norms(norm_a: u64, norm_b: u64) -> (r: Result<(), ErrorKind>)
    ensures
        r == Err::<(), ErrorKind>(ErrorKind::ZeroNormError) <==> near_zero(norm_a) || near_zero(
            norm_b,
        ),
        r == Ok::<(), ErrorKind>(()) <==> !near_zero(norm_a) && !near_zero(norm_b),
{
    if below_epsilon(norm_a) || below_epsilon(norm_b) {
        Err(ErrorKind::ZeroNormError)
    } else {
        Ok(())
    }
}

/// Guard of the z-score's division: a standard deviation within machine
/// epsilon of zero is the `ZeroVariance` failure.
pub fn check_z_score_std(std_dev: u64) -> (r: Result<(), ErrorKind>)
    ensures
        r == Err::<(), ErrorKind>(ErrorKind::ZeroVariance) <==> near_zero(std_dev),
        r == Ok::<(), ErrorKind>(()) <==> !near_zero(std_dev),
{
    if below_epsilon(std_dev) {
        Err(ErrorKind::ZeroVariance)
    } else {
        Ok(())
    }
}

/// Guard of the min-max normalization's division: a spread within machine
/// epsilon of zero is the `DegenerateRange` failure.
pub fn check_min_max_range(range: u64) -> (r: Result<(), ErrorKind>)
    ensures
        r == Err::<(), ErrorKind>(ErrorKind::DegenerateRange) <==> near_zero(range),
        r == Ok::<(), ErrorKind>(()) <==> !near_zero(range),
{
    if below_epsilon(range) {
        Err(ErrorKind::DegenerateRange)
    } else {
        Ok(())
    }
}

/// Guard of the softmax's division: a sum of exponentials equal to exactly
/// zero — not merely near it — is the `SoftmaxUnderflow` failure.
pub fn check_softmax_sum(sum: u64) -> (r: Result<(), ErrorKind>)
    ensures
        r == Err::<(), ErrorKind>(ErrorKind::SoftmaxUnderflow) <==> fp_eq(sum, fp::POS_ZERO_BITS),
        r == Ok::<(), ErrorKind>(()) <==> !fp_eq(sum, fp::POS_ZERO_BITS),
{
    if fp::eq_val(sum, fp::POS_ZERO_BITS) {
        Err(ErrorKind::SoftmaxUnderflow)
    } else {
        Ok(())
    }
}

/// Whether a smoothing coefficient lies in the closed interval [0, 1].  A
/// NaN lies in no interval.
pub open spec fn valid_alpha(alpha: u64) -> bool {
    fp_le(fp::POS_ZERO_BITS, alpha) && fp_le(alpha, fp::ONE_BITS)
}

/// The preamble of the exponential moving average: emptiness is reported
/// first, then a coefficient outside [0, 1] as `InvalidAlpha`.
pub fn check_ema(len: usize, alpha: u64) -> (r: Result<(), ErrorKind>)
    ensures
        r == Err::<(), ErrorKind>(ErrorKind::EmptyInput) <==> len == 0,
        r == Err::<(), ErrorKind>(ErrorKind::InvalidAlpha) <==> len > 0 && !valid_alpha(alpha),
        r == Ok::<(), ErrorKind>(()) <==> len > 0 && valid_alpha(alpha),
{
    if len == 0 {
        Err(ErrorKind::EmptyInput)
    } else if !(fp::le(fp::POS_ZERO_BITS, alpha) && fp::le(alpha, fp::ONE_BITS)) {
        Err(ErrorKind::InvalidAlpha)
    } else {
        Ok(())
    }
}

/// Whether a prediction may not feed a logarithm: at or below zero.  A NaN
/// passes the guard and propagates through the logarithm instead.
pub open spec fn nonpositive_pred(b: u64) -> bool {
    fp_le(b, fp::POS_ZERO_BITS)
}

/// The full validation of the cross entropy: a length mismatch first, then
/// emptiness, then a left-to-right scan of the predictions that stops at the
/// first one at or below zero, the `NonPositivePrediction` failure.
pub fn check_cross_entropy(pred: &Vec<u64>, target_len: usize) -> (r: Result<(), ErrorKind>)
    ensures
        r == Err::<(), ErrorKind>(ErrorKind::LengthMismatch) <==> pred@.len() != target_len,
        r == Err::<(), ErrorKind>(ErrorKind::EmptyInput) <==> pred@.len() == target_len
            && pred@.len() == 0,
        r == Err::<(), ErrorKind>(ErrorKind::NonPositivePrediction) <==> pred@.len() == target_len
            && pred@.len() > 0 && (exists|i: int|
            0 <= i < pred@.len() && nonpositive_pred(pred@[i])),
        r == Ok::<(), ErrorKind>(()) <==> pred@.len() == target_len && pred@.len() > 0 && (forall|
            i: int,
        |
            0 <= i < pred@.len() ==> !nonpositive_pred(pred@[i])),
{
    if pred.len() != target_len {
        return Err(ErrorKind::LengthMismatch);
    }
    if pred.len() == 0 {
        return Err(ErrorKind::EmptyInput);
    }
    let mut i: usize = 0;
    while i < pred.len()
        invariant
            i <= pred@.len(),
            pred@.len() == target_len,
            pred@.len() > 0,
            forall|j: int| 0 <= j < i ==> !nonpositive_pred(pred@[j]),
        decreases pred@.len() - i,
    {
        if fp::le(pred[i], fp::POS_ZERO_BITS) {
            proof {
                assert(nonpositive_pred(pred@[i as int]));
            }
            return Err(ErrorKind::NonPositivePrediction);
        }
        i += 1;
    }
    Ok(())
}

/// What clamping to the closed interval `[lo, hi]` returns: `lo` below it,
/// `hi` above it, the value itself — a NaN included — otherwise.
pub open spec fn clamp_spec(x: u64, lo: u64, hi: u64) -> u64 {
    if fp_lt(x, lo) {
        lo
    } else if fp_lt(hi, x) {
        hi
    } else {
        x
    }
}

/// Bounds `x` into `[min_val, max_val]`; a lower bound above the upper bound
/// is the `InvalidRange` failure.  NaN bounds are excluded: ordered against
/// each other they would slip past the range check only to make the interval
/// meaningless.  A NaN `x` is returned unchanged.
pub fn clamp(x: u64, min_val: u64, max_val: u64) -> (r: Result<u64, ErrorKind>)
    requires
        !is_nan(min_val),
        !is_nan(max_val),
    ensures
        r == Err::<u64, ErrorKind>(ErrorKind::InvalidRange) <==> fp_lt(max_val, min_val),
        !fp_lt(max_val, min_val) ==> r == Ok::<u64, ErrorKind>(clamp_spec(x, min_val, max_val)),
{
    if fp::lt(max_val, min_val) {
        Err(ErrorKind::InvalidRange)
    } else if fp::lt(x, min_val) {
        Ok(min_val)
    } else if fp::lt(max_val, x) {
        Ok(max_val)
    } else {
        Ok(x)
    }
}

/// Clamping is idempotent: once a value has been bounded into `[lo, hi]`,
/// bounding it again changes nothing.
pub proof fn lemma_clamp_idempotent(x: u64, lo: u64, hi: u64)
    requires
        !is_nan(lo),
        !is_nan(hi),
        !fp_lt(hi, lo),
    ensures
        clamp_spec(clamp_spec(x, lo, hi), lo, hi) == clamp_spec(x, lo, hi),
{
}

/// Clamping bounds the value: under ordered finite bounds the result lies
/// between them in the order of represented values, and is the input itself
/// exactly when the input already lies there.
pub proof fn lemma_clamp_bounds(x: u64, lo: u64, hi: u64)
    requires
        fp::is_finite(x),
        fp::is_finite(lo),
        fp::is_finite(hi),
        !fp_lt(hi, lo),
    ensures
        fp::scaled_value_of(lo) <= fp::scaled_value_of(clamp_spec(x, lo, hi)),
        fp::scaled_value_of(clamp_spec(x, lo, hi)) <= fp::scaled_value_of(hi),
        fp::scaled_value_of(lo) <= fp::scaled_value_of(x) && fp::scaled_value_of(x)
            <= fp::scaled_value_of(hi) ==> clamp_spec(x, lo, hi) == x,
{
    fp::lemma_comparisons_order_values(lo, hi);
    fp::lemma_comparisons_order_values(x, lo);
    fp::lemma_comparisons_order_values(hi, x);
}

/// The rectifier keeps exactly the non-negative part of the value: for a
/// finite input the result's value is the input's where that is positive,
/// and zero — the value both zero encodings share — everywhere else.
pub proof fn lemma_relu_value(x: u64)
    requires
        fp::is_finite(x),
    ensures
        fp::scaled_value_of(fp_max(x, fp::POS_ZERO_BITS)) == if fp::scaled_value_of(x) > 0 {
            fp::scaled_value_of(x)
        } else {
            0
        },
{
    fp::lemma_constant_shapes();
    fp::lemma_scaled_mag_zero(fp::POS_ZERO_BITS);
    fp::lemma_comparisons_order_values(x, fp::POS_ZERO_BITS);
}

/// The rectifier: the NaN-ignoring maximum of the input and positive zero,
/// so a NaN input yields zero and no result is negative.
pub fn relu(x: u64) -> (r: u64)
    ensures
        r == fp_max(x, fp::POS_ZERO_BITS),
        !is_nan(r),
        fp_le(fp::POS_ZERO_BITS, r),
        r == x || r == fp::POS_ZERO_BITS,
{
    proof {
        fp::lemma_constant_shapes();
    }
    fp::max2(x, fp::POS_ZERO_BITS)
}

/// The branch of the leaky rectifier: true exactly when the input is at or
/// above zero and passes through unchanged; otherwise — a NaN included — the
/// scaled branch is taken.
pub fn leaky_relu_keeps_input(x: u64) -> (r: bool)
    ensures
        r == fp_le(fp::POS_ZERO_BITS, x),
{
    fp::le(fp::POS_ZERO_BITS, x)
}

/// Which of its three branches the sigmoid takes.
#[derive(Clone, Copy, Debug, PartialEq, Eq, Structural)]
pub enum SigmoidCase {
    /// Above the saturation cutoff: the result is exactly one.
    SaturateHigh,
    /// Below the negative saturation cutoff: the result is exactly zero.
    SaturateLow,
    /// Between the cutoffs, or a NaN: the standard formula applies.
    Formula,
}

/// The saturation decision of the sigmoid: strictly above 500 saturates to
/// one, strictly below -500 saturates to zero, and everything else — NaN
/// included, which no comparison admits — takes the formula.
pub fn sigmoid_case(x: u64) -> (r: SigmoidCase)
    ensures
        r == SigmoidCase::SaturateHigh <==> fp_lt(SIGMOID_CUTOFF_BITS, x),
        r == SigmoidCase::SaturateLow <==> !fp_lt(SIGMOID_CUTOFF_BITS, x) && fp_lt(
            x,
            SIGMOID_NEG_CUTOFF_BITS,
        ),
        r == SigmoidCase::Formula <==> !fp_lt(SIGMOID_CUTOFF_BITS, x) && !fp_lt(
            x,
            SIGMOID_NEG_CUTOFF_BITS,
        ),
{
    if fp::lt(SIGMOID_CUTOFF_BITS, x) {
        SigmoidCase::SaturateHigh
    } else if fp::lt(x, SIGMOID_NEG_CUTOFF_BITS) {
        SigmoidCase::SaturateLow
    } else {
        SigmoidCase::Formula
    }
}

/// The encoding of 1.0 minus machine epsilon, the upper clamp of the
/// binary cross entropy's predictions.
pub const ONE_MINUS_EPSILON_BITS: u64 = 0x3FEF_FFFF_FFFF_FFFE;

/// The binary cross entropy's silent clamp of a prediction into
/// `[epsilon, 1 - epsilon]` before its logarithms: the NaN-ignoring maximum
/// with epsilon, then the NaN-ignoring minimum with one minus epsilon.  A
/// NaN prediction therefore comes out as epsilon, and every result lies in
/// the closed interval — unlike the plain cross entropy, which rejects bad
/// predictions outright.
pub fn log_loss_clamp(p: u64) -> (r: u64)
    ensures
        r == fp_min(fp_max(p, fp::EPSILON_BITS), ONE_MINUS_EPSILON_BITS),
        !is_nan(r),
        fp_le(fp::EPSILON_BITS, r),
        fp_le(r, ONE_MINUS_EPSILON_BITS),
{
    proof {
        fp::lemma_constant_shapes();
        assert(0x3FEF_FFFF_FFFF_FFFEu64 & 0x7FFF_FFFF_FFFF_FFFFu64 == 0x3FEF_FFFF_FFFF_FFFEu64
            && 0x3FEF_FFFF_FFFF_FFFEu64 & 0x8000_0000_0000_0000u64 == 0) by (bit_vector);
    }
    fp::min2(fp::max2(p, fp::EPSILON_BITS), ONE_MINUS_EPSILON_BITS)
}

/// The NaN-ignoring maximum folded over a sequence from a start value:
/// exactly the left fold the softmax's stabilizer performs.
pub open spec fn fold_max(s: Seq<u64>, acc: u64) -> u64
    decreases s.len(),
{
    if s.len() == 0 {
        acc
    } else {
        fold_max(s.drop_first(), fp_max(acc, s[0]))
    }
}

/// The NaN-ignoring minimum folded over a sequence from a start value.
pub open spec fn fold_min(s: Seq<u64>, acc: u64) -> u64
    decreases s.len(),
{
    if s.len() == 0 {
        acc
    } else {
        fold_min(s.drop_first(), fp_min(acc, s[0]))
    }
}

/// The largest value of a sequence: the NaN-ignoring maximum folded from
/// negative infinity, as the softmax's stabilizer and the min-max
/// normalization compute it.  The result is never a NaN, bounds every
/// non-NaN element from above, and is negative infinity unless some element
/// attains it.
pub fn seq_max(xs: &Vec<u64>) -> (r: u64)
    ensures
        r == fold_max(xs@, fp::NEG_INF_BITS),
        !is_nan(r),
        forall|j: int| 0 <= j < xs@.len() && !is_nan(xs@[j]) ==> fp_le(xs@[j], r),
        r == fp::NEG_INF_BITS || exists|j: int| 0 <= j < xs@.len() && r == xs@[j],
        (exists|j: int| 0 <= j < xs@.len() && !is_nan(xs@[j])) ==> exists|j: int|
            0 <= j < xs@.len() && r == xs@[j],
{
    let mut acc: u64 = fp::NEG_INF_BITS;
    let mut i: usize = 0;
    proof {
        fp::lemma_constant_shapes();
        assert(xs@.skip(0) =~= xs@);
    }
    while i < xs.len()
        invariant
            i <= xs@.len(),
            fold_max(xs@, fp::NEG_INF_BITS) == fold_max(xs@.skip(i as int), acc),
            !is_nan(acc),
            forall|j: int| 0 <= j < i && !is_nan(xs@[j]) ==> fp_le(xs@[j], acc),
            acc == fp::NEG_INF_BITS || exists|j: int| 0 <= j < i && acc == xs@[j],
            (exists|j: int| 0 <= j < i && !is_nan(xs@[j])) ==> exists|j: int|
                0 <= j < i && acc == xs@[j],
        decreases xs@.len() - i,
    {
        proof {
            assert(xs@.skip(i as int).len() > 0);
            assert(xs@.skip(i as int)[0] == xs@[i as int]);
            assert(xs@.skip(i as int).drop_first() =~= xs@.skip(i + 1));
        }
        let ghost prev = acc;
        acc = fp::max2(acc, xs[i]);
        proof {
            if !is_nan(xs@[i as int]) && acc != xs@[i as int] && prev == fp::NEG_INF_BITS {
                // The fold kept its start against a comparable element, so
                // the keys tied at the bottom, where only the encoding of
                // negative infinity lives: the element is that encoding.
                fp::lemma_constant_shapes();
                fp::lemma_inf_encodings(xs@[i as int]);
                assert(acc == xs@[i as int]);
            }
        }
        i += 1;
    }
    proof {
        assert(xs@.skip(i as int) =~= Seq::<u64>::empty());
    }
    acc
}

/// The smallest value of a sequence: the NaN-ignoring minimum folded from
/// positive infinity, mirror of [`seq_max`].
pub fn seq_min(xs: &Vec<u64>) -> (r: u64)
    ensures
        r == fold_min(xs@, fp::POS_INF_BITS),
        !is_nan(r),
        forall|j: int| 0 <= j < xs@.len() && !is_nan(xs@[j]) ==> fp_le(r, xs@[j]),
        r == fp::POS_INF_BITS || exists|j: int| 0 <= j < xs@.len() && r == xs@[j],
        (exists|j: int| 0 <= j < xs@.len() && !is_nan(xs@[j])) ==> exists|j: int|
            0 <= j < xs@.len() && r == xs@[j],
{
    let mut acc: u64 = fp::POS_INF_BITS;
    let mut i: usize = 0;
    proof {
        fp::lemma_constant_shapes();
        assert(xs@.skip(0) =~= xs@);
    }
    while i < xs.len()
        invariant
            i <= xs@.len(),
            fold_min(xs@, fp::POS_INF_BITS) == fold_min(xs@.skip(i as int), acc),
            !is_nan(acc),
            forall|j: int| 0 <= j < i && !is_nan(xs@[j]) ==> fp_le(acc, xs@[j]),
            acc == fp::POS_INF_BITS || exists|j: int| 0 <= j < i && acc == xs@[j],
            (exists|j: int| 0 <= j < i && !is_nan(xs@[j])) ==> exists|j: int|
                0 <= j < i && acc == xs@[j],
        decreases xs@.len() - i,
    {
        proof {
            assert(xs@.skip(i as int).len() > 0);
            assert(xs@.skip(i as int)[0] == xs@[i as int]);
            assert(xs@.skip(i as int).drop_first() =~= xs@.skip(i + 1));
        }
        let ghost prev = acc;
        acc = fp::min2(acc, xs[i]);
        proof {
            if !is_nan(xs@[i as int]) && acc != xs@[i as int] && prev == fp::POS_INF_BITS {
                // As in seq_max: a tie at the top of the key order leaves
                // only the encoding of positive infinity for the element.
                fp::lemma_constant_shapes();
                fp::lemma_inf_encodings(xs@[i as int]);
                assert(acc == xs@[i as int]);
            }
        }
        i += 1;
    }
    proof {
        assert(xs@.skip(i as int) =~= Seq::<u64>::empty());
    }
    acc
}

} // verus!
