//! A model of IEEE-754 double-precision scalars, carried as their 64-bit
//! encodings.
//!
//! A `u64` holds the usual layout: one sign bit, eleven exponent bits,
//! fifty-two fraction bits.  For every encoding that is not a NaN, the
//! standard orders values exactly as sign-magnitude integers: among
//! non-negative encodings the plain bit magnitude grows with the value, among
//! negative encodings it shrinks, and the two zero encodings are equal.
//! `key_of` maps an encoding to that signed magnitude, so `key_of(a) <
//! key_of(b)` is the standard's `a < b` whenever neither side is NaN.  Every
//! comparison a NaN takes part in is false.
//!
//! The executable comparisons below are proved against this model; nothing in
//! this module is taken on trust.

use vstd::prelude::*;
use vstd::arithmetic::mul::{
    lemma_mul_by_zero_is_zero, lemma_mul_inequality, lemma_mul_strict_inequality,
    lemma_mul_strictly_positive,
};
use vstd::arithmetic::power2::{
    lemma_pow2_adds, lemma_pow2_pos, lemma_pow2_strictly_increases, lemma2_to64, lemma2_to64_rest,
    pow2,
};

verus! {

/// The sign bit of the encoding.
pub const SIGN_MASK: u64 = 0x8000_0000_0000_0000;

/// Everything but the sign bit: the magnitude of the encoding.
pub const ABS_MASK: u64 = 0x7FFF_FFFF_FFFF_FFFF;

/// All exponent bits set, fraction zero: the magnitude of an infinity.
/// Magnitudes above it are NaNs, magnitudes below it are finite.
pub const EXP_MASK: u64 = 0x7FF0_0000_0000_0000;

/// The encoding of positive zero.
pub const POS_ZERO_BITS: u64 = 0x0000_0000_0000_0000;

/// The encoding of negative zero.
pub const NEG_ZERO_BITS: u64 = 0x8000_0000_0000_0000;

/// The encoding of 1.0.
pub const ONE_BITS: u64 = 0x3FF0_0000_0000_0000;

/// The encoding of positive infinity.
pub const POS_INF_BITS: u64 = 0x7FF0_0000_0000_0000;

/// The encoding of negative infinity.
pub const NEG_INF_BITS: u64 = 0xFFF0_0000_0000_0000;

/// The encoding of the double-precision machine epsilon, 2^-52: the
/// near-zero threshold the kernel's degenerate-denominator checks use.
pub const EPSILON_BITS: u64 = 0x3CB0_0000_0000_0000;

/// Whether the sign bit is set.
pub open spec fn sign_of(b: u64) -> bool {
    b & SIGN_MASK == SIGN_MASK
}

/// The magnitude: the encoding with the sign bit cleared.
pub open spec fn mag_of(b: u64) -> u64 {
    b & ABS_MASK
}

/// A NaN: exponent all ones and a non-zero fraction, i.e. a magnitude
/// strictly above that of an infinity.
pub open spec fn is_nan(b: u64) -> bool {
    mag_of(b) > EXP_MASK
}

/// A finite value: magnitude strictly below that of an infinity.
pub open spec fn is_finite(b: u64) -> bool {
    mag_of(b) < EXP_MASK
}

/// Either zero encoding.
pub open spec fn is_zero(b: u64) -> bool {
    mag_of(b) == 0
}

/// The signed magnitude of an encoding.  For encodings that are not NaN,
/// this key orders exactly as the represented values do, with both zero
/// encodings mapped to 0.
pub open spec fn key_of(b: u64) -> int {
    if sign_of(b) {
        -(mag_of(b) as int)
    } else {
        mag_of(b) as int
    }
}

/// The standard's `a < b`: false when either side is NaN, the key order
/// otherwise.
pub open spec fn fp_lt(a: u64, b: u64) -> bool {
    !is_nan(a) && !is_nan(b) && key_of(a) < key_of(b)
}

/// The standard's `a <= b`: false when either side is NaN.
pub open spec fn fp_le(a: u64, b: u64) -> bool {
    !is_nan(a) && !is_nan(b) && key_of(a) <= key_of(b)
}

/// The standard's `a == b`: false when either side is NaN, and true for the
/// two zero encodings compared with each other.
pub open spec fn fp_eq(a: u64, b: u64) -> bool {
    !is_nan(a) && !is_nan(b) && key_of(a) == key_of(b)
}

/// The NaN-ignoring maximum: a NaN argument yields the other argument, and
/// of two comparable arguments the one with the larger key is kept, the
/// first on a tie.
pub open spec fn fp_max(a: u64, b: u64) -> u64 {
    if is_nan(a) {
        b
    } else if is_nan(b) {
        a
    } else if key_of(a) < key_of(b) {
        b
    } else {
        a
    }
}

/// The NaN-ignoring minimum, mirror of `fp_max`.
pub open spec fn fp_min(a: u64, b: u64) -> u64 {
    if is_nan(a) {
        b
    } else if is_nan(b) {
        a
    } else if key_of(b) < key_of(a) {
        b
    } else {
        a
    }
}

/// The fraction field: the low fifty-two bits.
pub const FRAC_MASK: u64 = 0x000F_FFFF_FFFF_FFFF;

/// The implicit leading bit of a normal significand, 2^52.
pub const IMPLICIT_BIT: u64 = 0x0010_0000_0000_0000;

/// The biased exponent field: the eleven bits below the sign.
pub open spec fn exp_of(b: u64) -> u64 {
    (b >> 52) & 0x7FF
}

/// The fraction field.
pub open spec fn frac_of(b: u64) -> u64 {
    b & FRAC_MASK
}

/// The integer significand: the fraction alone in the subnormal row, the
/// fraction with the implicit bit in every other row.
pub open spec fn significand_of(b: u64) -> int {
    if exp_of(b) == 0 {
        frac_of(b) as int
    } else {
        frac_of(b) as int + IMPLICIT_BIT as int
    }
}

/// The power of two a row's significand is weighed by, relative to the
/// smallest: the subnormal row and the first normal row share the weight
/// 2^1, and each later row doubles it.
pub open spec fn scale_of(b: u64) -> nat {
    if exp_of(b) == 0 {
        1
    } else {
        exp_of(b) as nat
    }
}

/// The magnitude of the represented value, scaled by 2^1075 so that it is
/// an integer: significand times the row's weight.  Meaningful for finite
/// encodings.
pub open spec fn scaled_mag_of(b: u64) -> int {
    significand_of(b) * pow2(scale_of(b)) as int
}

/// The represented value, scaled by 2^1075: the scaled magnitude with the
/// sign applied.  Under this value both zero encodings are 0, so equal.
pub open spec fn scaled_value_of(b: u64) -> int {
    if sign_of(b) {
        -scaled_mag_of(b)
    } else {
        scaled_mag_of(b)
    }
}

/// The magnitude splits into the exponent and fraction fields, with the
/// bounds each field has by its width, and the classification predicates
/// read off the exponent row.
proof fn lemma_field_decomposition(b: u64)
    ensures
        mag_of(b) == exp_of(b) * 0x0010_0000_0000_0000 + frac_of(b),
        exp_of(b) <= 0x7FF,
        frac_of(b) <= 0x000F_FFFF_FFFF_FFFF,
        is_nan(b) <==> exp_of(b) == 0x7FF && frac_of(b) != 0,
        is_finite(b) <==> exp_of(b) < 0x7FF,
{
    assert((b & 0x7FFF_FFFF_FFFF_FFFFu64) == ((b >> 52u64) & 0x7FFu64) * 0x0010_0000_0000_0000u64
        + (b & 0x000F_FFFF_FFFF_FFFFu64)) by (bit_vector);
    assert(((b >> 52u64) & 0x7FFu64) <= 0x7FFu64) by (bit_vector);
    assert((b & 0x000F_FFFF_FFFF_FFFFu64) <= 0x000F_FFFF_FFFF_FFFFu64) by (bit_vector);
    assert(((b & 0x7FFF_FFFF_FFFF_FFFFu64) > 0x7FF0_0000_0000_0000u64) == (((b >> 52u64)
        & 0x7FFu64) == 0x7FFu64 && (b & 0x000F_FFFF_FFFF_FFFFu64) != 0u64)) by (bit_vector);
    assert(((b & 0x7FFF_FFFF_FFFF_FFFFu64) < 0x7FF0_0000_0000_0000u64) == (((b >> 52u64)
        & 0x7FFu64) < 0x7FFu64)) by (bit_vector);
}

/// The scaled magnitude is non-negative, and zero exactly on the two zero
/// encodings: both zeros represent the value zero.
pub proof fn lemma_scaled_mag_zero(b: u64)
    ensures
        scaled_mag_of(b) >= 0,
        scaled_mag_of(b) == 0 <==> mag_of(b) == 0,
{
    lemma_field_decomposition(b);
    lemma_pow2_pos(scale_of(b));
    if significand_of(b) > 0 {
        lemma_mul_strictly_positive(significand_of(b), pow2(scale_of(b)) as int);
    } else {
        lemma_mul_by_zero_is_zero(pow2(scale_of(b)) as int);
    }
}

/// A strictly smaller magnitude of encoding is a strictly smaller scaled
/// magnitude of value: within a row because the significand decides, across
/// rows because a whole significand at a lower weight stays below the
/// smallest significand at a higher one.
proof fn lemma_mag_orders(a: u64, b: u64)
    requires
        mag_of(a) < mag_of(b),
    ensures
        scaled_mag_of(a) < scaled_mag_of(b),
{
    lemma_field_decomposition(a);
    lemma_field_decomposition(b);
    lemma2_to64();
    lemma2_to64_rest();
    let ea = exp_of(a);
    let eb = exp_of(b);
    let sa = significand_of(a);
    let sb = significand_of(b);
    if ea == eb {
        assert(sa < sb);
        lemma_pow2_pos(scale_of(a));
        lemma_mul_strict_inequality(sa, sb, pow2(scale_of(a)) as int);
    } else {
        assert(ea < eb);
        assert(eb >= 1);
        assert(sb >= 0x0010_0000_0000_0000);
        lemma_pow2_pos(eb as nat);
        lemma_mul_inequality(pow2(52) as int, sb, pow2(eb as nat) as int);
        lemma_pow2_adds(52, eb as nat);
        assert(pow2((52 + eb) as nat) <= sb * pow2(eb as nat) as int);
        if ea == 0 {
            assert(sa < 0x0010_0000_0000_0000);
            lemma_mul_strict_inequality(sa, pow2(52) as int, pow2(1) as int);
            lemma_pow2_adds(52, 1);
            assert(scaled_mag_of(a) < pow2(53) as int);
            if 53 < 52 + eb {
                lemma_pow2_strictly_increases(53, (52 + eb) as nat);
            }
            assert(pow2(53) <= pow2((52 + eb) as nat));
        } else {
            assert(sa < 0x0020_0000_0000_0000);
            lemma_pow2_pos(ea as nat);
            lemma_mul_strict_inequality(sa, pow2(53) as int, pow2(ea as nat) as int);
            lemma_pow2_adds(53, ea as nat);
            assert(scaled_mag_of(a) < pow2((53 + ea) as nat) as int);
            if 53 + ea < 52 + eb {
                lemma_pow2_strictly_increases((53 + ea) as nat, (52 + eb) as nat);
            }
            assert(pow2((53 + ea) as nat) <= pow2((52 + eb) as nat));
        }
    }
}

/// Equal magnitudes of encoding are equal scaled magnitudes: the fields,
/// and with them significand and weight, coincide.
proof fn lemma_mag_equal(a: u64, b: u64)
    requires
        mag_of(a) == mag_of(b),
    ensures
        scaled_mag_of(a) == scaled_mag_of(b),
{
    lemma_field_decomposition(a);
    lemma_field_decomposition(b);
    assert(exp_of(a) == exp_of(b));
}

/// The theorem the whole model rests on: for finite encodings, the
/// comparisons defined over the sign-magnitude key are exactly the
/// comparisons of the represented values.
pub proof fn lemma_comparisons_order_values(a: u64, b: u64)
    requires
        is_finite(a),
        is_finite(b),
    ensures
        fp_lt(a, b) <==> scaled_value_of(a) < scaled_value_of(b),
        fp_le(a, b) <==> scaled_value_of(a) <= scaled_value_of(b),
        fp_eq(a, b) <==> scaled_value_of(a) == scaled_value_of(b),
{
    lemma_field_decomposition(a);
    lemma_field_decomposition(b);
    lemma_scaled_mag_zero(a);
    lemma_scaled_mag_zero(b);
    if mag_of(a) < mag_of(b) {
        lemma_mag_orders(a, b);
    } else if mag_of(b) < mag_of(a) {
        lemma_mag_orders(b, a);
    } else {
        lemma_mag_equal(a, b);
    }
}

/// Each infinity has exactly one encoding: the infinite magnitude together
/// with the sign pins every bit.
pub proof fn lemma_inf_encodings(b: u64)
    ensures
        mag_of(b) == EXP_MASK && sign_of(b) ==> b == NEG_INF_BITS,
        mag_of(b) == EXP_MASK && !sign_of(b) ==> b == POS_INF_BITS,
{
    assert(((b & 0x7FFF_FFFF_FFFF_FFFFu64) == 0x7FF0_0000_0000_0000u64 && (b
        & 0x8000_0000_0000_0000u64) == 0x8000_0000_0000_0000u64) ==> b
        == 0xFFF0_0000_0000_0000u64) by (bit_vector);
    assert(((b & 0x7FFF_FFFF_FFFF_FFFFu64) == 0x7FF0_0000_0000_0000u64 && (b
        & 0x8000_0000_0000_0000u64) != 0x8000_0000_0000_0000u64) ==> b
        == 0x7FF0_0000_0000_0000u64) by (bit_vector);
}

/// The shape of the named encodings: how each constant classifies and where
/// its key lies.  Mask arithmetic on literals is opaque to the default
/// solver, so these facts are discharged bit by bit once, here.
pub proof fn lemma_constant_shapes()
    ensures
        !is_nan(POS_ZERO_BITS) && is_zero(POS_ZERO_BITS) && key_of(POS_ZERO_BITS) == 0,
        !is_nan(NEG_ZERO_BITS) && is_zero(NEG_ZERO_BITS) && key_of(NEG_ZERO_BITS) == 0,
        !is_nan(POS_INF_BITS) && key_of(POS_INF_BITS) == EXP_MASK as int,
        !is_nan(NEG_INF_BITS) && key_of(NEG_INF_BITS) == -(EXP_MASK as int),
        !is_nan(ONE_BITS) && is_finite(ONE_BITS) && key_of(ONE_BITS) == ONE_BITS as int,
        !is_nan(EPSILON_BITS) && is_finite(EPSILON_BITS) && key_of(EPSILON_BITS)
            == EPSILON_BITS as int,
{
    assert(0x0000_0000_0000_0000u64 & 0x7FFF_FFFF_FFFF_FFFFu64 == 0
        && 0x0000_0000_0000_0000u64 & 0x8000_0000_0000_0000u64 == 0
        && 0x8000_0000_0000_0000u64 & 0x7FFF_FFFF_FFFF_FFFFu64 == 0
        && 0x8000_0000_0000_0000u64 & 0x8000_0000_0000_0000u64 == 0x8000_0000_0000_0000u64
        && 0x7FF0_0000_0000_0000u64 & 0x7FFF_FFFF_FFFF_FFFFu64 == 0x7FF0_0000_0000_0000u64
        && 0x7FF0_0000_0000_0000u64 & 0x8000_0000_0000_0000u64 == 0
        && 0xFFF0_0000_0000_0000u64 & 0x7FFF_FFFF_FFFF_FFFFu64 == 0x7FF0_0000_0000_0000u64
        && 0xFFF0_0000_0000_0000u64 & 0x8000_0000_0000_0000u64 == 0x8000_0000_0000_0000u64
        && 0x3FF0_0000_0000_0000u64 & 0x7FFF_FFFF_FFFF_FFFFu64 == 0x3FF0_0000_0000_0000u64
        && 0x3FF0_0000_0000_0000u64 & 0x8000_0000_0000_0000u64 == 0
        && 0x3CB0_0000_0000_0000u64 & 0x7FFF_FFFF_FFFF_FFFFu64 == 0x3CB0_0000_0000_0000u64
        && 0x3CB0_0000_0000_0000u64 & 0x8000_0000_0000_0000u64 == 0) by (bit_vector);
}

/// Whether the encoding is a NaN.
pub fn nan(b: u64) -> (r: bool)
    ensures
        r == is_nan(b),
{
    (b & ABS_MASK) > EXP_MASK
}

/// Whether the encoding is either zero.
pub fn zero(b: u64) -> (r: bool)
    ensures
        r == is_zero(b),
{
    (b & ABS_MASK) == 0
}

/// The encoding with the sign bit cleared: the absolute value.
pub fn abs_bits(b: u64) -> (r: u64)
    ensures
        r == mag_of(b),
        !sign_of(r),
        mag_of(r) == mag_of(b),
        is_nan(r) == is_nan(b),
{
    let r = b & ABS_MASK;
    proof {
        lemma_mag_properties(b);
    }
    r
}

/// Clearing the sign bit keeps the magnitude and leaves the sign clear.
proof fn lemma_mag_properties(b: u64)
    ensures
        (b & ABS_MASK) & SIGN_MASK == 0,
        (b & ABS_MASK) & ABS_MASK == b & ABS_MASK,
{
    assert((b & 0x7FFF_FFFF_FFFF_FFFFu64) & 0x8000_0000_0000_0000u64 == 0) by (bit_vector);
    assert((b & 0x7FFF_FFFF_FFFF_FFFFu64) & 0x7FFF_FFFF_FFFF_FFFFu64 == b & 0x7FFF_FFFF_FFFF_FFFFu64)
        by (bit_vector);
}

/// Strictly below, in the standard's order: for finite encodings, exactly
/// the order of the represented values.
pub fn lt(a: u64, b: u64) -> (r: bool)
    ensures
        r == fp_lt(a, b),
        is_finite(a) && is_finite(b) ==> r == (scaled_value_of(a) < scaled_value_of(b)),
{
    proof {
        if is_finite(a) && is_finite(b) {
            lemma_comparisons_order_values(a, b);
        }
    }
    if nan(a) || nan(b) {
        false
    } else {
        let ma = a & ABS_MASK;
        let mb = b & ABS_MASK;
        let sa = (a & SIGN_MASK) == SIGN_MASK;
        let sb = (b & SIGN_MASK) == SIGN_MASK;
        if sa && sb {
            mb < ma
        } else if !sa && !sb {
            ma < mb
        } else if sa {
            ma != 0 || mb != 0
        } else {
            false
        }
    }
}

/// At or below, in the standard's order: for finite encodings, exactly the
/// order of the represented values.
pub fn le(a: u64, b: u64) -> (r: bool)
    ensures
        r == fp_le(a, b),
        is_finite(a) && is_finite(b) ==> r == (scaled_value_of(a) <= scaled_value_of(b)),
{
    proof {
        if is_finite(a) && is_finite(b) {
            lemma_comparisons_order_values(a, b);
        }
    }
    if nan(a) || nan(b) {
        false
    } else {
        let ma = a & ABS_MASK;
        let mb = b & ABS_MASK;
        let sa = (a & SIGN_MASK) == SIGN_MASK;
        let sb = (b & SIGN_MASK) == SIGN_MASK;
        if sa && sb {
            mb <= ma
        } else if !sa && !sb {
            ma <= mb
        } else if sa {
            true
        } else {
            ma == 0 && mb == 0
        }
    }
}

/// Equal, in the standard's sense: the two zeros are equal, a NaN equals
/// nothing; for finite encodings, exactly equality of the represented
/// values.
pub fn eq_val(a: u64, b: u64) -> (r: bool)
    ensures
        r == fp_eq(a, b),
        is_finite(a) && is_finite(b) ==> r == (scaled_value_of(a) == scaled_value_of(b)),
{
    proof {
        if is_finite(a) && is_finite(b) {
            lemma_comparisons_order_values(a, b);
        }
    }
    if nan(a) || nan(b) {
        false
    } else {
        let ma = a & ABS_MASK;
        let mb = b & ABS_MASK;
        let sa = (a & SIGN_MASK) == SIGN_MASK;
        let sb = (b & SIGN_MASK) == SIGN_MASK;
        if sa == sb {
            ma == mb
        } else {
            ma == 0 && mb == 0
        }
    }
}

/// The NaN-ignoring maximum of two encodings.
pub fn max2(a: u64, b: u64) -> (r: u64)
    ensures
        r == fp_max(a, b),
{
    if nan(a) {
        b
    } else if nan(b) {
        a
    } else if lt(a, b) {
        b
    } else {
        a
    }
}

/// The NaN-ignoring minimum of two encodings.
pub fn min2(a: u64, b: u64) -> (r: u64)
    ensures
        r == fp_min(a, b),
{
    if nan(a) {
        b
    } else if nan(b) {
        a
    } else if lt(b, a) {
        b
    } else {
        a
    }
}

} // verus!
