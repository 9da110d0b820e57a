//! IEEE-754 binary64 scalars, represented by their bit patterns.
//!
//! Verified code in this crate never touches a floating-point value directly:
//! every scalar is carried as the `u64` bit pattern of an IEEE-754 binary64
//! number, and every arithmetic step goes through one of the trusted wrappers
//! below, which delegate to the `const_soft_float` crate (a pure-Rust port of
//! the compiler-builtins / libm soft-float routines, correctly rounded to
//! nearest even — the rounding used by ordinary hardware floating point). Each operation's value is given a name by
//! an uninterpreted spec function, so the contracts of the physics code can
//! pin results down as exact compositions of IEEE-754 operations.

use const_soft_float::soft_f64::SoftF64;
use vstd::prelude::*;

verus! {

/// Bit pattern of `+0.0`.
pub const POS_ZERO: u64 = 0;

/// Bit pattern of `-0.0`.
pub const NEG_ZERO: u64 = 0x8000_0000_0000_0000;

/// The exponent field is all ones and the fraction is non-zero: a NaN.
pub open spec fn is_nan_bits(a: u64) -> bool {
    (a >> 52) & 0x7ff == 0x7ff && a & 0xf_ffff_ffff_ffff != 0
}

/// The exponent field is not all ones: a zero, a subnormal or a normal number.
pub open spec fn is_finite_bits(a: u64) -> bool {
    (a >> 52) & 0x7ff != 0x7ff
}

/// The sign bit is set.
pub open spec fn is_neg_bits(a: u64) -> bool {
    a >> 63 == 1
}

/// The IEEE-754 binary64 sum of `a` and `b`, rounded to nearest even.
pub uninterp spec fn add_bits(a: u64, b: u64) -> u64;

/// The IEEE-754 binary64 difference `a - b`, rounded to nearest even.
pub uninterp spec fn sub_bits(a: u64, b: u64) -> u64;

/// The IEEE-754 binary64 product of `a` and `b`, rounded to nearest even.
pub uninterp spec fn mul_bits(a: u64, b: u64) -> u64;

/// The IEEE-754 binary64 quotient `a / b`, rounded to nearest even.
pub uninterp spec fn div_bits(a: u64, b: u64) -> u64;

/// The IEEE-754 binary64 square root of `a`, rounded to nearest even.
pub uninterp spec fn sqrt_bits(a: u64) -> u64;

/// The IEEE-754 quiet comparison `a < b` (false if either operand is NaN).
pub uninterp spec fn lt_bits(a: u64, b: u64) -> bool;

/// The IEEE-754 quiet comparison `a <= b` (false if either operand is NaN).
pub uninterp spec fn le_bits(a: u64, b: u64) -> bool;

/// The IEEE-754 quiet comparison `a == b` (false if either operand is NaN;
/// `+0.0` and `-0.0` compare equal).
pub uninterp spec fn eq_bits(a: u64, b: u64) -> bool;

/// The bit pattern of `+0.0` is not a NaN.
pub proof fn lemma_pos_zero_not_nan()
    ensures
        !is_nan_bits(POS_ZERO),
{
    assert((0u64 >> 52) & 0x7ff != 0x7ff) by (bit_vector);
}

/// Relies on `const_soft_float::soft_f64::SoftF64::add`: IEEE-754 binary64
/// addition, round to nearest even. Besides naming the result, this states what IEEE-754
/// guarantees of a sum: two positive operands give a positive sum, two
/// non-negative operands a non-negative sum, and adding a zero returns the
/// other operand unchanged (except that `-0.0 + +0.0` is `+0.0`).
#[verifier::external_body]
pub(crate) fn f64_add(a: u64, b: u64) -> (r: u64)
    ensures
        r == add_bits(a, b),
        lt_bits(POS_ZERO, a) && lt_bits(POS_ZERO, b) ==> lt_bits(POS_ZERO, r),
        le_bits(POS_ZERO, a) && le_bits(POS_ZERO, b) ==> le_bits(POS_ZERO, r),
        !is_nan_bits(a) && b == POS_ZERO && a != NEG_ZERO ==> r == a,
        !is_nan_bits(a) && b == NEG_ZERO ==> r == a,
{
    SoftF64::from_bits(a).add(SoftF64::from_bits(b)).to_bits()
}

/// Relies on `const_soft_float::soft_f64::SoftF64::sub`: IEEE-754 binary64
/// subtraction (addition of the negated operand), round to nearest even. Besides naming the result: for non-NaN operands,
/// `b - a` is the exact negation of `a - b` (or both are `+0.0`), so the two
/// differences have equal squares.
#[verifier::external_body]
pub(crate) fn f64_sub(a: u64, b: u64) -> (r: u64)
    ensures
        r == sub_bits(a, b),
        !is_nan_bits(a) && !is_nan_bits(b) ==> mul_bits(r, r) == mul_bits(
            sub_bits(b, a),
            sub_bits(b, a),
        ),
{
    SoftF64::from_bits(a).sub(SoftF64::from_bits(b)).to_bits()
}

/// Relies on `const_soft_float::soft_f64::SoftF64::mul`: IEEE-754 binary64
/// multiplication, round to nearest even. Besides naming the result: the square of a
/// non-negative value is non-negative, and `+0.0` times a finite value is a
/// zero whose sign is the sign of that value.
#[verifier::external_body]
pub(crate) fn f64_mul(a: u64, b: u64) -> (r: u64)
    ensures
        r == mul_bits(a, b),
        a == b && le_bits(POS_ZERO, a) ==> le_bits(POS_ZERO, r),
        a == POS_ZERO && is_finite_bits(b) && !is_neg_bits(b) ==> r == POS_ZERO,
        a == POS_ZERO && is_finite_bits(b) && is_neg_bits(b) ==> r == NEG_ZERO,
{
    SoftF64::from_bits(a).mul(SoftF64::from_bits(b)).to_bits()
}

/// Relies on `const_soft_float::soft_f64::SoftF64::div`: IEEE-754 binary64
/// division, round to nearest even. Besides naming the result: `+0.0` divided by a positive
/// value is `+0.0`.
#[verifier::external_body]
pub(crate) fn f64_div(a: u64, b: u64) -> (r: u64)
    ensures
        r == div_bits(a, b),
        a == POS_ZERO && lt_bits(POS_ZERO, b) ==> r == POS_ZERO,
{
    SoftF64::from_bits(a).div(SoftF64::from_bits(b)).to_bits()
}

/// Relies on `const_soft_float::soft_f64::SoftF64::sqrt`: IEEE-754 binary64
/// square root, correctly rounded to nearest even. Besides naming the result: the square root of a
/// non-negative value is non-negative.
#[verifier::external_body]
pub(crate) fn f64_sqrt(a: u64) -> (r: u64)
    ensures
        r == sqrt_bits(a),
        le_bits(POS_ZERO, a) ==> le_bits(POS_ZERO, r),
{
    SoftF64::from_bits(a).sqrt().to_bits()
}

/// Relies on `const_soft_float::soft_f64::SoftF64::cmp`: the IEEE-754 quiet
/// comparison, read as `<` (false when either operand is NaN).
#[verifier::external_body]
pub(crate) fn f64_lt(a: u64, b: u64) -> (r: bool)
    ensures
        r == lt_bits(a, b),
{
    matches!(
        SoftF64::from_bits(a).cmp(SoftF64::from_bits(b)),
        Some(core::cmp::Ordering::Less),
    )
}

/// Relies on `const_soft_float::soft_f64::SoftF64::cmp`: the IEEE-754 quiet
/// comparison, read as `<=` (false when either operand is NaN).
#[verifier::external_body]
pub(crate) fn f64_le(a: u64, b: u64) -> (r: bool)
    ensures
        r == le_bits(a, b),
{
    matches!(
        SoftF64::from_bits(a).cmp(SoftF64::from_bits(b)),
        Some(core::cmp::Ordering::Less) | Some(core::cmp::Ordering::Equal),
    )
}

/// Relies on `const_soft_float::soft_f64::SoftF64::cmp`: the IEEE-754 quiet
/// comparison, read as `==` (`+0.0` and `-0.0` compare equal; NaN equals
/// nothing).
#[verifier::external_body]
pub(crate) fn f64_eq(a: u64, b: u64) -> (r: bool)
    ensures
        r == eq_bits(a, b),
{
    matches!(
        SoftF64::from_bits(a).cmp(SoftF64::from_bits(b)),
        Some(core::cmp::Ordering::Equal),
    )
}

} // verus!
