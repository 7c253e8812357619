//! The scalar model: every value the engine carries is an IEEE 754 binary64
//! number held as its raw bit pattern (`u64`).
//!
//! Classification and ordering of such patterns are plain integer logic and
//! are verified here. The three arithmetic operations the engine needs
//! (addition, multiplication, division) and the integer-to-double conversion
//! are performed by `rustc_apfloat`, a software implementation of IEEE 754
//! binary64 arithmetic with round-to-nearest-even, behind trusted wrappers;
//! their results are named, not modelled.

use vstd::prelude::*;
use rustc_apfloat::Float;
use rustc_apfloat::ieee::Double;

verus! {

/// The bit pattern of positive zero.
pub const POS_ZERO: u64 = 0x0000_0000_0000_0000;

/// The bit pattern of positive one.
pub const ONE_BITS: u64 = 0x3FF0_0000_0000_0000;

/// The sign bit of a binary64 pattern.
pub const SIGN_MASK: u64 = 0x8000_0000_0000_0000;

/// The exponent field of a binary64 pattern.
pub const EXP_MASK: u64 = 0x7FF0_0000_0000_0000;

/// Everything but the sign bit: exponent and mantissa.
pub const MAG_MASK: u64 = 0x7FFF_FFFF_FFFF_FFFF;

/// Holds when the pattern encodes a NaN: all exponent bits set and a
/// non-empty mantissa.
pub open spec fn is_nan_bits(a: u64) -> bool {
    a & EXP_MASK == EXP_MASK && a & MAG_MASK != a & EXP_MASK
}

/// Holds when the pattern encodes a zero of either sign.
pub open spec fn is_zero_bits(a: u64) -> bool {
    a & MAG_MASK == 0
}

/// Holds when the pattern encodes a strictly positive finite number
/// (normal or subnormal): positive sign, non-zero magnitude, exponent
/// below the infinity/NaN range.
pub open spec fn is_pos_real_bits(a: u64) -> bool {
    0 < a < EXP_MASK
}

/// Maps a non-NaN pattern to a key whose unsigned order is the numeric
/// order of the doubles: negative patterns are complemented, positive
/// ones get the sign bit set.
pub open spec fn order_key(a: u64) -> u64 {
    if a & SIGN_MASK != 0 {
        !a
    } else {
        a | SIGN_MASK
    }
}

/// The IEEE 754 `>` relation on binary64 patterns: false when either side
/// is NaN or when both are zeros (zeros compare equal regardless of sign),
/// otherwise the order of the keys.
pub open spec fn gt_bits(a: u64, b: u64) -> bool {
    &&& !is_nan_bits(a)
    &&& !is_nan_bits(b)
    &&& !(is_zero_bits(a) && is_zero_bits(b))
    &&& order_key(a) > order_key(b)
}

/// The comparison-based running maximum: keeps the accumulator unless the
/// candidate compares strictly greater. A NaN candidate never displaces
/// the accumulator; a NaN accumulator is kept.
pub open spec fn max_bits(acc: u64, x: u64) -> u64 {
    if gt_bits(x, acc) {
        x
    } else {
        acc
    }
}

/// The bit-level `>` relation is transitive: its key order is the unsigned
/// order of the keys, and no pattern's key lies strictly between the two
/// zeros' keys.
pub proof fn lemma_gt_trans(a: u64, b: u64, c: u64)
    requires
        gt_bits(a, b),
        gt_bits(b, c),
    ensures
        gt_bits(a, c),
{
    assert(!(((if a & 0x8000_0000_0000_0000u64 != 0 {
        !a
    } else {
        a | 0x8000_0000_0000_0000u64
    }) > (if b & 0x8000_0000_0000_0000u64 != 0 {
        !b
    } else {
        b | 0x8000_0000_0000_0000u64
    })) && ((if b & 0x8000_0000_0000_0000u64 != 0 {
        !b
    } else {
        b | 0x8000_0000_0000_0000u64
    }) > (if c & 0x8000_0000_0000_0000u64 != 0 {
        !c
    } else {
        c | 0x8000_0000_0000_0000u64
    })) && (a & 0x7FFF_FFFF_FFFF_FFFFu64 == 0) && (c & 0x7FFF_FFFF_FFFF_FFFFu64 == 0)))
        by (bit_vector);
}

/// The bit-level `>` relation is antisymmetric up to the two zeros: two
/// non-NaN patterns neither of which compares greater than the other are
/// equal, or are both zeros (the keys are injective).
pub proof fn lemma_gt_antisym(a: u64, b: u64)
    requires
        !is_nan_bits(a),
        !is_nan_bits(b),
        !gt_bits(a, b),
        !gt_bits(b, a),
    ensures
        a == b || (is_zero_bits(a) && is_zero_bits(b)),
{
    if !(is_zero_bits(a) && is_zero_bits(b)) {
        assert((if a & 0x8000_0000_0000_0000u64 != 0 {
            !a
        } else {
            a | 0x8000_0000_0000_0000u64
        }) == (if b & 0x8000_0000_0000_0000u64 != 0 {
            !b
        } else {
            b | 0x8000_0000_0000_0000u64
        }) ==> a == b) by (bit_vector);
    }
}

/// Tests whether a pattern encodes NaN.
pub fn is_nan(a: u64) -> (r: bool)
    ensures
        r == is_nan_bits(a),
{
    a & EXP_MASK == EXP_MASK && a & MAG_MASK != a & EXP_MASK
}

/// Tests whether a pattern encodes a zero of either sign.
pub fn is_zero(a: u64) -> (r: bool)
    ensures
        r == is_zero_bits(a),
{
    a & MAG_MASK == 0
}

/// Tests whether a pattern encodes a strictly positive finite number.
pub fn is_pos_real(a: u64) -> (r: bool)
    ensures
        r == is_pos_real_bits(a),
{
    0 < a && a < EXP_MASK
}

/// The IEEE 754 `>` comparison, computed on the bit patterns.
pub fn fgt(a: u64, b: u64) -> (r: bool)
    ensures
        r == gt_bits(a, b),
{
    let key_a: u64 = if a & SIGN_MASK != 0 { !a } else { a | SIGN_MASK };
    let key_b: u64 = if b & SIGN_MASK != 0 { !b } else { b | SIGN_MASK };
    let nan_a = a & EXP_MASK == EXP_MASK && a & MAG_MASK != a & EXP_MASK;
    let nan_b = b & EXP_MASK == EXP_MASK && b & MAG_MASK != b & EXP_MASK;
    let both_zero = a & MAG_MASK == 0 && b & MAG_MASK == 0;
    !nan_a && !nan_b && !both_zero && key_a > key_b
}

/// The comparison-based running maximum.
pub fn fmax(acc: u64, x: u64) -> (r: u64)
    ensures
        r == max_bits(acc, x),
{
    if fgt(x, acc) {
        x
    } else {
        acc
    }
}

/// Names the pattern of the IEEE 754 binary64 sum (round to nearest even)
/// of the doubles with patterns `a` and `b`.
pub uninterp spec fn add_bits(a: u64, b: u64) -> u64;

/// Names the pattern of the IEEE 754 binary64 difference of the doubles
/// with patterns `a` and `b`.
pub uninterp spec fn sub_bits(a: u64, b: u64) -> u64;

/// Names the pattern of the IEEE 754 binary64 product of the doubles with
/// patterns `a` and `b`.
pub uninterp spec fn mul_bits(a: u64, b: u64) -> u64;

/// Names the pattern of the IEEE 754 binary64 quotient of the doubles with
/// patterns `a` and `b`.
pub uninterp spec fn div_bits(a: u64, b: u64) -> u64;

/// Names the pattern of the binary64 number nearest to the integer `n`.
pub uninterp spec fn double_of_int(n: int) -> u64;

/// Relies on `rustc_apfloat::ieee::Double`'s `Add`: IEEE 754 binary64
/// addition, round to nearest even, a function of the operands alone.
/// Two operands with clear sign bits give a result with a clear sign bit:
/// like-signed addition keeps the sign, an exact zero sum is positive under
/// this rounding, and a NaN result is a propagated operand.
#[verifier::external_body]
pub(crate) fn fadd(a: u64, b: u64) -> (r: u64)
    ensures
        r == add_bits(a, b),
        a & SIGN_MASK == 0 && b & SIGN_MASK == 0 ==> r & SIGN_MASK == 0,
{
    (Double::from_bits(a as u128) + Double::from_bits(b as u128)).value.to_bits() as u64
}

/// Relies on `rustc_apfloat::ieee::Double`'s `Sub`: IEEE 754 binary64
/// subtraction, round to nearest even, a function of the operands alone.
#[verifier::external_body]
pub(crate) fn fsub(a: u64, b: u64) -> (r: u64)
    ensures
        r == sub_bits(a, b),
{
    (Double::from_bits(a as u128) - Double::from_bits(b as u128)).value.to_bits() as u64
}

/// Relies on `rustc_apfloat::ieee::Double`'s `Mul`: IEEE 754 binary64
/// multiplication, round to nearest even, a function of the operands alone.
/// Two operands with clear sign bits give a result with a clear sign bit:
/// the result's sign is the operands' exclusive or, and the invalid-operation
/// NaN is the positive quiet NaN.
#[verifier::external_body]
pub(crate) fn fmul(a: u64, b: u64) -> (r: u64)
    ensures
        r == mul_bits(a, b),
        a & SIGN_MASK == 0 && b & SIGN_MASK == 0 ==> r & SIGN_MASK == 0,
{
    (Double::from_bits(a as u128) * Double::from_bits(b as u128)).value.to_bits() as u64
}

/// Relies on `rustc_apfloat::ieee::Double`'s `Div`: IEEE 754 binary64
/// division, round to nearest even, a function of the operands alone.
/// Division is correctly rounded, so dividing a non-NaN value by one
/// returns it exactly, and a positive finite value divided by itself is
/// exactly one. Signs combine by exclusive or (the invalid-operation NaN is
/// the positive quiet NaN), so clear-signed operands give a clear-signed
/// result; and a non-NaN, non-negative dividend no greater than a positive
/// finite divisor gives a finite quotient no greater than one.
#[verifier::external_body]
pub(crate) fn fdiv(a: u64, b: u64) -> (r: u64)
    ensures
        r == div_bits(a, b),
        b == ONE_BITS && !is_nan_bits(a) ==> r == a,
        a == b && is_pos_real_bits(a) ==> r == ONE_BITS,
        a & SIGN_MASK == 0 && b & SIGN_MASK == 0 ==> r & SIGN_MASK == 0,
        a & SIGN_MASK == 0 && !is_nan_bits(a) && is_pos_real_bits(b) && !gt_bits(a, b) ==> (!gt_bits(
            r,
            ONE_BITS,
        ) && !is_nan_bits(r)),
{
    (Double::from_bits(a as u128) / Double::from_bits(b as u128)).value.to_bits() as u64
}

/// Relies on `rustc_apfloat::ieee::Double::from_u128`: conversion of an
/// unsigned integer to the nearest binary64, a function of the integer alone.
#[verifier::external_body]
pub(crate) fn from_uint(n: usize) -> (r: u64)
    ensures
        r == double_of_int(n as int),
{
    Double::from_u128(n as u128).value.to_bits() as u64
}

} // verus!
