//! Sample arithmetic on IEEE-754 bit patterns.
//!
//! The engine stores every binary32 sample as its bit pattern (`u32`) and
//! every binary64 position as its bit pattern (`u64`). Each arithmetic
//! operation is performed by `rustc_apfloat`, a software implementation of
//! IEEE-754 arithmetic, and is named here by an uninterpreted spec function,
//! so that the contracts of the renderers can state their output exactly as a
//! composition of these operations.

use vstd::prelude::*;

use rustc_apfloat::ieee::{Double, Single};
use rustc_apfloat::{Float, FloatConvert, Round, StatusAnd};

verus! {

/// IEEE-754 binary32 addition (round to nearest, ties to even), on bits.
pub uninterp spec fn add32(a: u32, b: u32) -> u32;

/// IEEE-754 binary32 subtraction (round to nearest, ties to even), on bits.
pub uninterp spec fn sub32(a: u32, b: u32) -> u32;

/// IEEE-754 binary32 multiplication (round to nearest, ties to even), on bits.
pub uninterp spec fn mul32(a: u32, b: u32) -> u32;

/// IEEE-754 binary32 division (round to nearest, ties to even), on bits.
pub uninterp spec fn div32(a: u32, b: u32) -> u32;

/// IEEE-754 binary32 negation, on bits.
pub uninterp spec fn neg32(a: u32) -> u32;

/// IEEE-754 binary32 ordered `<` comparison, on bits.
pub uninterp spec fn lt32(a: u32, b: u32) -> bool;

/// IEEE-754 binary32 ordered `<=` comparison, on bits.
pub uninterp spec fn le32(a: u32, b: u32) -> bool;

/// The binary32 value rounded to an integral value, ties away from zero.
pub uninterp spec fn round32(a: u32) -> u32;

/// The binary32 value converted to the compilation target's `usize`
/// (truncation towards zero, saturating at the type's bounds; not-a-number
/// becomes 0).
pub uninterp spec fn to_usize32(a: u32) -> usize;

/// The binary32 value converted to `i32` (truncation towards zero,
/// saturating at the type's bounds; not-a-number becomes 0).
pub uninterp spec fn to_i32_32(a: u32) -> i32;

/// The unsigned integer converted to the nearest binary32 value.
pub uninterp spec fn of_uint32(v: u64) -> u32;

/// The signed integer converted to the nearest binary32 value.
pub uninterp spec fn of_int32(v: i64) -> u32;

/// IEEE-754 binary64 addition (round to nearest, ties to even), on bits.
pub uninterp spec fn add64(a: u64, b: u64) -> u64;

/// IEEE-754 binary64 multiplication (round to nearest, ties to even), on bits.
pub uninterp spec fn mul64(a: u64, b: u64) -> u64;

/// IEEE-754 binary64 division (round to nearest, ties to even), on bits.
pub uninterp spec fn div64(a: u64, b: u64) -> u64;

/// The unsigned integer converted to the nearest binary64 value.
pub uninterp spec fn of_uint64(v: u64) -> u64;

/// The binary32 value widened to binary64 (exact).
pub uninterp spec fn widen64(a: u32) -> u64;

/// The binary64 value narrowed to the nearest binary32 value.
pub uninterp spec fn narrow32(a: u64) -> u32;

/// Relies on `rustc_apfloat::ieee::Single`'s `Add`: IEEE-754 binary32
/// addition, round to nearest, ties to even.
#[verifier::external_body]
pub(crate) fn f32_add(a: u32, b: u32) -> (r: u32)
    ensures
        r == add32(a, b),
{
    (Single::from_bits(a as u128) + Single::from_bits(b as u128)).value.to_bits() as u32
}

/// Relies on `rustc_apfloat::ieee::Single`'s `Sub`: IEEE-754 binary32
/// subtraction, round to nearest, ties to even.
#[verifier::external_body]
pub(crate) fn f32_sub(a: u32, b: u32) -> (r: u32)
    ensures
        r == sub32(a, b),
{
    (Single::from_bits(a as u128) - Single::from_bits(b as u128)).value.to_bits() as u32
}

/// Relies on `rustc_apfloat::ieee::Single`'s `Mul`: IEEE-754 binary32
/// multiplication, round to nearest, ties to even.
#[verifier::external_body]
pub(crate) fn f32_mul(a: u32, b: u32) -> (r: u32)
    ensures
        r == mul32(a, b),
{
    (Single::from_bits(a as u128) * Single::from_bits(b as u128)).value.to_bits() as u32
}

/// Relies on `rustc_apfloat::ieee::Single`'s `Div`: IEEE-754 binary32
/// division, round to nearest, ties to even.
#[verifier::external_body]
pub(crate) fn f32_div(a: u32, b: u32) -> (r: u32)
    ensures
        r == div32(a, b),
{
    (Single::from_bits(a as u128) / Single::from_bits(b as u128)).value.to_bits() as u32
}

/// Relies on `rustc_apfloat::ieee::Single`'s `Neg`: IEEE-754 sign flip.
#[verifier::external_body]
pub(crate) fn f32_neg(a: u32) -> (r: u32)
    ensures
        r == neg32(a),
{
    (-Single::from_bits(a as u128)).to_bits() as u32
}

/// Relies on `rustc_apfloat::ieee::Single`'s `PartialOrd`: IEEE-754 ordered
/// comparison (false whenever an operand is not-a-number).
#[verifier::external_body]
pub(crate) fn f32_lt(a: u32, b: u32) -> (r: bool)
    ensures
        r == lt32(a, b),
{
    Single::from_bits(a as u128) < Single::from_bits(b as u128)
}

/// Relies on `rustc_apfloat::ieee::Single`'s `PartialOrd`: IEEE-754 ordered
/// comparison (false whenever an operand is not-a-number).
#[verifier::external_body]
pub(crate) fn f32_le(a: u32, b: u32) -> (r: bool)
    ensures
        r == le32(a, b),
{
    Single::from_bits(a as u128) <= Single::from_bits(b as u128)
}

/// Relies on `rustc_apfloat::Float::round_to_integral` with ties rounding
/// away from zero, matching `f32::round`.
#[verifier::external_body]
pub(crate) fn f32_round(a: u32) -> (r: u32)
    ensures
        r == round32(a),
{
    Single::from_bits(a as u128).round_to_integral(Round::NearestTiesToAway).value.to_bits()
        as u32
}

/// Relies on `rustc_apfloat::Float::to_u128`: conversion to an unsigned
/// integer truncating towards zero, saturating at the bounds, 0 for
/// not-a-number — the behaviour of an `as usize` cast.
#[verifier::external_body]
pub(crate) fn f32_to_usize(a: u32) -> (r: usize)
    ensures
        r == to_usize32(a),
{
    Single::from_bits(a as u128).to_u128(usize::BITS as usize).value as usize
}

/// Relies on `rustc_apfloat::Float::to_i128`: conversion to a signed integer
/// truncating towards zero, saturating at the bounds, 0 for not-a-number —
/// the behaviour of an `as i32` cast.
#[verifier::external_body]
pub(crate) fn f32_to_i32(a: u32) -> (r: i32)
    ensures
        r == to_i32_32(a),
{
    Single::from_bits(a as u128).to_i128(32).value as i32
}

/// Relies on `rustc_apfloat::Float::from_u128`: the unsigned integer rounded
/// to the nearest binary32 value.
#[verifier::external_body]
pub(crate) fn f32_of_uint(v: u64) -> (r: u32)
    ensures
        r == of_uint32(v),
{
    Single::from_u128(v as u128).value.to_bits() as u32
}

/// Relies on `rustc_apfloat::Float::from_i128`: the signed integer rounded
/// to the nearest binary32 value.
#[verifier::external_body]
pub(crate) fn f32_of_int(v: i64) -> (r: u32)
    ensures
        r == of_int32(v),
{
    Single::from_i128(v as i128).value.to_bits() as u32
}

/// Relies on `rustc_apfloat::ieee::Double`'s `Add`: IEEE-754 binary64
/// addition, round to nearest, ties to even.
#[verifier::external_body]
pub(crate) fn f64_add(a: u64, b: u64) -> (r: u64)
    ensures
        r == add64(a, b),
{
    (Double::from_bits(a as u128) + Double::from_bits(b as u128)).value.to_bits() as u64
}

/// Relies on `rustc_apfloat::ieee::Double`'s `Mul`: IEEE-754 binary64
/// multiplication, round to nearest, ties to even.
#[verifier::external_body]
pub(crate) fn f64_mul(a: u64, b: u64) -> (r: u64)
    ensures
        r == mul64(a, b),
{
    (Double::from_bits(a as u128) * Double::from_bits(b as u128)).value.to_bits() as u64
}

/// Relies on `rustc_apfloat::ieee::Double`'s `Div`: IEEE-754 binary64
/// division, round to nearest, ties to even.
#[verifier::external_body]
pub(crate) fn f64_div(a: u64, b: u64) -> (r: u64)
    ensures
        r == div64(a, b),
{
    (Double::from_bits(a as u128) / Double::from_bits(b as u128)).value.to_bits() as u64
}

/// Relies on `rustc_apfloat::Float::from_u128`: the unsigned integer rounded
/// to the nearest binary64 value.
#[verifier::external_body]
pub(crate) fn f64_of_uint(v: u64) -> (r: u64)
    ensures
        r == of_uint64(v),
{
    Double::from_u128(v as u128).value.to_bits() as u64
}

/// Relies on `rustc_apfloat::FloatConvert::convert` from `Single` to
/// `Double`: the exact widening of a binary32 value to binary64.
#[verifier::external_body]
pub(crate) fn f32_widen(a: u32) -> (r: u64)
    ensures
        r == widen64(a),
{
    let mut loses_info = false;
    let d: StatusAnd<Double> = Single::from_bits(a as u128).convert(&mut loses_info);
    d.value.to_bits() as u64
}

/// Relies on `rustc_apfloat::FloatConvert::convert` from `Double` to
/// `Single`: the binary64 value rounded to the nearest binary32 value.
#[verifier::external_body]
pub(crate) fn f64_narrow(a: u64) -> (r: u32)
    ensures
        r == narrow32(a),
{
    let mut loses_info = false;
    let s: StatusAnd<Single> = Double::from_bits(a as u128).convert(&mut loses_info);
    s.value.to_bits() as u32
}

/// The larger of `a` and 4.0, as `f32::max(4.0, a)` computes it: `a` when
/// `4.0 < a`, otherwise 4.0 (in particular 4.0 when `a` is not-a-number).
pub(crate) fn f32_max_four(a: u32) -> (r: u32)
    ensures
        r == (if lt32(crate::F32_FOUR, a) {
            a
        } else {
            crate::F32_FOUR
        }),
{
    if f32_lt(crate::F32_FOUR, a) {
        a
    } else {
        crate::F32_FOUR
    }
}

} // verus!
