//! The IEEE 754 binary64 format, read from a number's bit pattern.
//!
//! A pattern is laid out, from the most significant bit down, as one sign
//! bit, eleven exponent bits and fifty-two fraction bits. The spec functions
//! below give the classification and the ordering of the numbers that the
//! patterns encode; each executable function computes one of them.
use vstd::prelude::*;

verus! {

/// Weight of the lowest exponent bit: the fraction field holds the bits below it.
pub const FRACTION_SPAN: u64 = 0x10_0000_0000_0000;

/// The sign bit; the bits below it hold the magnitude.
pub const SIGN_BIT: u64 = 0x8000_0000_0000_0000;

/// An exponent field of all ones marks an infinity or a NaN.
pub const EXPONENT_ALL_ONES: u64 = 0x7ff;

/// The pattern of positive zero.
pub const ZERO: u64 = 0;

/// The pattern of one.
pub const ONE: u64 = 0x3ff0_0000_0000_0000;

pub open spec fn exponent_field(b: u64) -> int {
    (b as int / FRACTION_SPAN as int) % 0x800
}

pub open spec fn fraction_field(b: u64) -> int {
    b as int % FRACTION_SPAN as int
}

pub open spec fn sign_negative(b: u64) -> bool {
    b >= SIGN_BIT
}

/// The pattern with the sign bit cleared.
pub open spec fn magnitude(b: u64) -> int {
    b as int % SIGN_BIT as int
}

pub open spec fn is_nan(b: u64) -> bool {
    exponent_field(b) == EXPONENT_ALL_ONES && fraction_field(b) != 0
}

pub open spec fn is_finite(b: u64) -> bool {
    exponent_field(b) != EXPONENT_ALL_ONES
}

/// Neither zero, subnormal, infinite nor NaN.
pub open spec fn is_normal(b: u64) -> bool {
    exponent_field(b) != 0 && exponent_field(b) != EXPONENT_ALL_ONES
}

pub open spec fn is_subnormal(b: u64) -> bool {
    exponent_field(b) == 0 && fraction_field(b) != 0
}

/// The place of a non-NaN number on the extended real line: for two such
/// patterns, the numbers compare as their ranks do. Both zeros rank as 0.
pub open spec fn rank(b: u64) -> int {
    if sign_negative(b) {
        -magnitude(b)
    } else {
        magnitude(b)
    }
}

/// The floating-point comparison `x < y` (false where either is NaN).
pub open spec fn lt(x: u64, y: u64) -> bool {
    !is_nan(x) && !is_nan(y) && rank(x) < rank(y)
}

/// The floating-point comparison `x <= y` (false where either is NaN).
pub open spec fn le(x: u64, y: u64) -> bool {
    !is_nan(x) && !is_nan(y) && rank(x) <= rank(y)
}

fn exponent_of(b: u64) -> (r: u64)
    ensures
        r as int == exponent_field(b),
{
    (b / FRACTION_SPAN) % 0x800
}

fn fraction_of(b: u64) -> (r: u64)
    ensures
        r as int == fraction_field(b),
{
    b % FRACTION_SPAN
}

fn rank_of(b: u64) -> (r: i128)
    ensures
        r as int == rank(b),
{
    let m: u64 = b % SIGN_BIT;
    if b >= SIGN_BIT {
        -(m as i128)
    } else {
        m as i128
    }
}

/// Whether `b` encodes a NaN.
pub fn nan(b: u64) -> (r: bool)
    ensures
        r == is_nan(b),
{
    exponent_of(b) == EXPONENT_ALL_ONES && fraction_of(b) != 0
}

/// Whether `b` encodes a finite number.
pub fn finite(b: u64) -> (r: bool)
    ensures
        r == is_finite(b),
{
    exponent_of(b) != EXPONENT_ALL_ONES
}

/// Whether `b` encodes a normal number.
pub fn normal(b: u64) -> (r: bool)
    ensures
        r == is_normal(b),
{
    let e: u64 = exponent_of(b);
    e != 0 && e != EXPONENT_ALL_ONES
}

/// Whether `b` encodes a subnormal number.
pub fn subnormal(b: u64) -> (r: bool)
    ensures
        r == is_subnormal(b),
{
    exponent_of(b) == 0 && fraction_of(b) != 0
}

/// The comparison `x < y` on the encoded numbers.
pub fn less_than(x: u64, y: u64) -> (r: bool)
    ensures
        r == lt(x, y),
{
    !nan(x) && !nan(y) && rank_of(x) < rank_of(y)
}

/// The comparison `x <= y` on the encoded numbers.
pub fn less_or_equal(x: u64, y: u64) -> (r: bool)
    ensures
        r == le(x, y),
{
    !nan(x) && !nan(y) && rank_of(x) <= rank_of(y)
}

} // verus!
