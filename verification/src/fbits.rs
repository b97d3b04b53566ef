//! IEEE 754 binary32 arithmetic on bit patterns.
//!
//! Every audio sample and every filter coefficient in this crate is carried
//! as the `u32` bit pattern of an IEEE 754 binary32 value.  The arithmetic
//! itself is done by `rustc_apfloat`, a software implementation of IEEE 754
//! whose results are a function of the operand bit patterns alone, the same
//! on every machine.  Each operation is wrapped once here; its result is
//! named by an uninterpreted spec function, so that the rest of the crate
//! can state exactly which value each sample computation produces.

use vstd::prelude::*;
use rustc_apfloat::Float;

verus! {

/// Bit pattern of 1.0f32.
pub const ONE_BITS: u32 = 0x3F80_0000;
/// Bit pattern of 2.0f32.
pub const TWO_BITS: u32 = 0x4000_0000;
/// Bit pattern of -2.0f32.
pub const NEG_TWO_BITS: u32 = 0xC000_0000;
/// Bit pattern of core::f32::consts::PI.
pub const PI_BITS: u32 = 0x4049_0FDB;
/// Bit pattern of -0.0f32.
pub const NEG_ZERO_BITS: u32 = 0x8000_0000;

/// Magnitude field (everything but the sign bit) of a binary32 bit pattern.
pub open spec fn fp_mag(w: u32) -> int {
    (w as int) % 0x8000_0000
}

/// Sign bit of a binary32 bit pattern: 1 for negative, 0 for positive.
pub open spec fn fp_sign_bit(w: u32) -> int {
    (w as int) / 0x8000_0000
}

/// The pattern encodes a NaN (magnitude above that of infinity).
pub open spec fn fp_is_nan(w: u32) -> bool {
    fp_mag(w) > 0x7F80_0000
}

/// The pattern encodes a finite value (magnitude below that of infinity).
pub open spec fn fp_is_finite(w: u32) -> bool {
    fp_mag(w) < 0x7F80_0000
}

/// Order key of a non-NaN binary32 pattern: sign-magnitude as a signed
/// integer.  Both zeros map to 0, and the IEEE ordering of two non-NaN
/// values is exactly the integer ordering of their keys.
pub open spec fn fp_order_key(w: u32) -> int {
    if fp_sign_bit(w) == 1 {
        -fp_mag(w)
    } else {
        fp_mag(w)
    }
}

/// IEEE `<` on binary32 bit patterns: false whenever either side is NaN.
pub open spec fn fp_lt(a: u32, b: u32) -> bool {
    !fp_is_nan(a) && !fp_is_nan(b) && fp_order_key(a) < fp_order_key(b)
}

/// IEEE `>=` on binary32 bit patterns: false whenever either side is NaN.
pub open spec fn fp_ge(a: u32, b: u32) -> bool {
    !fp_is_nan(a) && !fp_is_nan(b) && fp_order_key(a) >= fp_order_key(b)
}

pub uninterp spec fn fp_add(a: u32, b: u32) -> u32;

pub uninterp spec fn fp_sub(a: u32, b: u32) -> u32;

pub uninterp spec fn fp_mul(a: u32, b: u32) -> u32;

pub uninterp spec fn fp_div(a: u32, b: u32) -> u32;

pub uninterp spec fn fp_fmod(a: u32, b: u32) -> u32;

pub uninterp spec fn fp_round_half_away(a: u32) -> u32;

pub uninterp spec fn fp_of_int(i: int) -> u32;

/// Relies on rustc_apfloat::ieee::Single: IEEE 754 binary32 addition,
/// round to nearest, ties to even.  Adding positive zero returns the other
/// operand unchanged whenever that operand is neither NaN nor negative zero.
#[verifier::external_body]
pub fn add_words(a: u32, b: u32) -> (r: u32)
    ensures
        r == fp_add(a, b),
        a == 0u32 && !fp_is_nan(b) && b != NEG_ZERO_BITS ==> r == b,
        b == 0u32 && !fp_is_nan(a) && a != NEG_ZERO_BITS ==> r == a,
{
    let x = rustc_apfloat::ieee::Single::from_bits(a as u128);
    let y = rustc_apfloat::ieee::Single::from_bits(b as u128);
    (x + y).value.to_bits() as u32
}

/// Relies on rustc_apfloat::ieee::Single: IEEE 754 binary32 subtraction,
/// round to nearest, ties to even.  Subtracting a finite value from itself
/// yields positive zero.
#[verifier::external_body]
pub fn sub_words(a: u32, b: u32) -> (r: u32)
    ensures
        r == fp_sub(a, b),
        a == b && fp_is_finite(a) ==> r == 0u32,
{
    let x = rustc_apfloat::ieee::Single::from_bits(a as u128);
    let y = rustc_apfloat::ieee::Single::from_bits(b as u128);
    (x - y).value.to_bits() as u32
}

/// Relies on rustc_apfloat::ieee::Single: IEEE 754 binary32 multiplication,
/// round to nearest, ties to even.  Multiplying a non-NaN value by 1.0
/// returns it unchanged; the product of two positive zeros is positive zero.
#[verifier::external_body]
pub fn mul_words(a: u32, b: u32) -> (r: u32)
    ensures
        r == fp_mul(a, b),
        b == ONE_BITS && !fp_is_nan(a) ==> r == a,
        a == 0u32 && b == 0u32 ==> r == 0u32,
{
    let x = rustc_apfloat::ieee::Single::from_bits(a as u128);
    let y = rustc_apfloat::ieee::Single::from_bits(b as u128);
    (x * y).value.to_bits() as u32
}

/// Relies on rustc_apfloat::ieee::Single: IEEE 754 binary32 division,
/// round to nearest, ties to even.  Dividing a non-NaN value by 1.0 returns
/// it unchanged.
#[verifier::external_body]
pub fn div_words(a: u32, b: u32) -> (r: u32)
    ensures
        r == fp_div(a, b),
        b == ONE_BITS && !fp_is_nan(a) ==> r == a,
{
    let x = rustc_apfloat::ieee::Single::from_bits(a as u128);
    let y = rustc_apfloat::ieee::Single::from_bits(b as u128);
    (x / y).value.to_bits() as u32
}

/// Relies on rustc_apfloat::ieee::Single::c_fmod: the remainder with the
/// same sign as the dividend that Rust's `%` computes on binary32 values.
#[verifier::external_body]
pub fn fmod_words(a: u32, b: u32) -> (r: u32)
    ensures
        r == fp_fmod(a, b),
{
    let x = rustc_apfloat::ieee::Single::from_bits(a as u128);
    let y = rustc_apfloat::ieee::Single::from_bits(b as u128);
    x.c_fmod(y).value.to_bits() as u32
}

/// Relies on rustc_apfloat::ieee::Single::round_to_integral with ties away
/// from zero: the rounding that `round` performs on a binary32 value.
/// Rounding a non-NaN value never produces a NaN.
#[verifier::external_body]
pub fn round_words(a: u32) -> (r: u32)
    ensures
        r == fp_round_half_away(a),
        !fp_is_nan(a) ==> !fp_is_nan(r),
{
    let x = rustc_apfloat::ieee::Single::from_bits(a as u128);
    x.round_to_integral(rustc_apfloat::Round::NearestTiesToAway).value.to_bits() as u32
}

/// Relies on rustc_apfloat::ieee::Single::from_u128_r: the conversion of an
/// unsigned integer to the nearest binary32 value, ties to even, which is
/// what an `as` cast performs.  The result is integral, so its remainder
/// modulo 1.0 is positive zero.
#[verifier::external_body]
pub fn word_of_usize(i: usize) -> (r: u32)
    ensures
        r == fp_of_int(i as int),
        fp_fmod(r, ONE_BITS) == 0u32,
        !fp_is_nan(r),
{
    let x = rustc_apfloat::ieee::Single::from_u128_r(i as u128, rustc_apfloat::Round::NearestTiesToEven);
    x.value.to_bits() as u32
}

/// Relies on the PartialOrd impl of rustc_apfloat::ieee::Single: the IEEE
/// comparison, under which NaN compares with nothing and the two zeros are
/// equal.
#[verifier::external_body]
pub fn lt_words(a: u32, b: u32) -> (r: bool)
    ensures
        r == fp_lt(a, b),
{
    let x = rustc_apfloat::ieee::Single::from_bits(a as u128);
    let y = rustc_apfloat::ieee::Single::from_bits(b as u128);
    x < y
}

/// Relies on the PartialOrd impl of rustc_apfloat::ieee::Single: the IEEE
/// comparison, under which NaN compares with nothing and the two zeros are
/// equal.
#[verifier::external_body]
pub fn ge_words(a: u32, b: u32) -> (r: bool)
    ensures
        r == fp_ge(a, b),
{
    let x = rustc_apfloat::ieee::Single::from_bits(a as u128);
    let y = rustc_apfloat::ieee::Single::from_bits(b as u128);
    x >= y
}

} // verus!
