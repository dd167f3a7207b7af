//! Bit-level model of the scalar operations on samples and gains.
//!
//! Sample values are 32-bit IEEE-754 quantities and gain values are 64-bit
//! IEEE-754 quantities; the verifier cannot reason about their arithmetic,
//! so this library carries them as their bit patterns (`u32` / `u64`) and
//! names the result of each primitive operation with an uninterpreted
//! specification function. Whether such an operation yields a NaN, and
//! every result that is not a NaN, is a pure function of the argument
//! bits, the same on every machine; only the payload of a returned NaN is
//! documented as non-deterministic. The contracts below therefore pin
//! each result exactly unless it is a NaN, and pin only its NaN-ness
//! otherwise (see [`like_bits`]). The executable wrappers perform the
//! real arithmetic through `bae_rs`'s scalar aliases (`SampleT` for the
//! single-precision type, `MathT` for the double-precision type).

use bae_rs::MathT;
use bae_rs::SampleT;
use vstd::prelude::*;

verus! {

/// Whether a single-precision bit pattern is a NaN: exponent all ones and
/// a nonzero mantissa. A plain bit test, deterministic.
pub open spec fn is_nan_bits(a: u32) -> bool {
    a & 0x7F80_0000 == 0x7F80_0000 && a & 0x007F_FFFF != 0
}

/// Whether a double-precision bit pattern is a NaN: exponent all ones and
/// a nonzero mantissa. A plain bit test, deterministic.
pub open spec fn math_is_nan_bits(a: u64) -> bool {
    a & 0x7FF0_0000_0000_0000 == 0x7FF0_0000_0000_0000 && a & 0x000F_FFFF_FFFF_FFFF != 0
}

/// `r` is the single-precision value named `s`, up to the payload of a
/// NaN: `r` is a NaN exactly when `s` is, and equals `s` otherwise. The
/// scalar operations fix whether a NaN arises, not which one.
pub open spec fn like_bits(r: u32, s: u32) -> bool {
    is_nan_bits(r) == is_nan_bits(s) && (!is_nan_bits(s) ==> r == s)
}

/// `r` is the double-precision value named `s`, up to the payload of a
/// NaN; see [`like_bits`].
pub open spec fn math_like_bits(r: u64, s: u64) -> bool {
    math_is_nan_bits(r) == math_is_nan_bits(s) && (!math_is_nan_bits(s) ==> r == s)
}

/// Result bits of negating a single-precision value.
pub uninterp spec fn neg_bits(a: u32) -> u32;

/// Result bits of adding two single-precision values, some NaN standing
/// for all when the sum is a NaN.
pub uninterp spec fn add_bits(a: u32, b: u32) -> u32;

/// Result bits of subtracting two single-precision values, some NaN
/// standing for all when the difference is a NaN.
pub uninterp spec fn sub_bits(a: u32, b: u32) -> u32;

/// Result bits of multiplying two single-precision values, some NaN
/// standing for all when the product is a NaN.
pub uninterp spec fn mul_bits(a: u32, b: u32) -> u32;

/// Result bits of dividing two single-precision values, some NaN standing
/// for all when the quotient is a NaN.
pub uninterp spec fn div_bits(a: u32, b: u32) -> u32;

/// Result bits of the single-precision square root, some NaN standing for
/// all when the input is a NaN or strictly negative.
pub uninterp spec fn sqrt_bits(a: u32) -> u32;

/// Whether the single-precision value `a` compares `<=` to `b`.
pub uninterp spec fn le_bits(a: u32, b: u32) -> bool;

/// Whether the single-precision value `a` compares `>=` to `b`.
pub uninterp spec fn ge_bits(a: u32, b: u32) -> bool;

/// Result bits of multiplying two double-precision values, some NaN
/// standing for all when the product is a NaN.
pub uninterp spec fn math_mul_bits(a: u64, b: u64) -> u64;

/// Whether the double-precision value `a` compares `<=` to `b`.
pub uninterp spec fn math_le_bits(a: u64, b: u64) -> bool;

/// Whether the double-precision value `a` compares `>=` to `b`.
pub uninterp spec fn math_ge_bits(a: u64, b: u64) -> bool;

/// Result bits of widening a single-precision value to double precision.
pub uninterp spec fn to_math_bits(a: u32) -> u64;

/// Result bits of narrowing a double-precision value to single precision.
pub uninterp spec fn to_sample_bits(a: u64) -> u32;

/// `d` is `c` scaled by the double-precision gain `m` — widened,
/// multiplied at double precision, narrowed back — up to the payload of a
/// NaN: whenever an input or the product is a NaN, `d` is some NaN;
/// otherwise `d` is the composed result exactly.
pub open spec fn gain_scaled(c: u32, m: u64, d: u32) -> bool {
    if is_nan_bits(c) || math_is_nan_bits(m) || math_is_nan_bits(
        math_mul_bits(to_math_bits(c), m),
    ) {
        is_nan_bits(d)
    } else {
        d == to_sample_bits(math_mul_bits(to_math_bits(c), m))
    }
}

/// `d` is `c` multiplied, at single precision, by the double-precision
/// gain `m` narrowed to single precision first, up to the payload of a
/// NaN.
pub open spec fn narrowed_gain_scaled(c: u32, m: u64, d: u32) -> bool {
    if math_is_nan_bits(m) {
        is_nan_bits(d)
    } else {
        like_bits(d, mul_bits(c, to_sample_bits(m)))
    }
}

/// `d` is the sample `s` scaled by the double-precision linear gain
/// `lin` — the gain multiplied by the widened sample, narrowed back — up
/// to the payload of a NaN: whenever an input or the product is a NaN,
/// `d` is some NaN; otherwise `d` is the composed result exactly.
pub open spec fn linear_gain_applied(lin: u64, s: u32, d: u32) -> bool {
    if math_is_nan_bits(lin) || is_nan_bits(s) || math_is_nan_bits(
        math_mul_bits(lin, to_math_bits(s)),
    ) {
        is_nan_bits(d)
    } else {
        d == to_sample_bits(math_mul_bits(lin, to_math_bits(s)))
    }
}

/// Relies on the single-precision unary `-` of core: a documented exact
/// sign-bit flip, a NaN's payload included, so a pure function of the
/// argument bits.
#[verifier::external_body]
pub(crate) fn neg_sample(a: u32) -> (r: u32)
    ensures
        r == neg_bits(a),
{
    (-SampleT::from_bits(a)).to_bits()
}

/// Relies on the single-precision `+` of core: IEEE-754 round-to-nearest
/// addition, deterministic but for the payload of a returned NaN; a NaN
/// operand propagates to a NaN result.
#[verifier::external_body]
pub(crate) fn add_samples(a: u32, b: u32) -> (r: u32)
    ensures
        like_bits(r, add_bits(a, b)),
        is_nan_bits(a) || is_nan_bits(b) ==> is_nan_bits(r),
{
    (SampleT::from_bits(a) + SampleT::from_bits(b)).to_bits()
}

/// Relies on the single-precision `-` of core: IEEE-754 round-to-nearest
/// subtraction, deterministic but for the payload of a returned NaN; a
/// NaN operand propagates to a NaN result.
#[verifier::external_body]
pub(crate) fn sub_samples(a: u32, b: u32) -> (r: u32)
    ensures
        like_bits(r, sub_bits(a, b)),
        is_nan_bits(a) || is_nan_bits(b) ==> is_nan_bits(r),
{
    (SampleT::from_bits(a) - SampleT::from_bits(b)).to_bits()
}

/// Relies on the single-precision `*` of core: IEEE-754 round-to-nearest
/// multiplication, deterministic but for the payload of a returned NaN; a
/// NaN operand propagates to a NaN result.
#[verifier::external_body]
pub(crate) fn mul_samples(a: u32, b: u32) -> (r: u32)
    ensures
        like_bits(r, mul_bits(a, b)),
        is_nan_bits(a) || is_nan_bits(b) ==> is_nan_bits(r),
{
    (SampleT::from_bits(a) * SampleT::from_bits(b)).to_bits()
}

/// Relies on the single-precision `/` of core: IEEE-754 round-to-nearest
/// division (division by zero gives an infinity, never a panic),
/// deterministic but for the payload of a returned NaN; a NaN operand
/// propagates to a NaN result.
#[verifier::external_body]
pub(crate) fn div_samples(a: u32, b: u32) -> (r: u32)
    ensures
        like_bits(r, div_bits(a, b)),
        is_nan_bits(a) || is_nan_bits(b) ==> is_nan_bits(r),
{
    (SampleT::from_bits(a) / SampleT::from_bits(b)).to_bits()
}

/// Relies on std's single-precision `sqrt`: IEEE-754 correctly rounded,
/// deterministic but for the payload of the NaN returned exactly when the
/// input is a NaN or strictly negative (sign bit set and magnitude
/// nonzero).
#[verifier::external_body]
pub(crate) fn sqrt_sample(a: u32) -> (r: u32)
    ensures
        like_bits(r, sqrt_bits(a)),
        is_nan_bits(r) == (is_nan_bits(a) || a > 0x8000_0000),
{
    SampleT::from_bits(a).sqrt().to_bits()
}

/// Relies on the single-precision `<=` of core: fully specified, a pure
/// function of the argument bits (false whenever either value is a NaN).
#[verifier::external_body]
pub(crate) fn le_samples(a: u32, b: u32) -> (r: bool)
    ensures
        r == le_bits(a, b),
{
    SampleT::from_bits(a) <= SampleT::from_bits(b)
}

/// Relies on the single-precision `>=` of core: fully specified, a pure
/// function of the argument bits (false whenever either value is a NaN).
#[verifier::external_body]
pub(crate) fn ge_samples(a: u32, b: u32) -> (r: bool)
    ensures
        r == ge_bits(a, b),
{
    SampleT::from_bits(a) >= SampleT::from_bits(b)
}

/// Relies on the double-precision `*` of core: IEEE-754 round-to-nearest
/// multiplication, deterministic but for the payload of a returned NaN; a
/// NaN operand propagates to a NaN result.
#[verifier::external_body]
pub(crate) fn mul_maths(a: u64, b: u64) -> (r: u64)
    ensures
        math_like_bits(r, math_mul_bits(a, b)),
        math_is_nan_bits(a) || math_is_nan_bits(b) ==> math_is_nan_bits(r),
{
    (MathT::from_bits(a) * MathT::from_bits(b)).to_bits()
}

/// Relies on the double-precision `<=` of core: fully specified, a pure
/// function of the argument bits (false whenever either value is a NaN).
#[verifier::external_body]
pub(crate) fn le_maths(a: u64, b: u64) -> (r: bool)
    ensures
        r == math_le_bits(a, b),
{
    MathT::from_bits(a) <= MathT::from_bits(b)
}

/// Relies on the double-precision `>=` of core: fully specified, a pure
/// function of the argument bits (false whenever either value is a NaN).
#[verifier::external_body]
pub(crate) fn ge_maths(a: u64, b: u64) -> (r: bool)
    ensures
        r == math_ge_bits(a, b),
{
    MathT::from_bits(a) >= MathT::from_bits(b)
}

/// Relies on core's lossless widening conversion from the
/// single-precision type to the double-precision type: deterministic but
/// for the payload of a widened NaN, and the result is a NaN exactly when
/// the argument is.
#[verifier::external_body]
pub(crate) fn sample_to_math(a: u32) -> (r: u64)
    ensures
        math_like_bits(r, to_math_bits(a)),
        math_is_nan_bits(r) == is_nan_bits(a),
{
    MathT::from(SampleT::from_bits(a)).to_bits()
}

/// Relies on core's narrowing `as` conversion from the double-precision
/// type to the single-precision type: IEEE-754 round-to-nearest,
/// deterministic but for the payload of a narrowed NaN, and the result is
/// a NaN exactly when the argument is (a finite value too large narrows
/// to an infinity, not a NaN).
#[verifier::external_body]
pub(crate) fn math_to_sample(a: u64) -> (r: u32)
    ensures
        like_bits(r, to_sample_bits(a)),
        is_nan_bits(r) == math_is_nan_bits(a),
{
    (MathT::from_bits(a) as SampleT).to_bits()
}

} // verus!
