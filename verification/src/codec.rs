//! Trusted entry points into `bae_rs`'s scalar codec and gain functions.
//!
//! The byte/integer codecs and the interpolation are scalar arithmetic
//! that the verifier cannot follow, but each is a function of its
//! argument bits (up to the payload of a NaN), so each result is given a
//! name by an uninterpreted specification function, as in
//! [`crate::scalar`]. The one exception is the decibel-to-linear
//! conversion, whose `powf` has documented platform-dependent precision:
//! its result is not a function of its argument, so nothing is assumed of
//! it, and verified code takes the value it returned as an argument.
//!
//! These helpers are published within `bae_rs`, which also ships channel
//! layouts of its own; this library consumes only this scalar utility
//! surface — the codecs, `clerp`, `db_to_linear` and the type aliases —
//! and none of that crate's channel-layout logic.

use bae_rs::MathT;
use bae_rs::SampleT;
use vstd::prelude::*;

verus! {

/// Sample bits decoded from an unsigned 8-bit sample (linear mapping of the
/// full byte range onto the normalized range).
pub uninterp spec fn sample_of_u8(v: u8) -> u32;

/// Unsigned 8-bit sample encoded from sample bits.
pub uninterp spec fn u8_of_sample(s: u32) -> u8;

/// Sample bits decoded from a signed 16-bit sample (linear mapping of the
/// full signed 16-bit range onto the normalized range).
pub uninterp spec fn sample_of_i16(v: i16) -> u32;

/// Signed 16-bit sample encoded from sample bits.
pub uninterp spec fn i16_of_sample(s: u32) -> i16;

/// Sample bits decoded from a signed 24-bit sample carried in a 32-bit
/// container (linear mapping of the signed 24-bit range onto the
/// normalized range).
pub uninterp spec fn sample_of_i24(v: i32) -> u32;

/// Signed 24-bit sample (in a 32-bit container) encoded from sample bits.
pub uninterp spec fn i24_of_sample(s: u32) -> i32;

/// Result bits of `bae_rs`'s clamped linear interpolation `clerp` at double
/// precision: `x` clamped to `[x1, x2]`, then mapped linearly so that `x1`
/// goes to `y1` and `x2` goes to `y2`; some NaN standing for all when the
/// interpolation yields one.
pub uninterp spec fn clerp_bits(x: u64, x1: u64, x2: u64, y1: u64, y2: u64) -> u64;

/// Relies on `bae_rs::sample_from_u8`: decodes an unsigned 8-bit sample to
/// a normalized sample, a pure function of the argument.
#[verifier::external_body]
pub(crate) fn decode_u8(v: u8) -> (r: u32)
    ensures
        r == sample_of_u8(v),
{
    bae_rs::sample_from_u8(v).to_bits()
}

/// Relies on `bae_rs::sample_to_u8`: encodes a normalized sample as an
/// unsigned 8-bit sample (saturating, never panicking), a pure function of
/// the argument bits.
#[verifier::external_body]
pub(crate) fn encode_u8(s: u32) -> (r: u8)
    ensures
        r == u8_of_sample(s),
{
    bae_rs::sample_to_u8(SampleT::from_bits(s))
}

/// Relies on `bae_rs::sample_from_i16`: decodes a signed 16-bit sample to a
/// normalized sample, a pure function of the argument.
#[verifier::external_body]
pub(crate) fn decode_i16(v: i16) -> (r: u32)
    ensures
        r == sample_of_i16(v),
{
    bae_rs::sample_from_i16(v).to_bits()
}

/// Relies on `bae_rs::sample_to_i16`: encodes a normalized sample as a
/// signed 16-bit sample (saturating, never panicking), a pure function of
/// the argument bits.
#[verifier::external_body]
pub(crate) fn encode_i16(s: u32) -> (r: i16)
    ensures
        r == i16_of_sample(s),
{
    bae_rs::sample_to_i16(SampleT::from_bits(s))
}

/// Relies on `bae_rs::sample_from_i24`: decodes a signed 24-bit sample
/// (carried in a 32-bit container) to a normalized sample, a pure function
/// of the argument.
#[verifier::external_body]
pub(crate) fn decode_i24(v: i32) -> (r: u32)
    ensures
        r == sample_of_i24(v),
{
    bae_rs::sample_from_i24(v).to_bits()
}

/// Relies on `bae_rs::sample_to_i24`: encodes a normalized sample as a
/// signed 24-bit sample in a 32-bit container (saturating, never
/// panicking), a pure function of the argument bits.
#[verifier::external_body]
pub(crate) fn encode_i24(s: u32) -> (r: i32)
    ensures
        r == i24_of_sample(s),
{
    bae_rs::sample_to_i24(SampleT::from_bits(s))
}

/// Relies on `bae_rs::utils::clerp` at double precision: clamped linear
/// interpolation, never panicking; basic arithmetic, deterministic but
/// for the payload of a NaN returned for a NaN input or equal
/// interpolation endpoints.
#[verifier::external_body]
pub(crate) fn clerp_math(x: u64, x1: u64, x2: u64, y1: u64, y2: u64) -> (r: u64)
    ensures
        crate::scalar::math_like_bits(r, clerp_bits(x, x1, x2, y1, y2)),
{
    bae_rs::utils::clerp(
        MathT::from_bits(x),
        MathT::from_bits(x1),
        MathT::from_bits(x2),
        MathT::from_bits(y1),
        MathT::from_bits(y2),
    )
        .to_bits()
}

/// Relies on `bae_rs::utils::db_to_linear`, which computes `10^(db/20)`
/// with `powf`: total and never panicking, but its precision is
/// documented as platform-dependent, so the result is not a function of
/// the argument and nothing is assumed of it; callers hand the returned
/// gain to a verified function that is exact for every gain value.
#[verifier::external_body]
pub(crate) fn db_to_linear_math(db: u64) -> (r: u64)
{
    bae_rs::utils::db_to_linear(MathT::from_bits(db)).to_bits()
}

} // verus!
