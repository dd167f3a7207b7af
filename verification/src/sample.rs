//! Scalar value types of the library.
//!
//! Each type carries the bit pattern of the IEEE-754 value it stands for,
//! so the verifier can state exact contracts about it; the arithmetic on
//! those bits lives in [`crate::scalar`] and [`crate::codec`].

use vstd::prelude::*;

verus! {

/// A normalized audio sample for one channel at one instant, carried as
/// the bit pattern of its single-precision (32-bit) value. The bit pattern
/// of zero is `0`.
///
/// Equality is bit-pattern equality, finer than the scalar's own `==`: it
/// distinguishes negative zero from zero, and it equates two NaNs exactly
/// when their bits agree.
#[derive(Debug, Clone, Copy, PartialEq, Eq, Structural)]
pub struct Sample(pub u32);

/// A dimensionless gain scalar, carried as the bit pattern of its
/// double-precision (64-bit) value. Kept distinct from [`Sample`] so a
/// gain is never confused with a signal value.
#[derive(Debug, Clone, Copy, PartialEq, Eq, Structural)]
pub struct Math(pub u64);

/// A pan-control scalar, carried as the bit pattern of its
/// single-precision (32-bit) value. Conventionally in `[-1, 1]`: `-1` is
/// hard left, `0` is center, `1` is hard right.
#[derive(Debug, Clone, Copy, PartialEq, Eq, Structural)]
pub struct Gain(pub u32);

} // verus!
