//! Fixed-width audio sample containers and their conversion contracts.
//!
//! Defines the monophonic and stereophonic channel layouts, arithmetic
//! over them, their conversions to and from 8-bit, 16-bit and 24-bit
//! integer encodings, and the equal-power law that pans a monophonic
//! sample across two channels. Scalar values are carried as the bit
//! patterns of the IEEE-754 quantities they stand for (see
//! [`sample::Sample`]); the scalar arithmetic itself is performed by
//! `bae_rs` and by core, behind the named operations of [`scalar`] and
//! [`codec`].

use vstd::prelude::*;

pub mod codec;
pub mod mono;
pub mod sample;
pub mod scalar;
pub mod stereo;
pub mod text;

pub use mono::Mono;
pub use mono::MonoTrackT;
pub use sample::Gain;
pub use sample::Math;
pub use sample::Sample;
pub use stereo::Stereo;
pub use stereo::StereoTrackT;

use codec::i16_of_sample;
use codec::i24_of_sample;
use codec::u8_of_sample;
use text::short_input_msg;

verus! {

/// The capability set every channel-layout type implements: arithmetic
/// closure, conversion to and from a single normalized sample, conversion
/// to and from fixed-width integer sequences, and a fixed channel count.
///
/// Each implementation defines the `spec_*` functions and `*_ok`
/// predicates that pin down, over the named scalar operations of
/// [`scalar`] and [`codec`], what each executable method returns. The
/// predicates are exact but for the payload of a NaN, which the scalar
/// operations leave open (see [`scalar::like_bits`]); the integer
/// conversions and the channel bookkeeping are exact outright. The
/// executable methods are bound to those specifications by the contracts
/// below, which hold for every implementation.
pub trait SampleFormat: Sized {
    /// The bit patterns of the channels, in channel order (left first).
    spec fn channels(self) -> Seq<u32>;

    /// The fixed channel count of the layout.
    spec fn spec_num_samples() -> usize;

    /// What [`Self::from_sample`] returns.
    spec fn from_sample_ok(x: Sample, r: Self) -> bool;

    /// What [`Self::into_sample`] returns.
    spec fn into_sample_ok(self, r: Sample) -> bool;

    /// What [`Self::neg`] returns (negation is an exact sign flip, so
    /// this one is a function).
    spec fn spec_neg(self) -> Self;

    /// What [`Self::add`] and [`Self::add_assign`] produce.
    spec fn add_ok(self, rhs: Self, r: Self) -> bool;

    /// What [`Self::sub`] and [`Self::sub_assign`] produce.
    spec fn sub_ok(self, rhs: Self, r: Self) -> bool;

    /// What [`Self::mul`] and [`Self::mul_assign`] produce.
    spec fn mul_ok(self, rhs: Self, r: Self) -> bool;

    /// What [`Self::mul_sample`] and [`Self::mul_sample_assign`] produce.
    spec fn mul_sample_ok(self, rhs: Sample, r: Self) -> bool;

    /// What [`Self::mul_math`] returns.
    spec fn mul_math_ok(self, rhs: Math, r: Self) -> bool;

    /// What [`Self::mul_math_assign`] leaves behind (it may round
    /// differently than [`Self::mul_math`]).
    spec fn mul_math_assign_ok(self, rhs: Math, r: Self) -> bool;

    /// The value decoded from the first channels' worth of unsigned 8-bit
    /// samples of `v`; meaningful when `v` is at least that long.
    spec fn spec_from_u8_seq(v: Seq<u8>) -> Self;

    /// The value decoded from the first channels' worth of signed 16-bit
    /// samples of `v`; meaningful when `v` is at least that long.
    spec fn spec_from_i16_seq(v: Seq<i16>) -> Self;

    /// The value decoded from the first channels' worth of signed 24-bit
    /// samples of `v`; meaningful when `v` is at least that long.
    spec fn spec_from_i24_seq(v: Seq<i32>) -> Self;

    /// The channels encoded as unsigned 8-bit samples, in channel order.
    spec fn spec_into_u8(self) -> Seq<u8>;

    /// The channels encoded as signed 16-bit samples, in channel order.
    spec fn spec_into_i16(self) -> Seq<i16>;

    /// The channels encoded as signed 24-bit samples (each in a 32-bit
    /// container), in channel order.
    spec fn spec_into_i24(self) -> Seq<i32>;

    /// A layout holds exactly [`Self::spec_num_samples`] channels.
    proof fn lemma_channel_count(self)
        ensures
            self.channels().len() == Self::spec_num_samples() as nat,
    ;

    /// Every infallible conversion encodes the channels one-for-one, in
    /// channel order: element `i` of the output is the encoding of
    /// channel `i`.
    proof fn lemma_encodes_in_channel_order(self)
        ensures
            self.spec_into_u8().len() == self.channels().len(),
            forall|i: int|
                0 <= i < self.channels().len() ==> self.spec_into_u8()[i] == u8_of_sample(
                    self.channels()[i],
                ),
            self.spec_into_i16().len() == self.channels().len(),
            forall|i: int|
                0 <= i < self.channels().len() ==> self.spec_into_i16()[i] == i16_of_sample(
                    self.channels()[i],
                ),
            self.spec_into_i24().len() == self.channels().len(),
            forall|i: int|
                0 <= i < self.channels().len() ==> self.spec_into_i24()[i] == i24_of_sample(
                    self.channels()[i],
                ),
    ;

    /// The fixed channel count: constant for the type, not data-dependent.
    fn num_samples() -> (n: usize)
        ensures
            n == Self::spec_num_samples(),
    ;

    /// Lifts a single monophonic sample into the layout.
    fn from_sample(x: Sample) -> (r: Self)
        ensures
            Self::from_sample_ok(x, r),
    ;

    /// Collapses the layout back to one monophonic sample.
    fn into_sample(self) -> (r: Sample)
        ensures
            self.into_sample_ok(r),
    ;

    /// Element-wise negation across the channels.
    fn neg(self) -> (r: Self)
        ensures
            r == self.spec_neg(),
    ;

    /// Element-wise addition across the channels.
    fn add(self, rhs: Self) -> (r: Self)
        ensures
            self.add_ok(rhs, r),
    ;

    /// In-place element-wise addition across the channels.
    fn add_assign(&mut self, rhs: Self)
        ensures
            old(self).add_ok(rhs, *final(self)),
    ;

    /// Element-wise subtraction across the channels.
    fn sub(self, rhs: Self) -> (r: Self)
        ensures
            self.sub_ok(rhs, r),
    ;

    /// In-place element-wise subtraction across the channels.
    fn sub_assign(&mut self, rhs: Self)
        ensures
            old(self).sub_ok(rhs, *final(self)),
    ;

    /// Element-wise multiplication by another value of the same layout.
    fn mul(self, rhs: Self) -> (r: Self)
        ensures
            self.mul_ok(rhs, r),
    ;

    /// In-place element-wise multiplication by another value of the same
    /// layout.
    fn mul_assign(&mut self, rhs: Self)
        ensures
            old(self).mul_ok(rhs, *final(self)),
    ;

    /// Uniform scaling of every channel by a raw sample value.
    fn mul_sample(self, rhs: Sample) -> (r: Self)
        ensures
            self.mul_sample_ok(rhs, r),
    ;

    /// In-place uniform scaling of every channel by a raw sample value.
    fn mul_sample_assign(&mut self, rhs: Sample)
        ensures
            old(self).mul_sample_ok(rhs, *final(self)),
    ;

    /// Uniform scaling of every channel by a gain value.
    fn mul_math(self, rhs: Math) -> (r: Self)
        ensures
            self.mul_math_ok(rhs, r),
    ;

    /// In-place uniform scaling of every channel by a gain value.
    fn mul_math_assign(&mut self, rhs: Math)
        ensures
            old(self).mul_math_assign_ok(rhs, *final(self)),
    ;

    /// Fallible conversion from unsigned 8-bit samples: fails, with the
    /// exact message of [`short_input_msg`], if and only if the input
    /// holds fewer elements than the layout has channels; extra trailing
    /// elements are ignored.
    fn try_from_u8(v: Vec<u8>) -> (r: Result<Self, String>)
        ensures
            v@.len() >= Self::spec_num_samples() as nat ==> (r matches Ok(m) && m
                == Self::spec_from_u8_seq(v@)),
            v@.len() < Self::spec_num_samples() as nat ==> (r matches Err(e) && e@
                == short_input_msg(v@.len(), Self::spec_num_samples() as nat)),
    ;

    /// Fallible conversion from signed 16-bit samples, with the same
    /// length policy as [`Self::try_from_u8`].
    fn try_from_i16(v: Vec<i16>) -> (r: Result<Self, String>)
        ensures
            v@.len() >= Self::spec_num_samples() as nat ==> (r matches Ok(m) && m
                == Self::spec_from_i16_seq(v@)),
            v@.len() < Self::spec_num_samples() as nat ==> (r matches Err(e) && e@
                == short_input_msg(v@.len(), Self::spec_num_samples() as nat)),
    ;

    /// Fallible conversion from signed 24-bit samples carried in 32-bit
    /// containers, with the same length policy as [`Self::try_from_u8`].
    fn try_from_i24(v: Vec<i32>) -> (r: Result<Self, String>)
        ensures
            v@.len() >= Self::spec_num_samples() as nat ==> (r matches Ok(m) && m
                == Self::spec_from_i24_seq(v@)),
            v@.len() < Self::spec_num_samples() as nat ==> (r matches Err(e) && e@
                == short_input_msg(v@.len(), Self::spec_num_samples() as nat)),
    ;

    /// Infallible conversion to unsigned 8-bit samples: always exactly one
    /// element per channel, in channel order.
    fn into_vec_u8(self) -> (r: Vec<u8>)
        ensures
            r@ == self.spec_into_u8(),
            r@.len() == Self::spec_num_samples() as nat,
    ;

    /// Infallible conversion to signed 16-bit samples: always exactly one
    /// element per channel, in channel order.
    fn into_vec_i16(self) -> (r: Vec<i16>)
        ensures
            r@ == self.spec_into_i16(),
            r@.len() == Self::spec_num_samples() as nat,
    ;

    /// Infallible conversion to signed 24-bit samples (each in a 32-bit
    /// container): always exactly one element per channel, in channel
    /// order.
    fn into_vec_i24(self) -> (r: Vec<i32>)
        ensures
            r@ == self.spec_into_i24(),
            r@.len() == Self::spec_num_samples() as nat,
    ;
}

/// The ability to pan a monophonic sample into a polyphonic layout under a
/// gain/placement parameter of type `G`. A layout may support several
/// panning parameterizations, one per parameter type.
pub trait Panner<G>: SampleFormat {
    /// What holds of [`Self::to_sample_format`]'s result. Where the
    /// panning passes through the decibel-to-linear conversion, whose
    /// result the platform does not fix, this pins only the shape of each
    /// channel — the input sample scaled by some linear gain; the decibel
    /// values handed to that conversion are pinned by the contracts of
    /// the layout's panning helpers.
    spec fn pan_ok(s: Sample, g: G, r: Self) -> bool;

    /// Converts the monophonic sample into a polyphonic sample placed
    /// according to `g`.
    fn to_sample_format(s: Sample, g: G) -> (r: Self)
        ensures
            Self::pan_ok(s, g, r),
    ;
}

} // verus!
