//! The monophonic channel layout.

use crate::codec::decode_i16;
use crate::codec::decode_i24;
use crate::codec::decode_u8;
use crate::codec::encode_i16;
use crate::codec::encode_i24;
use crate::codec::encode_u8;
use crate::codec::i16_of_sample;
use crate::codec::i24_of_sample;
use crate::codec::sample_of_i16;
use crate::codec::sample_of_i24;
use crate::codec::sample_of_u8;
use crate::codec::u8_of_sample;
use crate::sample::Math;
use crate::sample::Sample;
use crate::scalar::add_bits;
use crate::scalar::add_samples;
use crate::scalar::gain_scaled;
use crate::scalar::like_bits;
use crate::scalar::math_to_sample;
use crate::scalar::mul_bits;
use crate::scalar::mul_maths;
use crate::scalar::mul_samples;
use crate::scalar::neg_bits;
use crate::scalar::neg_sample;
use crate::scalar::sample_to_math;
use crate::scalar::sub_bits;
use crate::scalar::sub_samples;
use crate::text::short_input_error;
use crate::Panner;
use crate::SampleFormat;
use vstd::prelude::*;

verus! {

/// A track of [`Mono`] samples: an ordered time series.
pub type MonoTrackT = Vec<Mono>;

/// A monophonic audio sample: exactly one channel.
#[derive(Debug, Clone, Copy, PartialEq, Eq, Structural)]
pub struct Mono {
    /// The single, monophonic sample.
    pub mono: Sample,
}

impl Mono {
    /// Creates a new Mono object holding silence.
    pub fn new() -> (r: Mono)
        ensures
            r == (Mono { mono: Sample(0) }),
    {
        Mono { mono: Sample(0) }
    }

    /// Creates a new Mono object from the given sample value.
    pub fn from(s: Sample) -> (r: Mono)
        ensures
            r == (Mono { mono: s }),
    {
        Mono { mono: s }
    }
}

impl Default for Mono {
    /// The all-zero (silence) sample.
    fn default() -> (r: Mono)
        ensures
            r == (Mono { mono: Sample(0) }),
    {
        Mono { mono: Sample(0) }
    }
}

impl SampleFormat for Mono {
    open spec fn channels(self) -> Seq<u32> {
        seq![self.mono.0]
    }

    open spec fn spec_num_samples() -> usize {
        1
    }

    open spec fn from_sample_ok(x: Sample, r: Mono) -> bool {
        r == (Mono { mono: x })
    }

    open spec fn into_sample_ok(self, r: Sample) -> bool {
        r == self.mono
    }

    open spec fn spec_neg(self) -> Mono {
        Mono { mono: Sample(neg_bits(self.mono.0)) }
    }

    open spec fn add_ok(self, rhs: Mono, r: Mono) -> bool {
        like_bits(r.mono.0, add_bits(self.mono.0, rhs.mono.0))
    }

    open spec fn sub_ok(self, rhs: Mono, r: Mono) -> bool {
        like_bits(r.mono.0, sub_bits(self.mono.0, rhs.mono.0))
    }

    open spec fn mul_ok(self, rhs: Mono, r: Mono) -> bool {
        like_bits(r.mono.0, mul_bits(self.mono.0, rhs.mono.0))
    }

    open spec fn mul_sample_ok(self, rhs: Sample, r: Mono) -> bool {
        like_bits(r.mono.0, mul_bits(self.mono.0, rhs.0))
    }

    open spec fn mul_math_ok(self, rhs: Math, r: Mono) -> bool {
        gain_scaled(self.mono.0, rhs.0, r.mono.0)
    }

    open spec fn mul_math_assign_ok(self, rhs: Math, r: Mono) -> bool {
        self.mul_math_ok(rhs, r)
    }

    open spec fn spec_from_u8_seq(v: Seq<u8>) -> Mono {
        Mono { mono: Sample(sample_of_u8(v[0])) }
    }

    open spec fn spec_from_i16_seq(v: Seq<i16>) -> Mono {
        Mono { mono: Sample(sample_of_i16(v[0])) }
    }

    open spec fn spec_from_i24_seq(v: Seq<i32>) -> Mono {
        Mono { mono: Sample(sample_of_i24(v[0])) }
    }

    open spec fn spec_into_u8(self) -> Seq<u8> {
        seq![u8_of_sample(self.mono.0)]
    }

    open spec fn spec_into_i16(self) -> Seq<i16> {
        seq![i16_of_sample(self.mono.0)]
    }

    open spec fn spec_into_i24(self) -> Seq<i32> {
        seq![i24_of_sample(self.mono.0)]
    }

    proof fn lemma_channel_count(self) {
    }

    proof fn lemma_encodes_in_channel_order(self) {
    }

    fn num_samples() -> (n: usize) {
        1
    }

    fn from_sample(x: Sample) -> (r: Mono) {
        Mono { mono: x }
    }

    fn into_sample(self) -> (r: Sample) {
        self.mono
    }

    fn neg(self) -> (r: Mono) {
        Mono { mono: Sample(neg_sample(self.mono.0)) }
    }

    fn add(self, rhs: Mono) -> (r: Mono) {
        Mono { mono: Sample(add_samples(self.mono.0, rhs.mono.0)) }
    }

    fn add_assign(&mut self, rhs: Mono) {
        let v = add_samples(self.mono.0, rhs.mono.0);
        self.mono = Sample(v);
    }

    /// Element-wise subtraction; the value form and the in-place form
    /// agree, as they do for [`crate::Stereo`].
    fn sub(self, rhs: Mono) -> (r: Mono) {
        Mono { mono: Sample(sub_samples(self.mono.0, rhs.mono.0)) }
    }

    fn sub_assign(&mut self, rhs: Mono) {
        let v = sub_samples(self.mono.0, rhs.mono.0);
        self.mono = Sample(v);
    }

    fn mul(self, rhs: Mono) -> (r: Mono) {
        Mono { mono: Sample(mul_samples(self.mono.0, rhs.mono.0)) }
    }

    fn mul_assign(&mut self, rhs: Mono) {
        let v = mul_samples(self.mono.0, rhs.mono.0);
        self.mono = Sample(v);
    }

    fn mul_sample(self, rhs: Sample) -> (r: Mono) {
        Mono { mono: Sample(mul_samples(self.mono.0, rhs.0)) }
    }

    fn mul_sample_assign(&mut self, rhs: Sample) {
        let v = mul_samples(self.mono.0, rhs.0);
        self.mono = Sample(v);
    }

    fn mul_math(self, rhs: Math) -> (r: Mono) {
        Mono { mono: Sample(math_to_sample(mul_maths(sample_to_math(self.mono.0), rhs.0))) }
    }

    fn mul_math_assign(&mut self, rhs: Math) {
        let v = math_to_sample(mul_maths(sample_to_math(self.mono.0), rhs.0));
        self.mono = Sample(v);
    }

    fn try_from_u8(v: Vec<u8>) -> (r: Result<Mono, String>) {
        if v.len() < 1 {
            Err(short_input_error(v.len(), 1))
        } else {
            Ok(Mono { mono: Sample(decode_u8(v[0])) })
        }
    }

    fn try_from_i16(v: Vec<i16>) -> (r: Result<Mono, String>) {
        if v.len() < 1 {
            Err(short_input_error(v.len(), 1))
        } else {
            Ok(Mono { mono: Sample(decode_i16(v[0])) })
        }
    }

    fn try_from_i24(v: Vec<i32>) -> (r: Result<Mono, String>) {
        if v.len() < 1 {
            Err(short_input_error(v.len(), 1))
        } else {
            Ok(Mono { mono: Sample(decode_i24(v[0])) })
        }
    }

    fn into_vec_u8(self) -> (r: Vec<u8>) {
        let mut out: Vec<u8> = Vec::new();
        out.push(encode_u8(self.mono.0));
        proof {
            assert(out@ =~= self.spec_into_u8());
        }
        out
    }

    fn into_vec_i16(self) -> (r: Vec<i16>) {
        let mut out: Vec<i16> = Vec::new();
        out.push(encode_i16(self.mono.0));
        proof {
            assert(out@ =~= self.spec_into_i16());
        }
        out
    }

    fn into_vec_i24(self) -> (r: Vec<i32>) {
        let mut out: Vec<i32> = Vec::new();
        out.push(encode_i24(self.mono.0));
        proof {
            assert(out@ =~= self.spec_into_i24());
        }
        out
    }
}

/// A single channel has no spatial dimension, so panning a monophonic
/// sample is a pass-through under every parameter type: the parameter is
/// ignored and the sample is wrapped unchanged.
impl<T> Panner<T> for Mono {
    open spec fn pan_ok(s: Sample, g: T, r: Mono) -> bool {
        r == (Mono { mono: s })
    }

    fn to_sample_format(s: Sample, g: T) -> (r: Mono) {
        Mono { mono: s }
    }
}

/// A monophonic round trip is the identity: collapsing the layout a
/// sample was lifted to gives back that sample exactly, with no scaling.
pub proof fn lemma_mono_round_trip(s: Sample, m: Mono, r: Sample)
    requires
        Mono::from_sample_ok(s, m),
        m.into_sample_ok(r),
    ensures
        r == s,
{
}

/// The fallible conversions read only the first channels' worth of
/// elements: a longer input decodes exactly as its one-element prefix
/// does, so extra trailing elements never change the result.
pub proof fn lemma_mono_decode_uses_prefix(v8: Seq<u8>, v16: Seq<i16>, v24: Seq<i32>)
    requires
        v8.len() >= 1,
        v16.len() >= 1,
        v24.len() >= 1,
    ensures
        Mono::spec_from_u8_seq(v8) == Mono::spec_from_u8_seq(v8.take(1)),
        Mono::spec_from_i16_seq(v16) == Mono::spec_from_i16_seq(v16.take(1)),
        Mono::spec_from_i24_seq(v24) == Mono::spec_from_i24_seq(v24.take(1)),
{
    assert(v8.take(1)[0] == v8[0]);
    assert(v16.take(1)[0] == v16[0]);
    assert(v24.take(1)[0] == v24[0]);
}

} // verus!
