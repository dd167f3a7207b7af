//! The stereophonic channel layout and its equal-power panning law.

use crate::codec::clerp_bits;
use crate::codec::clerp_math;
use crate::codec::db_to_linear_math;
use crate::codec::decode_i16;
use crate::codec::decode_i24;
use crate::codec::decode_u8;
use crate::codec::encode_i16;
use crate::codec::encode_i24;
use crate::codec::encode_u8;
use crate::codec::i16_of_sample;
use crate::codec::i24_of_sample;
use crate::codec::sample_of_i16;
use crate::codec::sample_of_i24;
use crate::codec::sample_of_u8;
use crate::codec::u8_of_sample;
use crate::sample::Gain;
use crate::sample::Math;
use crate::sample::Sample;
use crate::scalar::add_bits;
use crate::scalar::add_samples;
use crate::scalar::ge_bits;
use crate::scalar::ge_maths;
use crate::scalar::ge_samples;
use crate::scalar::is_nan_bits;
use crate::scalar::le_bits;
use crate::scalar::le_maths;
use crate::scalar::le_samples;
use crate::scalar::like_bits;
use crate::scalar::gain_scaled;
use crate::scalar::linear_gain_applied;
use crate::scalar::math_ge_bits;
use crate::scalar::math_le_bits;
use crate::scalar::math_like_bits;
use crate::scalar::math_to_sample;
use crate::scalar::mul_bits;
use crate::scalar::mul_maths;
use crate::scalar::mul_samples;
use crate::scalar::narrowed_gain_scaled;
use crate::scalar::neg_bits;
use crate::scalar::neg_sample;
use crate::scalar::sample_to_math;
use crate::scalar::sqrt_bits;
use crate::scalar::sqrt_sample;
use crate::scalar::sub_bits;
use crate::scalar::sub_samples;
use crate::scalar::to_math_bits;
use crate::text::short_input_error;
use crate::Panner;
use crate::SampleFormat;
use vstd::prelude::*;

verus! {

/// Bit pattern of the single-precision value one half, whose square root
/// is the equal-power scaling applied to each channel.
pub const ONE_HALF_BITS: u32 = 0x3F00_0000;

/// Bit pattern of the single-precision value zero, the centered pan
/// position.
pub const PAN_CENTER_BITS: u32 = 0;

/// Bit pattern of the double-precision value zero.
pub const MATH_ZERO_BITS: u64 = 0;

/// Bit pattern of the double-precision value one.
pub const MATH_ONE_BITS: u64 = 0x3FF0_0000_0000_0000;

/// Bit pattern of the double-precision value negative one.
pub const MATH_NEG_ONE_BITS: u64 = 0xBFF0_0000_0000_0000;

/// Bit pattern of the double-precision value negative three: the
/// attenuation, in decibels, of each channel at a centered pan under the
/// equal-power law.
pub const CENTER_DB_BITS: u64 = 0xC008_0000_0000_0000;

/// Bit pattern of the double-precision value negative one hundred twenty:
/// the attenuation, in decibels, of the far channel at a hard pan (near
/// silence).
pub const SILENT_DB_BITS: u64 = 0xC05E_0000_0000_0000;

/// A track of [`Stereo`] samples: an ordered time series.
pub type StereoTrackT = Vec<Stereo>;

/// A stereophonic audio sample: exactly two channels, the left one always
/// first in every serialized form.
#[derive(Debug, Clone, Copy, PartialEq, Eq, Structural)]
pub struct Stereo {
    /// Left sample value.
    pub left: Sample,
    /// Right sample value.
    pub right: Sample,
}

impl Stereo {
    /// Creates a new Stereo object holding silence on both channels.
    pub fn new() -> (r: Stereo)
        ensures
            r == (Stereo { left: Sample(0), right: Sample(0) }),
    {
        Stereo { left: Sample(0), right: Sample(0) }
    }

    /// Creates a new Stereo object from individual left and right audio
    /// samples.
    pub fn from(l: Sample, r: Sample) -> (out: Stereo)
        ensures
            out == (Stereo { left: l, right: r }),
    {
        Stereo { left: l, right: r }
    }
}

impl Default for Stereo {
    /// The all-zero (silence) sample.
    fn default() -> (r: Stereo)
        ensures
            r == (Stereo { left: Sample(0), right: Sample(0) }),
    {
        Stereo { left: Sample(0), right: Sample(0) }
    }
}

impl SampleFormat for Stereo {
    open spec fn channels(self) -> Seq<u32> {
        seq![self.left.0, self.right.0]
    }

    open spec fn spec_num_samples() -> usize {
        2
    }

    /// Equal-power splitting: both channels receive the one value the
    /// sample scaled by the square root of one half comes to, so a
    /// centered mono signal keeps its perceived loudness when
    /// reconstructed.
    open spec fn from_sample_ok(x: Sample, r: Stereo) -> bool {
        r.left == r.right && like_bits(r.left.0, mul_bits(x.0, sqrt_bits(ONE_HALF_BITS)))
    }

    /// The inverse of the equal-power split for a centered signal: the
    /// channel sum scaled by the square root of one half, which takes a
    /// centered split back to its sample up to rounding. For an
    /// uncentered signal this is a lossy downmix.
    open spec fn into_sample_ok(self, r: Sample) -> bool {
        if is_nan_bits(add_bits(self.left.0, self.right.0)) || is_nan_bits(
            mul_bits(add_bits(self.left.0, self.right.0), sqrt_bits(ONE_HALF_BITS)),
        ) {
            is_nan_bits(r.0)
        } else {
            r.0 == mul_bits(add_bits(self.left.0, self.right.0), sqrt_bits(ONE_HALF_BITS))
        }
    }

    open spec fn spec_neg(self) -> Stereo {
        Stereo { left: Sample(neg_bits(self.left.0)), right: Sample(neg_bits(self.right.0)) }
    }

    open spec fn add_ok(self, rhs: Stereo, r: Stereo) -> bool {
        like_bits(r.left.0, add_bits(self.left.0, rhs.left.0)) && like_bits(
            r.right.0,
            add_bits(self.right.0, rhs.right.0),
        )
    }

    open spec fn sub_ok(self, rhs: Stereo, r: Stereo) -> bool {
        like_bits(r.left.0, sub_bits(self.left.0, rhs.left.0)) && like_bits(
            r.right.0,
            sub_bits(self.right.0, rhs.right.0),
        )
    }

    open spec fn mul_ok(self, rhs: Stereo, r: Stereo) -> bool {
        like_bits(r.left.0, mul_bits(self.left.0, rhs.left.0)) && like_bits(
            r.right.0,
            mul_bits(self.right.0, rhs.right.0),
        )
    }

    open spec fn mul_sample_ok(self, rhs: Sample, r: Stereo) -> bool {
        like_bits(r.left.0, mul_bits(self.left.0, rhs.0)) && like_bits(
            r.right.0,
            mul_bits(self.right.0, rhs.0),
        )
    }

    /// Each channel is widened to double precision, multiplied by the
    /// gain, and narrowed back.
    open spec fn mul_math_ok(self, rhs: Math, r: Stereo) -> bool {
        gain_scaled(self.left.0, rhs.0, r.left.0) && gain_scaled(self.right.0, rhs.0, r.right.0)
    }

    /// The in-place form narrows the gain to single precision first and
    /// multiplies at single precision, so it may round differently than
    /// [`Self::mul_math_ok`].
    open spec fn mul_math_assign_ok(self, rhs: Math, r: Stereo) -> bool {
        narrowed_gain_scaled(self.left.0, rhs.0, r.left.0) && narrowed_gain_scaled(
            self.right.0,
            rhs.0,
            r.right.0,
        )
    }

    open spec fn spec_from_u8_seq(v: Seq<u8>) -> Stereo {
        Stereo { left: Sample(sample_of_u8(v[0])), right: Sample(sample_of_u8(v[1])) }
    }

    open spec fn spec_from_i16_seq(v: Seq<i16>) -> Stereo {
        Stereo { left: Sample(sample_of_i16(v[0])), right: Sample(sample_of_i16(v[1])) }
    }

    open spec fn spec_from_i24_seq(v: Seq<i32>) -> Stereo {
        Stereo { left: Sample(sample_of_i24(v[0])), right: Sample(sample_of_i24(v[1])) }
    }

    open spec fn spec_into_u8(self) -> Seq<u8> {
        seq![u8_of_sample(self.left.0), u8_of_sample(self.right.0)]
    }

    open spec fn spec_into_i16(self) -> Seq<i16> {
        seq![i16_of_sample(self.left.0), i16_of_sample(self.right.0)]
    }

    open spec fn spec_into_i24(self) -> Seq<i32> {
        seq![i24_of_sample(self.left.0), i24_of_sample(self.right.0)]
    }

    proof fn lemma_channel_count(self) {
    }

    proof fn lemma_encodes_in_channel_order(self) {
    }

    fn num_samples() -> (n: usize) {
        2
    }

    fn from_sample(x: Sample) -> (r: Stereo) {
        proof {
            assert(0x3F00_0000u32 & 0x7F80_0000u32 != 0x7F80_0000u32) by (bit_vector);
        }
        let h = sqrt_sample(ONE_HALF_BITS);
        let c = mul_samples(x.0, h);
        Stereo { left: Sample(c), right: Sample(c) }
    }

    fn into_sample(self) -> (r: Sample) {
        proof {
            assert(0x3F00_0000u32 & 0x7F80_0000u32 != 0x7F80_0000u32) by (bit_vector);
        }
        let h = sqrt_sample(ONE_HALF_BITS);
        let t = add_samples(self.left.0, self.right.0);
        Sample(mul_samples(t, h))
    }

    fn neg(self) -> (r: Stereo) {
        Stereo { left: Sample(neg_sample(self.left.0)), right: Sample(neg_sample(self.right.0)) }
    }

    fn add(self, rhs: Stereo) -> (r: Stereo) {
        Stereo {
            left: Sample(add_samples(self.left.0, rhs.left.0)),
            right: Sample(add_samples(self.right.0, rhs.right.0)),
        }
    }

    fn add_assign(&mut self, rhs: Stereo) {
        let l = add_samples(self.left.0, rhs.left.0);
        let r = add_samples(self.right.0, rhs.right.0);
        self.left = Sample(l);
        self.right = Sample(r);
    }

    fn sub(self, rhs: Stereo) -> (r: Stereo) {
        Stereo {
            left: Sample(sub_samples(self.left.0, rhs.left.0)),
            right: Sample(sub_samples(self.right.0, rhs.right.0)),
        }
    }

    fn sub_assign(&mut self, rhs: Stereo) {
        let l = sub_samples(self.left.0, rhs.left.0);
        let r = sub_samples(self.right.0, rhs.right.0);
        self.left = Sample(l);
        self.right = Sample(r);
    }

    fn mul(self, rhs: Stereo) -> (r: Stereo) {
        Stereo {
            left: Sample(mul_samples(self.left.0, rhs.left.0)),
            right: Sample(mul_samples(self.right.0, rhs.right.0)),
        }
    }

    fn mul_assign(&mut self, rhs: Stereo) {
        let l = mul_samples(self.left.0, rhs.left.0);
        let r = mul_samples(self.right.0, rhs.right.0);
        self.left = Sample(l);
        self.right = Sample(r);
    }

    fn mul_sample(self, rhs: Sample) -> (r: Stereo) {
        Stereo {
            left: Sample(mul_samples(self.left.0, rhs.0)),
            right: Sample(mul_samples(self.right.0, rhs.0)),
        }
    }

    fn mul_sample_assign(&mut self, rhs: Sample) {
        let l = mul_samples(self.left.0, rhs.0);
        let r = mul_samples(self.right.0, rhs.0);
        self.left = Sample(l);
        self.right = Sample(r);
    }

    fn mul_math(self, rhs: Math) -> (r: Stereo) {
        Stereo {
            left: Sample(math_to_sample(mul_maths(sample_to_math(self.left.0), rhs.0))),
            right: Sample(math_to_sample(mul_maths(sample_to_math(self.right.0), rhs.0))),
        }
    }

    fn mul_math_assign(&mut self, rhs: Math) {
        let g = math_to_sample(rhs.0);
        let l = mul_samples(self.left.0, g);
        let r = mul_samples(self.right.0, g);
        self.left = Sample(l);
        self.right = Sample(r);
    }

    fn try_from_u8(v: Vec<u8>) -> (r: Result<Stereo, String>) {
        if v.len() < 2 {
            Err(short_input_error(v.len(), 2))
        } else {
            Ok(Stereo { left: Sample(decode_u8(v[0])), right: Sample(decode_u8(v[1])) })
        }
    }

    fn try_from_i16(v: Vec<i16>) -> (r: Result<Stereo, String>) {
        if v.len() < 2 {
            Err(short_input_error(v.len(), 2))
        } else {
            Ok(Stereo { left: Sample(decode_i16(v[0])), right: Sample(decode_i16(v[1])) })
        }
    }

    fn try_from_i24(v: Vec<i32>) -> (r: Result<Stereo, String>) {
        if v.len() < 2 {
            Err(short_input_error(v.len(), 2))
        } else {
            Ok(Stereo { left: Sample(decode_i24(v[0])), right: Sample(decode_i24(v[1])) })
        }
    }

    fn into_vec_u8(self) -> (r: Vec<u8>) {
        let mut out: Vec<u8> = Vec::new();
        out.push(encode_u8(self.left.0));
        out.push(encode_u8(self.right.0));
        proof {
            assert(out@ =~= self.spec_into_u8());
        }
        out
    }

    fn into_vec_i16(self) -> (r: Vec<i16>) {
        let mut out: Vec<i16> = Vec::new();
        out.push(encode_i16(self.left.0));
        out.push(encode_i16(self.right.0));
        proof {
            assert(out@ =~= self.spec_into_i16());
        }
        out
    }

    fn into_vec_i24(self) -> (r: Vec<i32>) {
        let mut out: Vec<i32> = Vec::new();
        out.push(encode_i24(self.left.0));
        out.push(encode_i24(self.right.0));
        proof {
            assert(out@ =~= self.spec_into_i24());
        }
        out
    }
}

/// The attenuation, in decibels, applied to the left channel when panning
/// at single precision: for a pan at or left of center, the interpolation
/// of `[-1, 0]` onto `[0, -3]` decibels; right of center, of `[0, 1]`
/// onto `[-3, -120]` decibels. So the left channel is at full scale at a
/// hard left pan, three decibels down at center, and near silence at a
/// hard right pan. The interpolation clamps its input, so pan values
/// outside `[-1, 1]` act as the nearer hard pan.
pub open spec fn spec_pan_left_db(g: Gain) -> u64 {
    if le_bits(g.0, PAN_CENTER_BITS) {
        clerp_bits(to_math_bits(g.0), MATH_NEG_ONE_BITS, MATH_ZERO_BITS, MATH_ZERO_BITS, CENTER_DB_BITS)
    } else {
        clerp_bits(to_math_bits(g.0), MATH_ZERO_BITS, MATH_ONE_BITS, CENTER_DB_BITS, SILENT_DB_BITS)
    }
}

/// The attenuation, in decibels, applied to the right channel when
/// panning at single precision; the mirror image of
/// [`spec_pan_left_db`]: near silence at a hard left pan, three decibels
/// down at center, full scale at a hard right pan.
pub open spec fn spec_pan_right_db(g: Gain) -> u64 {
    if ge_bits(g.0, PAN_CENTER_BITS) {
        clerp_bits(to_math_bits(g.0), MATH_ZERO_BITS, MATH_ONE_BITS, CENTER_DB_BITS, MATH_ZERO_BITS)
    } else {
        clerp_bits(to_math_bits(g.0), MATH_NEG_ONE_BITS, MATH_ZERO_BITS, SILENT_DB_BITS, CENTER_DB_BITS)
    }
}

/// The attenuation, in decibels, applied to the left channel when panning
/// at double precision; the same curve as [`spec_pan_left_db`].
pub open spec fn spec_pan_left_db_math(g: Math) -> u64 {
    if math_le_bits(g.0, MATH_ZERO_BITS) {
        clerp_bits(g.0, MATH_NEG_ONE_BITS, MATH_ZERO_BITS, MATH_ZERO_BITS, CENTER_DB_BITS)
    } else {
        clerp_bits(g.0, MATH_ZERO_BITS, MATH_ONE_BITS, CENTER_DB_BITS, SILENT_DB_BITS)
    }
}

/// The attenuation, in decibels, applied to the right channel when
/// panning at double precision; the same curve as [`spec_pan_right_db`].
pub open spec fn spec_pan_right_db_math(g: Math) -> u64 {
    if math_ge_bits(g.0, MATH_ZERO_BITS) {
        clerp_bits(g.0, MATH_ZERO_BITS, MATH_ONE_BITS, CENTER_DB_BITS, MATH_ZERO_BITS)
    } else {
        clerp_bits(g.0, MATH_NEG_ONE_BITS, MATH_ZERO_BITS, SILENT_DB_BITS, CENTER_DB_BITS)
    }
}

/// The per-channel decibel attenuations — left, then right — for a
/// single-precision pan position, exactly the interpolated curves of
/// [`spec_pan_left_db`] and [`spec_pan_right_db`] (up to the payload of a
/// NaN, and provided the pan position itself is not one).
pub fn pan_decibels(g: Gain) -> (r: (u64, u64))
    ensures
        !is_nan_bits(g.0) ==> math_like_bits(r.0, spec_pan_left_db(g)) && math_like_bits(
            r.1,
            spec_pan_right_db(g),
        ),
{
    let gm = sample_to_math(g.0);
    let l_lerp = if le_samples(g.0, PAN_CENTER_BITS) {
        clerp_math(gm, MATH_NEG_ONE_BITS, MATH_ZERO_BITS, MATH_ZERO_BITS, CENTER_DB_BITS)
    } else {
        clerp_math(gm, MATH_ZERO_BITS, MATH_ONE_BITS, CENTER_DB_BITS, SILENT_DB_BITS)
    };
    let r_lerp = if ge_samples(g.0, PAN_CENTER_BITS) {
        clerp_math(gm, MATH_ZERO_BITS, MATH_ONE_BITS, CENTER_DB_BITS, MATH_ZERO_BITS)
    } else {
        clerp_math(gm, MATH_NEG_ONE_BITS, MATH_ZERO_BITS, SILENT_DB_BITS, CENTER_DB_BITS)
    };
    (l_lerp, r_lerp)
}

/// The per-channel decibel attenuations — left, then right — for a
/// double-precision pan position, exactly the interpolated curves of
/// [`spec_pan_left_db_math`] and [`spec_pan_right_db_math`] (up to the
/// payload of a NaN).
pub fn pan_decibels_math(g: Math) -> (r: (u64, u64))
    ensures
        math_like_bits(r.0, spec_pan_left_db_math(g)),
        math_like_bits(r.1, spec_pan_right_db_math(g)),
{
    let l_lerp = if le_maths(g.0, MATH_ZERO_BITS) {
        clerp_math(g.0, MATH_NEG_ONE_BITS, MATH_ZERO_BITS, MATH_ZERO_BITS, CENTER_DB_BITS)
    } else {
        clerp_math(g.0, MATH_ZERO_BITS, MATH_ONE_BITS, CENTER_DB_BITS, SILENT_DB_BITS)
    };
    let r_lerp = if ge_maths(g.0, MATH_ZERO_BITS) {
        clerp_math(g.0, MATH_ZERO_BITS, MATH_ONE_BITS, CENTER_DB_BITS, MATH_ZERO_BITS)
    } else {
        clerp_math(g.0, MATH_NEG_ONE_BITS, MATH_ZERO_BITS, SILENT_DB_BITS, CENTER_DB_BITS)
    };
    (l_lerp, r_lerp)
}

/// Scales a sample by a double-precision linear gain — the gain times the
/// widened sample, narrowed back — with an exact contract for every gain
/// value. The decibel-to-linear conversion's result is not a function of
/// its argument, so panning obtains the gain first and this function does
/// the rest.
pub fn apply_linear_gain(lin: Math, s: Sample) -> (r: Sample)
    ensures
        linear_gain_applied(lin.0, s.0, r.0),
{
    Sample(math_to_sample(mul_maths(lin.0, sample_to_math(s.0))))
}

/// Pans a sample between the left and right channels under the
/// equal-power law. The single-precision pan parameter lies in `[-1, 1]`:
/// `-1` is panned full left, `1` full right, `0` centered (both channels
/// three decibels down). Values outside that range are clamped to it by
/// the interpolation. The decibel curves handed to the decibel-to-linear
/// conversion are pinned by [`pan_decibels`]; of the conversion's result
/// nothing is fixed, so the contract pins each channel to the input
/// sample scaled by some linear gain (see [`apply_linear_gain`]).
impl Panner<Gain> for Stereo {
    open spec fn pan_ok(s: Sample, g: Gain, r: Stereo) -> bool {
        (exists|lin: u64| linear_gain_applied(lin, s.0, r.left.0)) && (exists|lin: u64|
            linear_gain_applied(lin, s.0, r.right.0))
    }

    fn to_sample_format(s: Sample, g: Gain) -> (r: Stereo) {
        let dbs = pan_decibels(g);
        let ll = db_to_linear_math(dbs.0);
        let rl = db_to_linear_math(dbs.1);
        let left = apply_linear_gain(Math(ll), s);
        let right = apply_linear_gain(Math(rl), s);
        let out = Stereo { left, right };
        proof {
            assert(linear_gain_applied(ll, s.0, out.left.0));
            assert(linear_gain_applied(rl, s.0, out.right.0));
        }
        out
    }
}

/// Pans a sample between the left and right channels under the
/// equal-power law, with the pan parameter given at double precision; the
/// same law as the single-precision parameterization, its decibel curves
/// pinned by [`pan_decibels_math`].
impl Panner<Math> for Stereo {
    open spec fn pan_ok(s: Sample, g: Math, r: Stereo) -> bool {
        (exists|lin: u64| linear_gain_applied(lin, s.0, r.left.0)) && (exists|lin: u64|
            linear_gain_applied(lin, s.0, r.right.0))
    }

    fn to_sample_format(s: Sample, g: Math) -> (r: Stereo) {
        let dbs = pan_decibels_math(g);
        let ll = db_to_linear_math(dbs.0);
        let rl = db_to_linear_math(dbs.1);
        let left = apply_linear_gain(Math(ll), s);
        let right = apply_linear_gain(Math(rl), s);
        let out = Stereo { left, right };
        proof {
            assert(linear_gain_applied(ll, s.0, out.left.0));
            assert(linear_gain_applied(rl, s.0, out.right.0));
        }
        out
    }
}

/// The equal-power split sends the same value to both channels: each is
/// the input scaled by the square root of one half.
pub proof fn lemma_stereo_split_centered(s: Sample, st: Stereo)
    requires
        Stereo::from_sample_ok(s, st),
    ensures
        st.left == st.right,
        like_bits(st.left.0, mul_bits(s.0, sqrt_bits(ONE_HALF_BITS))),
{
}

/// The fallible conversions read only the first channels' worth of
/// elements: a longer input decodes exactly as its two-element prefix
/// does, so extra trailing elements never change the result.
pub proof fn lemma_stereo_decode_uses_prefix(v8: Seq<u8>, v16: Seq<i16>, v24: Seq<i32>)
    requires
        v8.len() >= 2,
        v16.len() >= 2,
        v24.len() >= 2,
    ensures
        Stereo::spec_from_u8_seq(v8) == Stereo::spec_from_u8_seq(v8.take(2)),
        Stereo::spec_from_i16_seq(v16) == Stereo::spec_from_i16_seq(v16.take(2)),
        Stereo::spec_from_i24_seq(v24) == Stereo::spec_from_i24_seq(v24.take(2)),
{
    assert(v8.take(2)[0] == v8[0] && v8.take(2)[1] == v8[1]);
    assert(v16.take(2)[0] == v16[0] && v16.take(2)[1] == v16[1]);
    assert(v24.take(2)[0] == v24[0] && v24.take(2)[1] == v24[1]);
}

} // verus!
