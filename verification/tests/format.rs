use bae_sf::Math;
use bae_sf::Mono;
use bae_sf::Sample;
use bae_sf::SampleFormat;
use bae_sf::Stereo;

fn sample(x: f32) -> Sample {
    Sample(x.to_bits())
}

fn value(s: Sample) -> f32 {
    f32::from_bits(s.0)
}

fn close(a: f32, b: f32, tol: f32) -> bool {
    (a - b).abs() <= tol
}

#[test]
fn mono_new_and_default_are_silence() {
    assert_eq!(Mono::new(), Mono { mono: Sample(0) });
    assert_eq!(Mono::default(), Mono::new());
    assert_eq!(value(Mono::new().mono), 0.0);
}

#[test]
fn stereo_new_and_default_are_silence() {
    assert_eq!(Stereo::new(), Stereo { left: Sample(0), right: Sample(0) });
    assert_eq!(Stereo::default(), Stereo::new());
}

#[test]
fn mono_from_wraps_the_sample() {
    let m = Mono::from(sample(0.25));
    assert_eq!(m.mono, sample(0.25));
}

#[test]
fn stereo_from_keeps_left_and_right_in_order() {
    let s = Stereo::from(sample(0.25), sample(-0.5));
    assert_eq!(s.left, sample(0.25));
    assert_eq!(s.right, sample(-0.5));
    let v: Vec<i16> = s.into_vec_i16();
    assert_eq!(v[0], bae_rs::sample_to_i16(0.25));
    assert_eq!(v[1], bae_rs::sample_to_i16(-0.5));
}

#[test]
fn mono_round_trip_is_identity() {
    let s = sample(0.7);
    assert_eq!(Mono::from_sample(s).into_sample(), s);
    let odd = Sample(0x7fc0_0001);
    assert_eq!(Mono::from_sample(odd).into_sample(), odd);
}

#[test]
fn stereo_from_sample_splits_at_equal_power() {
    let s = sample(0.5);
    let st = Stereo::from_sample(s);
    assert_eq!(st.left, st.right);
    let expected = 0.5f32 * 0.5f32.sqrt();
    assert_eq!(value(st.left), expected);
}

#[test]
fn stereo_round_trip_reproduces_a_centered_signal() {
    // The downmix scales the channel sum by sqrt(1/2), so a centered
    // round trip comes back unchanged up to rounding.
    let s = sample(0.3);
    let back = Stereo::from_sample(s).into_sample();
    assert!(close(value(back), 0.3, 1e-6));
    let expected = (2.0f32 * (0.3f32 * 0.5f32.sqrt())) * 0.5f32.sqrt();
    assert_eq!(value(back), expected);
}

#[test]
fn num_samples_is_one_for_mono_and_two_for_stereo() {
    assert_eq!(Mono::num_samples(), 1);
    assert_eq!(Stereo::num_samples(), 2);
}

#[test]
fn infallible_conversions_have_exactly_num_samples_elements() {
    let m = Mono::from(sample(0.1));
    let u: Vec<u8> = m.into_vec_u8();
    assert_eq!(u.len(), 1);
    let i: Vec<i16> = m.into_vec_i16();
    assert_eq!(i.len(), 1);
    let q: Vec<i32> = m.into_vec_i24();
    assert_eq!(q.len(), 1);
    let s = Stereo::from(sample(0.1), sample(0.2));
    let u: Vec<u8> = s.into_vec_u8();
    assert_eq!(u.len(), 2);
    let i: Vec<i16> = s.into_vec_i16();
    assert_eq!(i.len(), 2);
    let q: Vec<i32> = s.into_vec_i24();
    assert_eq!(q.len(), 2);
}

#[test]
fn short_input_fails_with_the_exact_message() {
    assert_eq!(
        Mono::try_from_u8(vec![]),
        Err("ERROR: Given vector was length 0. This function requires length 1.".to_owned())
    );
    assert_eq!(
        Mono::try_from_i16(vec![]),
        Err("ERROR: Given vector was length 0. This function requires length 1.".to_owned())
    );
    assert_eq!(
        Mono::try_from_i24(vec![]),
        Err("ERROR: Given vector was length 0. This function requires length 1.".to_owned())
    );
    assert_eq!(
        Stereo::try_from_u8(vec![]),
        Err("ERROR: Given vector was length 0. This function requires length 2.".to_owned())
    );
    assert_eq!(
        Stereo::try_from_i16(vec![7]),
        Err("ERROR: Given vector was length 1. This function requires length 2.".to_owned())
    );
    assert_eq!(
        Stereo::try_from_i24(vec![7]),
        Err("ERROR: Given vector was length 1. This function requires length 2.".to_owned())
    );
}

#[test]
fn longer_input_succeeds_and_uses_only_the_first_elements() {
    let m = Mono::try_from_u8(vec![100, 200, 250]).unwrap();
    assert_eq!(m, Mono::try_from_u8(vec![100]).unwrap());
    assert_eq!(value(m.mono), bae_rs::sample_from_u8(100));
    let s = Stereo::try_from_i16(vec![1000, -2000, 31000]).unwrap();
    assert_eq!(s, Stereo::try_from_i16(vec![1000, -2000]).unwrap());
    assert_eq!(value(s.left), bae_rs::sample_from_i16(1000));
    assert_eq!(value(s.right), bae_rs::sample_from_i16(-2000));
    let q = Stereo::try_from_i24(vec![70000, -80000, 5]).unwrap();
    assert_eq!(q, Stereo::try_from_i24(vec![70000, -80000]).unwrap());
}

#[test]
fn decoding_matches_the_scalar_codec() {
    let m = Mono::try_from_u8(vec![192]).unwrap();
    assert_eq!(value(m.mono), bae_rs::sample_from_u8(192));
    assert_eq!(value(m.mono), 0.5);
    let m = Mono::try_from_i16(vec![-16384]).unwrap();
    assert_eq!(value(m.mono), bae_rs::sample_from_i16(-16384));
    let m = Mono::try_from_i24(vec![4194304]).unwrap();
    assert_eq!(value(m.mono), bae_rs::sample_from_i24(4194304));
}

#[test]
fn encoding_matches_the_scalar_codec() {
    let m = Mono::from(sample(0.5));
    assert_eq!(m.into_vec_u8(), vec![192u8]);
    let m = Mono::from(sample(-0.25));
    assert_eq!(m.into_vec_u8(), vec![bae_rs::sample_to_u8(-0.25)]);
    assert_eq!(m.into_vec_i16(), vec![bae_rs::sample_to_i16(-0.25)]);
    assert_eq!(m.into_vec_i24(), vec![bae_rs::sample_to_i24(-0.25)]);
}

#[test]
fn sixteen_bit_round_trip_is_within_one_step() {
    let v = vec![0i16, 1, -1, 1000, -32767, 32767];
    for &x in &v {
        let m = Mono::try_from_i16(vec![x]).unwrap();
        let back: Vec<i16> = m.into_vec_i16();
        assert!((back[0] as i32 - x as i32).abs() <= 1, "{} came back as {}", x, back[0]);
    }
    let s = Stereo::try_from_i16(vec![12345, -23456]).unwrap();
    let back: Vec<i16> = s.into_vec_i16();
    assert!((back[0] as i32 - 12345).abs() <= 1);
    assert!((back[1] as i32 + 23456).abs() <= 1);
}

#[test]
fn twenty_four_bit_round_trip_is_within_one_step() {
    for &x in &[0i32, 1, -1, 8388607, -8388607, 70000] {
        let m = Mono::try_from_i24(vec![x]).unwrap();
        let back: Vec<i32> = m.into_vec_i24();
        assert!((back[0] - x).abs() <= 1, "{} came back as {}", x, back[0]);
    }
}

#[test]
fn mono_arithmetic_is_scalar_arithmetic() {
    let a = Mono::from(sample(3.0));
    let b = Mono::from(sample(1.0));
    assert_eq!(a.add(b), Mono::from(sample(4.0)));
    assert_eq!(a.sub(b), Mono::from(sample(2.0)));
    assert_eq!(a.mul(b), Mono::from(sample(3.0)));
    assert_eq!(a.neg(), Mono::from(sample(-3.0)));
    assert_eq!(a.mul_sample(sample(0.5)), Mono::from(sample(1.5)));
    let mut c = a;
    c.add_assign(b);
    assert_eq!(c, Mono::from(sample(4.0)));
    c.sub_assign(b);
    assert_eq!(c, Mono::from(sample(3.0)));
    c.mul_assign(Mono::from(sample(2.0)));
    assert_eq!(c, Mono::from(sample(6.0)));
    c.mul_sample_assign(sample(0.5));
    assert_eq!(c, Mono::from(sample(3.0)));
}

#[test]
fn stereo_arithmetic_is_element_wise() {
    let a = Stereo::from(sample(3.0), sample(-2.0));
    let b = Stereo::from(sample(1.0), sample(4.0));
    assert_eq!(a.add(b), Stereo::from(sample(4.0), sample(2.0)));
    assert_eq!(a.sub(b), Stereo::from(sample(2.0), sample(-6.0)));
    assert_eq!(a.mul(b), Stereo::from(sample(3.0), sample(-8.0)));
    assert_eq!(a.neg(), Stereo::from(sample(-3.0), sample(2.0)));
    assert_eq!(a.mul_sample(sample(0.5)), Stereo::from(sample(1.5), sample(-1.0)));
    let mut c = a;
    c.add_assign(b);
    assert_eq!(c, Stereo::from(sample(4.0), sample(2.0)));
    c.sub_assign(b);
    assert_eq!(c, a);
    c.mul_assign(b);
    assert_eq!(c, Stereo::from(sample(3.0), sample(-8.0)));
}

#[test]
fn value_and_in_place_subtraction_agree() {
    // Both forms truly subtract: the value form is not an addition in
    // disguise, for Mono just as for Stereo.
    let a = Mono::from(sample(3.0));
    let b = Mono::from(sample(1.0));
    let mut c = a;
    c.sub_assign(b);
    assert_eq!(a.sub(b), c);
    assert_eq!(value(a.sub(b).mono), 2.0);
}

#[test]
fn gain_multiplication_widens_then_narrows() {
    let g = Math(0.3f64.to_bits());
    let m = Mono::from(sample(0.5)).mul_math(g);
    let expected = ((f64::from(0.5f32) * 0.3f64) as f32).to_bits();
    assert_eq!(m.mono.0, expected);
    let mut n = Mono::from(sample(0.5));
    n.mul_math_assign(g);
    assert_eq!(n, m);
}

#[test]
fn stereo_in_place_gain_narrows_the_gain_first() {
    let g = Math(0.3f64.to_bits());
    let a = Stereo::from(sample(0.5), sample(-0.25));
    let by_value = a.mul_math(g);
    let expected_left = ((f64::from(0.5f32) * 0.3f64) as f32).to_bits();
    assert_eq!(by_value.left.0, expected_left);
    let mut in_place = a;
    in_place.mul_math_assign(g);
    let narrowed = 0.3f64 as f32;
    assert_eq!(in_place.left, sample(0.5f32 * narrowed));
    assert_eq!(in_place.right, sample(-0.25f32 * narrowed));
}

#[test]
fn add_then_sub_returns_to_the_start() {
    let a = Mono::from(sample(0.375));
    let b = Mono::from(sample(0.125));
    assert_eq!(a.add(b).sub(b), a);
    let s = Stereo::from(sample(0.375), sample(-0.5));
    let t = Stereo::from(sample(0.125), sample(0.25));
    assert_eq!(s.add(t).sub(t), s);
}

#[test]
fn multiplying_by_the_default_gives_the_default() {
    let a = Mono::from(sample(0.25));
    assert_eq!(a.mul(Mono::default()), Mono::default());
    let s = Stereo::from(sample(0.25), sample(0.75));
    assert_eq!(s.mul(Stereo::default()), Stereo::default());
}
