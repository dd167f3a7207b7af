use bae_sf::Gain;
use bae_sf::Math;
use bae_sf::Mono;
use bae_sf::Panner;
use bae_sf::Sample;
use bae_sf::Stereo;

fn sample(x: f32) -> Sample {
    Sample(x.to_bits())
}

fn value(s: Sample) -> f32 {
    f32::from_bits(s.0)
}

fn gain(x: f32) -> Gain {
    Gain(x.to_bits())
}

fn math(x: f64) -> Math {
    Math(x.to_bits())
}

fn close(a: f32, b: f32, tol: f32) -> bool {
    (a - b).abs() <= tol
}

/// The channel value panning computes for a given decibel attenuation.
fn panned(db: f64, s: f32) -> f32 {
    (bae_rs::utils::db_to_linear(db) * f64::from(s)) as f32
}

#[test]
fn library_bit_constants_match_the_scalar_values() {
    assert_eq!(bae_sf::stereo::ONE_HALF_BITS, 0.5f32.to_bits());
    assert_eq!(bae_sf::stereo::PAN_CENTER_BITS, 0.0f32.to_bits());
    assert_eq!(bae_sf::stereo::MATH_ZERO_BITS, 0.0f64.to_bits());
    assert_eq!(bae_sf::stereo::MATH_ONE_BITS, 1.0f64.to_bits());
    assert_eq!(bae_sf::stereo::MATH_NEG_ONE_BITS, (-1.0f64).to_bits());
    assert_eq!(bae_sf::stereo::CENTER_DB_BITS, (-3.0f64).to_bits());
    assert_eq!(bae_sf::stereo::SILENT_DB_BITS, (-120.0f64).to_bits());
}

#[test]
fn mono_panning_ignores_the_parameter() {
    let s = sample(0.6);
    assert_eq!(Mono::to_sample_format(s, 42i32), Mono { mono: s });
    assert_eq!(Mono::to_sample_format(s, gain(-1.0)), Mono { mono: s });
    assert_eq!(Mono::to_sample_format(s, math(0.25)), Mono { mono: s });
}

#[test]
fn stereo_pan_at_center_puts_both_channels_three_db_down() {
    // Equal-power center: each channel is attenuated by three decibels,
    // a multiplier of about 0.708, so the two channels sum to unity
    // power.
    let s = sample(1.0);
    let st: Stereo = Stereo::to_sample_format(s, gain(0.0));
    assert_eq!(value(st.left), panned(-3.0, 1.0));
    assert_eq!(value(st.right), panned(-3.0, 1.0));
    assert!(close(value(st.left), 0.70794576, 1e-6));
    assert_eq!(st.left, st.right);
    let dm: Stereo = Stereo::to_sample_format(s, math(0.0));
    assert_eq!(dm, st);
}

#[test]
fn stereo_pan_hard_right_keeps_right_at_full_scale() {
    // At a hard right pan the right channel is at zero decibels
    // (multiplier one) and the left is a hundred twenty decibels down,
    // near silence.
    let s = sample(1.0);
    let st: Stereo = Stereo::to_sample_format(s, gain(1.0));
    assert_eq!(value(st.left), panned(-120.0, 1.0));
    assert!(close(value(st.left), 1e-6, 1e-9));
    assert_eq!(value(st.right), panned(0.0, 1.0));
    assert!(close(value(st.right), 1.0, 1e-9));
    let dm: Stereo = Stereo::to_sample_format(s, math(1.0));
    assert_eq!(dm, st);
}

#[test]
fn stereo_pan_hard_left_keeps_left_at_full_scale() {
    // The mirror image of the hard right pan.
    let s = sample(0.5);
    let st: Stereo = Stereo::to_sample_format(s, gain(-1.0));
    assert_eq!(value(st.left), panned(0.0, 0.5));
    assert!(close(value(st.left), 0.5, 1e-9));
    assert_eq!(value(st.right), panned(-120.0, 0.5));
    assert!(close(value(st.right), 0.5e-6, 1e-9));
    let dm: Stereo = Stereo::to_sample_format(s, math(-1.0));
    assert_eq!(dm, st);
}

#[test]
fn stereo_pan_clamps_parameters_outside_the_range() {
    let s = sample(0.8);
    let hard_right: Stereo = Stereo::to_sample_format(s, gain(1.0));
    let beyond: Stereo = Stereo::to_sample_format(s, gain(2.5));
    assert_eq!(beyond, hard_right);
    let hard_left: Stereo = Stereo::to_sample_format(s, math(-1.0));
    let beyond: Stereo = Stereo::to_sample_format(s, math(-7.0));
    assert_eq!(beyond, hard_left);
}

#[test]
fn stereo_pan_scales_linearly_with_the_input_sample() {
    let st: Stereo = Stereo::to_sample_format(sample(0.25), gain(0.5));
    let l_db = bae_rs::utils::clerp(0.5, 0.0, 1.0, -3.0, -120.0);
    let r_db = bae_rs::utils::clerp(0.5, 0.0, 1.0, -3.0, 0.0);
    assert_eq!(value(st.left), panned(l_db, 0.25));
    assert_eq!(value(st.right), panned(r_db, 0.25));
}

#[test]
fn pan_decibels_reports_the_interpolated_curves() {
    let (l, r) = bae_sf::stereo::pan_decibels(gain(0.25));
    assert_eq!(f64::from_bits(l), bae_rs::utils::clerp(0.25, 0.0, 1.0, -3.0, -120.0));
    assert_eq!(f64::from_bits(r), bae_rs::utils::clerp(0.25, 0.0, 1.0, -3.0, 0.0));
    let (l, r) = bae_sf::stereo::pan_decibels_math(math(-0.5));
    assert_eq!(f64::from_bits(l), bae_rs::utils::clerp(-0.5, -1.0, 0.0, 0.0, -3.0));
    assert_eq!(f64::from_bits(r), bae_rs::utils::clerp(-0.5, -1.0, 0.0, -120.0, -3.0));
}

#[test]
fn apply_linear_gain_scales_the_sample() {
    let r = bae_sf::stereo::apply_linear_gain(math(0.25), sample(0.5));
    assert_eq!(value(r), (0.25f64 * f64::from(0.5f32)) as f32);
    assert_eq!(value(r), 0.125);
}
