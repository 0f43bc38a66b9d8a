use sound_sync::filter::{Biquad, InputFilter};
use sound_sync::fixed::{
    apply_gain, clamp_sample, fp_div, isqrt, lerp_gain, FP_ONE, SAMPLE_LIMIT,
};
use sound_sync::source::{gain_for_distance, DistanceModel, SoundSourceBuilder, SoundError, Status, Vec3};

#[test]
fn isqrt_exact_values() {
    assert_eq!(isqrt(0), 0);
    assert_eq!(isqrt(1), 1);
    assert_eq!(isqrt(15), 3);
    assert_eq!(isqrt(16), 4);
    assert_eq!(isqrt(1_000_000), 1000);
}

#[test]
fn lerp_gain_ramp_values() {
    // A full-to-half ramp over four samples.
    assert_eq!(lerp_gain(1024, 512, 0, 4), 1024);
    assert_eq!(lerp_gain(1024, 512, 1, 4), 896);
    assert_eq!(lerp_gain(1024, 512, 2, 4), 768);
    assert_eq!(lerp_gain(1024, 512, 3, 4), 640);
    // A steady ramp stays at its value.
    assert_eq!(lerp_gain(700, 700, 2, 8), 700);
}

#[test]
fn apply_gain_scales_symmetrically() {
    assert_eq!(apply_gain(1000, FP_ONE), 1000);
    assert_eq!(apply_gain(1000, 512), 500);
    assert_eq!(apply_gain(-1000, 512), -500);
    assert_eq!(apply_gain(1000, 0), 0);
}

#[test]
fn clamp_and_rescale() {
    assert_eq!(clamp_sample(SAMPLE_LIMIT + 5), SAMPLE_LIMIT);
    assert_eq!(clamp_sample(-SAMPLE_LIMIT - 5), -SAMPLE_LIMIT);
    assert_eq!(clamp_sample(123), 123);
    assert_eq!(fp_div(2048), 2);
    assert_eq!(fp_div(-2048), -2);
}

#[test]
fn distance_gain_no_attenuation() {
    assert_eq!(
        gain_for_distance(DistanceModel::NoAttenuation, 4000, 1, 1024, 4096),
        1024
    );
}

#[test]
fn distance_gain_linear() {
    // Gain falls linearly: at 513 units with radius 1 and maximum 1025 the
    // gain is exactly half.
    assert_eq!(gain_for_distance(DistanceModel::Linear, 513, 1, 1024, 1025), 512);
    // Inside the radius the gain is full.
    assert_eq!(gain_for_distance(DistanceModel::Linear, 0, 1, 1024, 1025), 1024);
    // Past the maximum distance the gain bottoms out.
    assert_eq!(gain_for_distance(DistanceModel::Linear, 4000, 1, 1024, 1025), 0);
}

#[test]
fn distance_gain_inverse() {
    assert_eq!(
        gain_for_distance(DistanceModel::Inverse, 3, 1, 1024, 4096),
        341
    );
}

#[test]
fn distance_gain_exponential() {
    // Base one half, exponent two: a quarter.
    assert_eq!(
        gain_for_distance(DistanceModel::Exponential, 2, 1, 2048, 4096),
        256
    );
}

#[test]
fn biquad_passthrough_and_scaling() {
    let mut pass = Biquad::new(1024, 0, 0, 0, 0);
    assert_eq!(pass.feed(500), 500);
    assert_eq!(pass.feed(-500), -500);

    let mut half = Biquad::new(512, 0, 0, 0, 0);
    assert_eq!(half.feed(1000), 500);
    // The running state remembers the previous input and output.
    assert_eq!(half.x1, 1000);
    assert_eq!(half.y1, 500);
}

#[test]
fn biquad_uses_history() {
    // y = (b0*x + b1*x1)/FP_ONE: after one sample the history term kicks in.
    let mut f = Biquad::new(1024, 1024, 0, 0, 0);
    assert_eq!(f.feed(100), 100);
    assert_eq!(f.feed(10), 110);
}

#[test]
fn input_filter_runs_both_channels() {
    let mut f = InputFilter::new(Biquad::new(512, 0, 0, 0, 0));
    let (l, r) = f.feed(1000, -200);
    assert_eq!(l, 500);
    assert_eq!(r, -100);
}

#[test]
fn builder_validates_parameters() {
    let bad = SoundSourceBuilder::new().with_gain(-1).build();
    assert!(matches!(bad, Err(SoundError::InvalidParameters)));
    let bad2 = SoundSourceBuilder::new().with_radius(0).build();
    assert!(matches!(bad2, Err(SoundError::InvalidParameters)));

    let good = SoundSourceBuilder::new()
        .with_gain(512)
        .with_status(Status::Playing)
        .with_position(Vec3 { x: 1, y: 2, z: 3 })
        .build()
        .unwrap();
    assert_eq!(good.gain, 512);
    assert_eq!(good.status, Status::Playing);
    assert_eq!(good.position, Vec3 { x: 1, y: 2, z: 3 });
    assert_eq!(good.frame_samples.len(), 0);
}

#[test]
fn source_setters_saturate() {
    let mut s = SoundSourceBuilder::new().build().unwrap();
    s.set_gain(-5);
    assert_eq!(s.gain, 0);
    s.set_panning(5000);
    assert_eq!(s.panning, FP_ONE);
    s.set_spatial_blend(-3);
    assert_eq!(s.spatial_blend, 0);
    s.set_max_distance(100);
    s.set_radius(500);
    assert_eq!(s.radius, 100);
    s.stop();
    assert_eq!(s.status, Status::Stopped);
    assert_eq!(s.playback_time, 0);
}
