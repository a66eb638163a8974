use vrm_anim::bones::BoneName;
use vrm_anim::clip::{Interpolation, Track, TrackValues};
use vrm_anim::math::{lerp_i64, quat_neg, rot_correct, QuatFx, Vec3Fx, SCALE};
use vrm_anim::sampler::{find_key_index, sample_track, wrap_time, SampledValue};

fn v(x: i64, y: i64, z: i64) -> Vec3Fx {
    Vec3Fx { x, y, z }
}

fn q(x: i64, y: i64, z: i64, w: i64) -> QuatFx {
    QuatFx { x, y, z, w }
}

fn translation_track(times: Vec<i64>, vals: Vec<Vec3Fx>, interp: Interpolation) -> Track {
    Track { bone: BoneName::Hips, times, values: TrackValues::Translations(vals), interpolation: interp }
}

#[test]
fn lerp_exact_values() {
    assert_eq!(lerp_i64(0, 100, 0, 4), 0);
    assert_eq!(lerp_i64(0, 100, 1, 4), 25);
    assert_eq!(lerp_i64(0, 100, 4, 4), 100);
    assert_eq!(lerp_i64(100, 0, 1, 4), 75);
    assert_eq!(lerp_i64(-100, 100, 2, 4), 0);
}

#[test]
fn find_key_index_brackets() {
    let times: Vec<i64> = vec![0, 10, 20, 30];
    assert_eq!(find_key_index(&times, 0), 0);
    assert_eq!(find_key_index(&times, 5), 0);
    assert_eq!(find_key_index(&times, 10), 1);
    assert_eq!(find_key_index(&times, 29), 2);
    assert_eq!(find_key_index(&times, 30), 3);
    assert_eq!(find_key_index(&times, 99), 3);
    let late: Vec<i64> = vec![10, 20];
    assert_eq!(find_key_index(&late, 5), 0);
}

#[test]
fn sampling_at_zero_returns_first_keyframe_every_mode() {
    for interp in [Interpolation::Step, Interpolation::Linear, Interpolation::CubicSpline] {
        let track = translation_track(vec![0, SCALE], vec![v(1, 2, 3), v(100, 200, 300)], interp);
        assert!(sample_track(&track, 0) == SampledValue::Translation(v(1, 2, 3)));
    }
    // Also when the first keyframe sits after time zero.
    for interp in [Interpolation::Step, Interpolation::Linear, Interpolation::CubicSpline] {
        let track = translation_track(vec![SCALE, 2 * SCALE], vec![v(7, 8, 9), v(10, 11, 12)], interp);
        assert!(sample_track(&track, 0) == SampledValue::Translation(v(7, 8, 9)));
    }
}

#[test]
fn wrap_at_duration_loops_to_zero() {
    assert_eq!(wrap_time(SCALE, SCALE), 0);
    assert_eq!(wrap_time(3 * SCALE, SCALE), 0);
    assert_eq!(wrap_time(98304, 65536), 32768);
    // A zero duration holds at the first keyframe.
    assert_eq!(wrap_time(12345, 0), 0);
}

#[test]
fn linear_midpoint_is_mean() {
    let track = translation_track(
        vec![0, 2 * SCALE],
        vec![v(0, 0, 0), v(0, SCALE, 0)],
        Interpolation::Linear,
    );
    assert!(sample_track(&track, SCALE) == SampledValue::Translation(v(0, SCALE / 2, 0)));
}

#[test]
fn step_holds_earlier_keyframe() {
    let track = translation_track(
        vec![0, 2 * SCALE],
        vec![v(0, 0, 0), v(0, SCALE, 0)],
        Interpolation::Step,
    );
    assert!(sample_track(&track, SCALE) == SampledValue::Translation(v(0, 0, 0)));
    assert!(sample_track(&track, 2 * SCALE) == SampledValue::Translation(v(0, SCALE, 0)));
}

#[test]
fn cubic_spline_falls_back_to_linear() {
    let linear = translation_track(
        vec![0, 2 * SCALE],
        vec![v(0, 0, 0), v(0, SCALE, 0)],
        Interpolation::Linear,
    );
    let cubic = translation_track(
        vec![0, 2 * SCALE],
        vec![v(0, 0, 0), v(0, SCALE, 0)],
        Interpolation::CubicSpline,
    );
    for t in [0, SCALE / 2, SCALE, 2 * SCALE] {
        assert!(sample_track(&linear, t) == sample_track(&cubic, t));
    }
}

#[test]
fn no_extrapolation_outside_keyframes() {
    let track = translation_track(
        vec![SCALE, 2 * SCALE],
        vec![v(10, 10, 10), v(20, 20, 20)],
        Interpolation::Linear,
    );
    // Before the first keyframe: hold the first value.
    assert!(sample_track(&track, 0) == SampledValue::Translation(v(10, 10, 10)));
    // At or past the last keyframe: hold the last value.
    assert!(sample_track(&track, 3 * SCALE) == SampledValue::Translation(v(20, 20, 20)));
}

#[test]
fn single_keyframe_holds_value() {
    let track = translation_track(vec![0], vec![v(5, 6, 7)], Interpolation::Linear);
    assert!(sample_track(&track, 0) == SampledValue::Translation(v(5, 6, 7)));
    assert!(sample_track(&track, 12345) == SampledValue::Translation(v(5, 6, 7)));
}

#[test]
fn rotation_correction_flips_y_and_w() {
    let r = rot_correct(&q(100, 200, 300, 400));
    assert!(r == q(100, -200, 300, -400));
}

#[test]
fn rotation_step_is_corrected_keyframe() {
    let identity = q(0, 0, 0, SCALE);
    let track = Track {
        bone: BoneName::Head,
        times: vec![0, SCALE],
        values: TrackValues::Rotations(vec![identity, q(0, 46341, 0, 46341)]),
        interpolation: Interpolation::Step,
    };
    assert!(sample_track(&track, SCALE / 2) == SampledValue::Rotation(q(0, 0, 0, -SCALE)));
}

#[test]
fn rotation_linear_midpoint_is_shortest_arc_mean() {
    // Identity towards a 90-degree vertical-axis rotation; both on the
    // same hemisphere, so the raw midpoint is the componentwise mean
    // (rounded towards the first keyframe), then corrected.
    let a = q(0, 0, 0, SCALE);
    let b = q(0, 46341, 0, 46341);
    let track = Track {
        bone: BoneName::Head,
        times: vec![0, SCALE],
        values: TrackValues::Rotations(vec![a, b]),
        interpolation: Interpolation::Linear,
    };
    // y: 0 + floor(46341 / 2) = 23170; w: 65536 - floor(19195 / 2) = 55939.
    assert!(sample_track(&track, SCALE / 2) == SampledValue::Rotation(q(0, -23170, 0, -55939)));
}

#[test]
fn rotation_opposite_hemisphere_uses_negated_keyframe() {
    // The second keyframe has a negative dot with the first; the
    // interpolation heads for its negation (the same rotation on the
    // shorter arc). At the far end the sample is the corrected negation.
    let a = q(0, 0, 0, SCALE);
    let b = q(0, 0, 0, -SCALE);
    assert_eq!(quat_neg(&b), a);
    let track = Track {
        bone: BoneName::Head,
        times: vec![0, SCALE],
        values: TrackValues::Rotations(vec![a, b]),
        interpolation: Interpolation::Linear,
    };
    // At the far end the bracketing interval is the last keyframe held
    // with fraction zero, so the raw sample is `b` itself; the
    // correction then flips its `w` back to the identity's.
    assert!(sample_track(&track, SCALE) == SampledValue::Rotation(q(0, 0, 0, SCALE)));
    // Mid-track the interpolation heads from `a` towards `-b == a`, so
    // the raw sample is `a` and the correction flips its `w`.
    assert!(sample_track(&track, SCALE / 2) == SampledValue::Rotation(q(0, 0, 0, -SCALE)));
}
