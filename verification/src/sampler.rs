//! Playback sampling: locating the bracketing keyframe interval and
//! interpolating a track's value at a wrapped playback time.

use vstd::arithmetic::div_mod::{lemma_div_multiples_vanish, lemma_mod_self_0};
use vstd::prelude::*;

use crate::clip::{times_sorted, track_wf, Interpolation, Track, TrackValues};
use crate::math::{
    align_quat_spec, lemma_lerp_int_at_zero, lemma_lerp_int_midpoint, lerp_quat, lerp_quat_spec,
    lerp_vec3, lerp_vec3_spec, rot_correct, rot_correct_spec, time_ok, QuatFx, Vec3Fx, TIME_LIMIT,
};

verus! {

/// One sampled track value, tagged with the property it animates.
#[derive(Clone, Copy, PartialEq, Eq, Structural, Debug)]
pub enum SampledValue {
    Translation(Vec3Fx),
    Rotation(QuatFx),
    Scale(Vec3Fx),
}

/// The largest index whose time is at or before `t`; index 0 when `t`
/// lies before every keyframe.
pub open spec fn key_index_spec(times: Seq<i64>, t: i64) -> int
    decreases times.len(),
{
    if times.len() <= 1 {
        0
    } else if times[times.len() - 1] <= t {
        times.len() - 1
    } else {
        key_index_spec(times.drop_last(), t)
    }
}

/// What [`key_index_spec`] returns: an in-range index, at or before `t`
/// unless everything is after `t`, with every later time after `t`.
pub proof fn lemma_key_index_props(times: Seq<i64>, t: i64)
    requires
        times.len() >= 1,
        times_sorted(times),
    ensures
        0 <= key_index_spec(times, t) < times.len(),
        times[0] <= t ==> times[key_index_spec(times, t)] <= t,
        times[0] > t ==> key_index_spec(times, t) == 0,
        forall|j: int| key_index_spec(times, t) < j < times.len() ==> times[j] > t,
    decreases times.len(),
{
    if times.len() == 1 {
    } else if times[times.len() - 1] <= t {
    } else {
        let sub = times.drop_last();
        assert(times_sorted(sub)) by {
            assert(forall|i: int, j: int|
                0 <= i <= j < sub.len() ==> sub[i] == times[i] && sub[j] == times[j]);
        }
        lemma_key_index_props(sub, t);
        let i = key_index_spec(sub, t);
        assert(sub[0] == times[0]);
        assert(sub[i] == times[i]);
        assert(forall|j: int| i < j < sub.len() ==> sub[j] == times[j]);
    }
}

/// The index returned by [`key_index_spec`] is the unique one that is at
/// or before `t` while its successor is after `t`.
pub proof fn lemma_key_index_unique(times: Seq<i64>, t: i64, i: int)
    requires
        times.len() >= 1,
        times_sorted(times),
        0 <= i < times.len(),
        times[i] <= t,
        i == times.len() - 1 || times[i + 1] > t,
    ensures
        key_index_spec(times, t) == i,
{
    lemma_key_index_props(times, t);
    let k = key_index_spec(times, t);
    if k < i {
        assert(times[i] > t);
    }
    if k > i {
        assert(i + 1 <= k < times.len());
        assert(times[i + 1] <= times[k]);
        assert(times[0] <= times[i] <= t);
        assert(times[k] <= t);
    }
}

/// Binary search for the bracketing keyframe: the largest index whose
/// time is at or before `t`, or 0 when `t` precedes the whole track.
pub fn find_key_index(times: &Vec<i64>, t: i64) -> (res: usize)
    requires
        times@.len() >= 1,
        times_sorted(times@),
    ensures
        res == key_index_spec(times@, t),
        res < times@.len(),
{
    proof {
        lemma_key_index_props(times@, t);
    }
    if times[0] > t {
        return 0;
    }
    let mut lo: usize = 0;
    let mut hi: usize = times.len() - 1;
    while lo < hi
        invariant
            0 <= lo <= hi < times@.len(),
            times@[lo as int] <= t,
            hi == times@.len() - 1 || times@[hi as int + 1] > t,
            times_sorted(times@),
        decreases hi - lo,
    {
        let mid = hi - (hi - lo) / 2;
        if times[mid] <= t {
            lo = mid;
        } else {
            hi = mid - 1;
        }
    }
    proof {
        lemma_key_index_unique(times@, t, lo as int);
    }
    lo
}

/// The far end of the bracketing interval: the next keyframe when one
/// exists and `t` is not before the track, else the near end itself (no
/// extrapolation before the first or after the last keyframe).
pub open spec fn next_index_spec(times: Seq<i64>, t: i64) -> int {
    let i = key_index_spec(times, t);
    if times[i] > t {
        i
    } else if i + 1 < times.len() {
        i + 1
    } else {
        i
    }
}

/// Numerator of the interpolation fraction `(t - t0) / (t1 - t0)`;
/// zero whenever the interval is degenerate.
pub open spec fn factor_num_spec(times: Seq<i64>, t: i64) -> int {
    let i0 = key_index_spec(times, t);
    let i1 = next_index_spec(times, t);
    if times[i1] > times[i0] {
        t - times[i0]
    } else {
        0
    }
}

/// Denominator of the interpolation fraction; 1 for a degenerate
/// interval so that the fraction is well defined and zero.
pub open spec fn factor_den_spec(times: Seq<i64>, t: i64) -> int {
    let i0 = key_index_spec(times, t);
    let i1 = next_index_spec(times, t);
    if times[i1] > times[i0] {
        times[i1] - times[i0]
    } else {
        1
    }
}

/// The sampled value of a translation or scale curve at `t`: the earlier
/// bracketing keyframe for `Step`, componentwise linear interpolation
/// for `Linear` — and, by documented fallback policy, for `CubicSpline`.
pub open spec fn sample_vec3_spec(
    times: Seq<i64>,
    vals: Seq<Vec3Fx>,
    interp: Interpolation,
    t: i64,
) -> Vec3Fx {
    let i0 = key_index_spec(times, t);
    let i1 = next_index_spec(times, t);
    match interp {
        Interpolation::Step => vals[i0],
        _ => lerp_vec3_spec(vals[i0], vals[i1], factor_num_spec(times, t), factor_den_spec(times, t)),
    }
}

/// The sampled value of a rotation curve at `t`: shortest-arc
/// interpolation (`CubicSpline` falling back to `Linear`), then the
/// rig-convention correction composed on both sides.
pub open spec fn sample_quat_spec(
    times: Seq<i64>,
    vals: Seq<QuatFx>,
    interp: Interpolation,
    t: i64,
) -> QuatFx {
    let i0 = key_index_spec(times, t);
    let i1 = next_index_spec(times, t);
    let raw = match interp {
        Interpolation::Step => vals[i0],
        _ => lerp_quat_spec(vals[i0], vals[i1], factor_num_spec(times, t), factor_den_spec(times, t)),
    };
    rot_correct_spec(raw)
}

/// The sampled value of a track at `t`, tagged with its property kind.
pub open spec fn sample_track_spec(track: Track, t: i64) -> SampledValue {
    match track.values {
        TrackValues::Translations(vs) => SampledValue::Translation(
            sample_vec3_spec(track.times@, vs@, track.interpolation, t),
        ),
        TrackValues::Rotations(vs) => SampledValue::Rotation(
            sample_quat_spec(track.times@, vs@, track.interpolation, t),
        ),
        TrackValues::Scales(vs) => SampledValue::Scale(
            sample_vec3_spec(track.times@, vs@, track.interpolation, t),
        ),
    }
}

/// The first keyframe's value as the sampler reports it: rotation tracks
/// carry the rig-convention correction.
pub open spec fn first_keyframe_spec(track: Track) -> SampledValue {
    match track.values {
        TrackValues::Translations(vs) => SampledValue::Translation(vs@[0]),
        TrackValues::Rotations(vs) => SampledValue::Rotation(rot_correct_spec(vs@[0])),
        TrackValues::Scales(vs) => SampledValue::Scale(vs@[0]),
    }
}

/// Samples one track at playback time `t` (already wrapped into the
/// clip's duration by the caller).
pub fn sample_track(track: &Track, t: i64) -> (r: SampledValue)
    requires
        track_wf(*track),
        0 <= t <= TIME_LIMIT,
    ensures
        r == sample_track_spec(*track, t),
{
    let idx = find_key_index(&track.times, t);
    proof {
        lemma_key_index_props(track.times@, t);
    }
    let t0 = track.times[idx];
    let n = track.times.len();
    let next: usize = if t0 > t {
        idx
    } else if idx < n - 1 {
        idx + 1
    } else {
        idx
    };
    let t1 = track.times[next];
    let (num, den): (i64, i64) = if t1 > t0 {
        (t - t0, t1 - t0)
    } else {
        (0, 1)
    };
    assert(num == factor_num_spec(track.times@, t));
    assert(den == factor_den_spec(track.times@, t));
    assert(0 <= num < den || (num == 0 && den == 1));
    match &track.values {
        TrackValues::Translations(vs) => {
            let v = match track.interpolation {
                Interpolation::Step => vs[idx],
                _ => lerp_vec3(vs[idx], vs[next], num, den),
            };
            SampledValue::Translation(v)
        }
        TrackValues::Rotations(vs) => {
            let q = match track.interpolation {
                Interpolation::Step => vs[idx],
                _ => lerp_quat(&vs[idx], &vs[next], num, den),
            };
            SampledValue::Rotation(rot_correct(&q))
        }
        TrackValues::Scales(vs) => {
            let v = match track.interpolation {
                Interpolation::Step => vs[idx],
                _ => lerp_vec3(vs[idx], vs[next], num, den),
            };
            SampledValue::Scale(v)
        }
    }
}

/// Playback time wrapped into `[0, duration)`; a zero duration holds at
/// the first keyframe (time 0), avoiding a division by zero.
pub open spec fn wrap_time_spec(elapsed: i64, duration: i64) -> i64 {
    if duration <= 0 {
        0
    } else {
        (elapsed as int % duration as int) as i64
    }
}

/// The interpolation of a quaternion pair at fraction zero is the first
/// endpoint, whatever the alignment of the second.
proof fn lemma_lerp_quat_at_zero(a: QuatFx, b: QuatFx, den: int)
    requires
        0 < den,
    ensures
        lerp_quat_spec(a, b, 0, den) == a,
{
    let c = align_quat_spec(a, b);
    lemma_lerp_int_at_zero(a.x as int, c.x as int, den);
    lemma_lerp_int_at_zero(a.y as int, c.y as int, den);
    lemma_lerp_int_at_zero(a.z as int, c.z as int, den);
    lemma_lerp_int_at_zero(a.w as int, c.w as int, den);
}

/// Sampling at time zero yields exactly the first keyframe's value, for
/// every interpolation mode. A track may not repeat time zero in a later
/// keyframe: the bracketing rule picks the last of equal times, so a
/// duplicated zero would surface the duplicate's value instead.
pub proof fn lemma_sample_at_zero(track: Track)
    requires
        track_wf(track),
        forall|j: int| 1 <= j < track.times@.len() ==> track.times@[j] > 0,
    ensures
        sample_track_spec(track, 0) == first_keyframe_spec(track),
{
    let times = track.times@;
    lemma_key_index_props(times, 0);
    if times[0] <= 0 {
        lemma_key_index_unique(times, 0, 0);
    }
    let i0 = key_index_spec(times, 0);
    assert(i0 == 0);
    let den = factor_den_spec(times, 0);
    let num = factor_num_spec(times, 0);
    assert(num == 0);
    assert(den >= 1);
    match track.values {
        TrackValues::Translations(vs) => {
            lemma_lerp_int_at_zero(vs@[0].x as int, vs@[next_index_spec(times, 0)].x as int, den);
            lemma_lerp_int_at_zero(vs@[0].y as int, vs@[next_index_spec(times, 0)].y as int, den);
            lemma_lerp_int_at_zero(vs@[0].z as int, vs@[next_index_spec(times, 0)].z as int, den);
        }
        TrackValues::Rotations(vs) => {
            lemma_lerp_quat_at_zero(vs@[0], vs@[next_index_spec(times, 0)], den);
        }
        TrackValues::Scales(vs) => {
            lemma_lerp_int_at_zero(vs@[0].x as int, vs@[next_index_spec(times, 0)].x as int, den);
            lemma_lerp_int_at_zero(vs@[0].y as int, vs@[next_index_spec(times, 0)].y as int, den);
            lemma_lerp_int_at_zero(vs@[0].z as int, vs@[next_index_spec(times, 0)].z as int, den);
        }
    }
}

/// Playback loops seamlessly: at elapsed time equal to the duration the
/// wrapped time is zero, so the sample is the one taken at time zero —
/// the first keyframe's value.
pub proof fn lemma_loop_boundary(track: Track, duration: i64)
    requires
        track_wf(track),
        0 < duration <= TIME_LIMIT,
        forall|j: int| 1 <= j < track.times@.len() ==> track.times@[j] > 0,
    ensures
        wrap_time_spec(duration, duration) == 0,
        sample_track_spec(track, wrap_time_spec(duration, duration)) == first_keyframe_spec(track),
{
    lemma_mod_self_0(duration as int);
    lemma_sample_at_zero(track);
}

/// The componentwise mean of two vectors (exact when the component sums
/// are even).
pub open spec fn vec3_avg(a: Vec3Fx, b: Vec3Fx) -> Vec3Fx {
    Vec3Fx {
        x: ((a.x + b.x) / 2) as i64,
        y: ((a.y + b.y) / 2) as i64,
        z: ((a.z + b.z) / 2) as i64,
    }
}

/// The componentwise mean of two quaternions.
pub open spec fn quat_avg(a: QuatFx, b: QuatFx) -> QuatFx {
    QuatFx {
        x: ((a.x + b.x) / 2) as i64,
        y: ((a.y + b.y) / 2) as i64,
        z: ((a.z + b.z) / 2) as i64,
        w: ((a.w + b.w) / 2) as i64,
    }
}

pub open spec fn vec3_sum_even(a: Vec3Fx, b: Vec3Fx) -> bool {
    (a.x + b.x) % 2 == 0 && (a.y + b.y) % 2 == 0 && (a.z + b.z) % 2 == 0
}

pub open spec fn quat_sum_even(a: QuatFx, b: QuatFx) -> bool {
    (a.x + b.x) % 2 == 0 && (a.y + b.y) % 2 == 0 && (a.z + b.z) % 2 == 0 && (a.w + b.w) % 2 == 0
}

/// Establishes that the bracketing interval at the exact midpoint of
/// keyframes `k` and `k + 1` is that pair, with fraction 1/2.
proof fn lemma_midpoint_bracket(times: Seq<i64>, t: i64, k: int)
    requires
        times.len() >= 1,
        times_sorted(times),
        0 <= k < times.len() - 1,
        times[k] < times[k + 1],
        2 * t == times[k] + times[k + 1],
    ensures
        key_index_spec(times, t) == k,
        next_index_spec(times, t) == k + 1,
        factor_den_spec(times, t) == 2 * factor_num_spec(times, t),
        factor_num_spec(times, t) == t - times[k],
        factor_den_spec(times, t) == times[k + 1] - times[k],
{
    assert(times[k] <= t);
    assert(times[k + 1] > t);
    lemma_key_index_unique(times, t, k);
}

/// Linear interpolation at the exact midpoint between two keyframes with
/// values `A` and `B` yields `(A + B) / 2`, for a translation or scale
/// curve whose component sums are even (with an odd sum the division
/// would round one half-unit down).
pub proof fn lemma_sample_midpoint_vec3(
    times: Seq<i64>,
    vals: Seq<Vec3Fx>,
    interp: Interpolation,
    t: i64,
    k: int,
)
    requires
        times.len() >= 1,
        times_sorted(times),
        vals.len() == times.len(),
        !(interp is Step),
        0 <= k < times.len() - 1,
        times[k] < times[k + 1],
        2 * t == times[k] + times[k + 1],
        vec3_sum_even(vals[k], vals[k + 1]),
    ensures
        sample_vec3_spec(times, vals, interp, t) == vec3_avg(vals[k], vals[k + 1]),
{
    lemma_midpoint_bracket(times, t, k);
    let num = factor_num_spec(times, t);
    let den = factor_den_spec(times, t);
    lemma_div_multiples_vanish(num, 2);
    assert(den / 2 == num);
    let a = vals[k];
    let b = vals[k + 1];
    lemma_lerp_int_midpoint(a.x as int, b.x as int, den);
    lemma_lerp_int_midpoint(a.y as int, b.y as int, den);
    lemma_lerp_int_midpoint(a.z as int, b.z as int, den);
}

/// Rotation sampling at the exact midpoint: the raw interpolation is the
/// componentwise mean of the first keyframe and the shortest-arc
/// representative of the second — a positive multiple of the spherical
/// midpoint of the two rotations — and the sampler reports it with the
/// rig-convention correction applied.
pub proof fn lemma_sample_midpoint_quat(
    times: Seq<i64>,
    vals: Seq<QuatFx>,
    interp: Interpolation,
    t: i64,
    k: int,
)
    requires
        times.len() >= 1,
        times_sorted(times),
        vals.len() == times.len(),
        !(interp is Step),
        0 <= k < times.len() - 1,
        times[k] < times[k + 1],
        2 * t == times[k] + times[k + 1],
        quat_sum_even(vals[k], align_quat_spec(vals[k], vals[k + 1])),
    ensures
        sample_quat_spec(times, vals, interp, t) == rot_correct_spec(
            quat_avg(vals[k], align_quat_spec(vals[k], vals[k + 1])),
        ),
{
    lemma_midpoint_bracket(times, t, k);
    let num = factor_num_spec(times, t);
    let den = factor_den_spec(times, t);
    lemma_div_multiples_vanish(num, 2);
    assert(den / 2 == num);
    let a = vals[k];
    let c = align_quat_spec(vals[k], vals[k + 1]);
    lemma_lerp_int_midpoint(a.x as int, c.x as int, den);
    lemma_lerp_int_midpoint(a.y as int, c.y as int, den);
    lemma_lerp_int_midpoint(a.z as int, c.z as int, den);
    lemma_lerp_int_midpoint(a.w as int, c.w as int, den);
}

/// Wraps elapsed playback time into the clip, looping it modulo the
/// duration.
pub fn wrap_time(elapsed: i64, duration: i64) -> (r: i64)
    requires
        0 <= elapsed,
        time_ok(duration),
    ensures
        r == wrap_time_spec(elapsed, duration),
        0 <= r <= TIME_LIMIT,
        duration > 0 ==> r < duration,
        duration == 0 ==> r == 0,
{
    if duration == 0 {
        0
    } else {
        elapsed % duration
    }
}

} // verus!
