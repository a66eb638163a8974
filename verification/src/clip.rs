//! The imported animation clip: per-bone keyframe tracks.

use vstd::prelude::*;

use crate::bones::BoneName;
use crate::math::{time_ok, val_ok, vec3_ok, quat_ok, Vec3Fx, QuatFx};

verus! {

/// How a track's value is carried from one keyframe to the next.
/// `CubicSpline` is recognized but deliberately evaluated like `Linear`:
/// full Hermite evaluation is out of scope, and the fallback is the
/// documented policy, not an accident.
#[derive(Clone, Copy, PartialEq, Eq, Structural, Debug)]
pub enum Interpolation {
    Step,
    Linear,
    CubicSpline,
}

/// The keyframe values of one track; a track animates exactly one
/// property of its bone.
#[derive(Clone, PartialEq, Eq, Debug)]
pub enum TrackValues {
    Translations(Vec<Vec3Fx>),
    Rotations(Vec<QuatFx>),
    Scales(Vec<Vec3Fx>),
}

/// One animated property of one bone: keyframe times paired with values.
#[derive(Clone, PartialEq, Eq, Debug)]
pub struct Track {
    pub bone: BoneName,
    pub times: Vec<i64>,
    pub values: TrackValues,
    pub interpolation: Interpolation,
}

/// An imported animation: a duration and the recognized tracks.
#[derive(Clone, PartialEq, Eq, Debug)]
pub struct AnimationClip {
    pub duration: i64,
    pub tracks: Vec<Track>,
}

/// How many keyframe values a `TrackValues` holds.
pub open spec fn values_len(v: TrackValues) -> nat {
    match v {
        TrackValues::Translations(vs) => vs@.len(),
        TrackValues::Rotations(vs) => vs@.len(),
        TrackValues::Scales(vs) => vs@.len(),
    }
}

/// Every keyframe value component is within the fixed-point limits.
pub open spec fn values_ok(v: TrackValues) -> bool {
    match v {
        TrackValues::Translations(vs) => forall|i: int| 0 <= i < vs@.len() ==> vec3_ok(#[trigger] vs@[i]),
        TrackValues::Rotations(vs) => forall|i: int| 0 <= i < vs@.len() ==> quat_ok(#[trigger] vs@[i]),
        TrackValues::Scales(vs) => forall|i: int| 0 <= i < vs@.len() ==> vec3_ok(#[trigger] vs@[i]),
    }
}

/// Keyframe times are non-decreasing.
pub open spec fn times_sorted(times: Seq<i64>) -> bool {
    forall|i: int, j: int| 0 <= i <= j < times.len() ==> times[i] <= times[j]
}

/// Track invariant: at least one keyframe, one value per time, sorted
/// in-range times, bounded values.
pub open spec fn track_wf(t: Track) -> bool {
    &&& t.times@.len() >= 1
    &&& values_len(t.values) == t.times@.len()
    &&& times_sorted(t.times@)
    &&& forall|i: int| 0 <= i < t.times@.len() ==> time_ok(#[trigger] t.times@[i])
    &&& values_ok(t.values)
}

/// Clip invariant: a non-negative in-range duration, no earlier than any
/// track's last keyframe, and well-formed tracks.
pub open spec fn clip_wf(c: AnimationClip) -> bool {
    &&& time_ok(c.duration)
    &&& forall|i: int| 0 <= i < c.tracks@.len() ==> track_wf(#[trigger] c.tracks@[i])
    &&& forall|i: int|
        0 <= i < c.tracks@.len() ==> (#[trigger] c.tracks@[i]).times@.last() <= c.duration
}

/// Whether some track of the clip targets the given bone.
pub open spec fn clip_targets(c: AnimationClip, bone: BoneName) -> bool {
    exists|i: int| 0 <= i < c.tracks@.len() && (#[trigger] c.tracks@[i]).bone == bone
}

/// Exec mirror of [`clip_targets`]: does any track of the clip animate
/// this bone?
pub fn clip_has_bone(c: &AnimationClip, bone: BoneName) -> (r: bool)
    ensures
        r == clip_targets(*c, bone),
{
    let mut i: usize = 0;
    while i < c.tracks.len()
        invariant
            0 <= i <= c.tracks@.len(),
            forall|j: int| 0 <= j < i ==> (#[trigger] c.tracks@[j]).bone != bone,
        decreases c.tracks@.len() - i,
    {
        if c.tracks[i].bone == bone {
            return true;
        }
        i = i + 1;
    }
    false
}

} // verus!
