//! The rest-pose snapshot and the pose applier.
//!
//! The skeleton is handed in as a sequence of `(bone, transform)` pairs
//! owned by the scene framework; the applier first resets every bone
//! that has rest-pose data to its recorded rest transform, then lets
//! each of the bone's tracks overwrite its own transform channel.

use vstd::pervasive::VecAdditionalExecFns;
use vstd::prelude::*;

use crate::bones::BoneName;
use crate::clip::{clip_targets, clip_wf, AnimationClip, Track};
use crate::math::{Transform, TIME_LIMIT};
use crate::sampler::{sample_track, sample_track_spec, SampledValue};

verus! {

/// First match, from the front, of a bone in a `(bone, transform)`
/// sequence.
pub open spec fn lookup_seq(s: Seq<(BoneName, Transform)>, bone: BoneName) -> Option<Transform>
    decreases s.len(),
{
    if s.len() == 0 {
        None
    } else if s[0].0 == bone {
        Some(s[0].1)
    } else {
        lookup_seq(s.drop_first(), bone)
    }
}

/// Skipping a prefix without a match leaves the lookup unchanged.
proof fn lemma_lookup_skip(s: Seq<(BoneName, Transform)>, bone: BoneName, i: int)
    requires
        0 <= i <= s.len(),
        forall|k: int| 0 <= k < i ==> (#[trigger] s[k]).0 != bone,
    ensures
        lookup_seq(s, bone) == lookup_seq(s.skip(i), bone),
    decreases i,
{
    if i == 0 {
        assert(s.skip(0) =~= s);
    } else {
        lemma_lookup_skip(s, bone, i - 1);
        assert(s.skip(i - 1).len() > 0);
        assert(s.skip(i - 1)[0] == s[i - 1]);
        assert(s.skip(i - 1).drop_first() =~= s.skip(i));
    }
}

/// A front-first lookup succeeds exactly when some entry carries the
/// bone.
proof fn lemma_lookup_some_iff(s: Seq<(BoneName, Transform)>, bone: BoneName)
    ensures
        (lookup_seq(s, bone) is Some) <==> exists|k: int|
            0 <= k < s.len() && (#[trigger] s[k]).0 == bone,
    decreases s.len(),
{
    if s.len() > 0 {
        lemma_lookup_some_iff(s.drop_first(), bone);
        if s[0].0 == bone {
        } else {
            assert forall|k: int| 0 <= k < s.len() && (#[trigger] s[k]).0 == bone implies (
            lookup_seq(s, bone) is Some) by {
                assert(s.drop_first()[k - 1] == s[k]);
            }
            if exists|k: int| 0 <= k < s.drop_first().len() && (#[trigger] s.drop_first()[k]).0
                == bone {
                let k = choose|k: int|
                    0 <= k < s.drop_first().len() && (#[trigger] s.drop_first()[k]).0 == bone;
                assert(s[k + 1] == s.drop_first()[k]);
            }
        }
    }
}

/// What appending one entry does to a front-first lookup: an already
/// resolved bone keeps its value; otherwise the new entry answers for
/// its own bone.
proof fn lemma_lookup_push(s: Seq<(BoneName, Transform)>, e: (BoneName, Transform), bone: BoneName)
    ensures
        lookup_seq(s.push(e), bone) == (match lookup_seq(s, bone) {
            Some(tr) => Some(tr),
            None => if e.0 == bone {
                Some(e.1)
            } else {
                None
            },
        }),
    decreases s.len(),
{
    if s.len() == 0 {
        assert(s.push(e)[0] == e);
        assert(s.push(e).drop_first() =~= Seq::<(BoneName, Transform)>::empty());
        if e.0 == bone {
            assert(lookup_seq(s.push(e), bone) == Some(e.1));
        } else {
            assert(lookup_seq(s.push(e), bone) == lookup_seq(s.push(e).drop_first(), bone));
            assert(lookup_seq(s.push(e), bone) is None);
        }
    } else {
        assert(s.push(e).len() == s.len() + 1);
        assert(s.push(e)[0] == s[0]);
        if s[0].0 == bone {
            assert(lookup_seq(s.push(e), bone) == Some(s[0].1));
            assert(lookup_seq(s, bone) == Some(s[0].1));
        } else {
            assert(s.push(e).drop_first() =~= s.drop_first().push(e));
            lemma_lookup_push(s.drop_first(), e, bone);
            assert(lookup_seq(s.push(e), bone) == lookup_seq(s.drop_first().push(e), bone));
            assert(lookup_seq(s, bone) == lookup_seq(s.drop_first(), bone));
        }
    }
}

/// The rest-pose snapshot: the transform each tracked bone had when the
/// clip was (re)loaded. One entry per bone.
pub struct RestPose {
    pub entries: Vec<(BoneName, Transform)>,
}

/// At most one entry per bone.
pub open spec fn rest_wf(r: RestPose) -> bool {
    forall|i: int, j: int|
        0 <= i < j < r.entries@.len() ==> (#[trigger] r.entries@[i]).0 != (
        #[trigger] r.entries@[j]).0
}

/// The rest transform recorded for a bone, if any.
pub open spec fn rest_lookup(r: RestPose, bone: BoneName) -> Option<Transform> {
    lookup_seq(r.entries@, bone)
}

impl RestPose {
    /// An empty snapshot: no bone has rest-pose data.
    pub fn empty() -> (r: RestPose)
        ensures
            rest_wf(r),
            forall|b: BoneName| #[trigger] rest_lookup(r, b) is None,
    {
        RestPose { entries: Vec::new() }
    }

    /// The rest transform recorded for `bone`, if any.
    pub fn get(&self, bone: BoneName) -> (r: Option<Transform>)
        ensures
            r == rest_lookup(*self, bone),
    {
        let n = self.entries.len();
        let mut i: usize = 0;
        while i < n
            invariant
                0 <= i <= n,
                n == self.entries@.len(),
                forall|k: int| 0 <= k < i ==> (#[trigger] self.entries@[k]).0 != bone,
            decreases n - i,
        {
            let (b, tr) = self.entries[i];
            if b == bone {
                proof {
                    lemma_lookup_skip(self.entries@, bone, i as int);
                    assert(self.entries@.skip(i as int)[0] == self.entries@[i as int]);
                }
                return Some(tr);
            }
            i = i + 1;
        }
        proof {
            lemma_lookup_skip(self.entries@, bone, n as int);
            assert(self.entries@.skip(n as int) =~= Seq::<(BoneName, Transform)>::empty());
        }
        None
    }
}

/// Captures the rest pose for a clip: the first skeleton entry of every
/// bone that at least one track targets. Bones without tracks get no
/// entry; bones absent from the skeleton get no entry.
pub fn capture_rest(skeleton: &Vec<(BoneName, Transform)>, clip: &AnimationClip) -> (r: RestPose)
    ensures
        rest_wf(r),
        forall|b: BoneName|
            #[trigger] rest_lookup(r, b) == (if clip_targets(*clip, b) {
                lookup_seq(skeleton@, b)
            } else {
                None::<Transform>
            }),
{
    let n = skeleton.len();
    let mut rest = RestPose { entries: Vec::new() };
    let mut i: usize = 0;
    while i < n
        invariant
            0 <= i <= n,
            n == skeleton@.len(),
            rest_wf(rest),
            forall|b: BoneName|
                #[trigger] rest_lookup(rest, b) == (if clip_targets(*clip, b) {
                    lookup_seq(skeleton@.take(i as int), b)
                } else {
                    None::<Transform>
                }),
        decreases n - i,
    {
        let e = skeleton[i];
        let ghost prev = rest;
        let targeted = crate::clip::clip_has_bone(clip, e.0);
        let mut inserted = false;
        if targeted {
            if rest.get(e.0).is_none() {
                rest.entries.push(e);
                inserted = true;
            }
        }
        proof {
            assert(skeleton@.take(i + 1) =~= skeleton@.take(i as int).push(skeleton@[i as int]));
            assert forall|b: BoneName|
                #[trigger] rest_lookup(rest, b) == (if clip_targets(*clip, b) {
                    lookup_seq(skeleton@.take(i + 1), b)
                } else {
                    None::<Transform>
                }) by {
                assert(rest_lookup(prev, b) == lookup_seq(prev.entries@, b));
                lemma_lookup_push(skeleton@.take(i as int), skeleton@[i as int], b);
                if inserted {
                    lemma_lookup_push(prev.entries@, e, b);
                }
            }
            if inserted {
                assert forall|p: int, q: int|
                    0 <= p < q < rest.entries@.len() implies (#[trigger] rest.entries@[p]).0 != (
                #[trigger] rest.entries@[q]).0 by {
                    if q == rest.entries@.len() - 1 {
                        assert(rest.entries@[q] == e);
                        assert(rest.entries@[p] == prev.entries@[p]);
                        if prev.entries@[p].0 == e.0 {
                            lemma_lookup_some_iff(prev.entries@, e.0);
                        }
                    }
                }
            }
        }
        i = i + 1;
    }
    proof {
        assert(skeleton@.take(n as int) =~= skeleton@);
    }
    rest
}

/// Restores every bone that has rest-pose data to its rest transform;
/// bones without rest data keep their current transform.
pub fn restore_rest(skeleton: &mut Vec<(BoneName, Transform)>, rest: &RestPose)
    ensures
        final(skeleton)@.len() == old(skeleton)@.len(),
        forall|k: int|
            0 <= k < old(skeleton)@.len() ==> #[trigger] final(skeleton)@[k] == (
            old(skeleton)@[k].0,
            match rest_lookup(*rest, old(skeleton)@[k].0) {
                Some(tr) => tr,
                None => old(skeleton)@[k].1,
            },
            ),
{
    let n = skeleton.len();
    let mut i: usize = 0;
    while i < n
        invariant
            0 <= i <= n,
            n == skeleton@.len(),
            skeleton@.len() == old(skeleton)@.len(),
            forall|k: int| i <= k < n ==> #[trigger] skeleton@[k] == old(skeleton)@[k],
            forall|k: int|
                0 <= k < i ==> #[trigger] skeleton@[k] == (
                old(skeleton)@[k].0,
                match rest_lookup(*rest, old(skeleton)@[k].0) {
                    Some(tr) => tr,
                    None => old(skeleton)@[k].1,
                },
                ),
        decreases n - i,
    {
        let (bone, tr) = skeleton[i];
        match rest.get(bone) {
            Some(rest_tr) => {
                skeleton.set(i, (bone, rest_tr));
            }
            None => {}
        }
        i = i + 1;
    }
}

/// One track's write onto a transform: the sampled value overwrites the
/// channel the track animates, leaving the other channels alone.
pub open spec fn apply_track_to(tr: Transform, track: Track, t: i64) -> Transform {
    match sample_track_spec(track, t) {
        SampledValue::Translation(v) => Transform {
            translation: v,
            rotation: tr.rotation,
            scale: tr.scale,
        },
        SampledValue::Rotation(q) => Transform {
            translation: tr.translation,
            rotation: q,
            scale: tr.scale,
        },
        SampledValue::Scale(v) => Transform {
            translation: tr.translation,
            rotation: tr.rotation,
            scale: v,
        },
    }
}

/// The writes of every track of `bone`, folded in track order over a
/// starting transform: each track overwrites its own channel, so later
/// tracks win only on the channel they share.
pub open spec fn apply_tracks_spec(
    tracks: Seq<Track>,
    bone: BoneName,
    t: i64,
    start: Transform,
) -> Transform
    decreases tracks.len(),
{
    if tracks.len() == 0 {
        start
    } else {
        let prev = apply_tracks_spec(tracks.drop_last(), bone, t, start);
        if tracks.last().bone == bone {
            apply_track_to(prev, tracks.last(), t)
        } else {
            prev
        }
    }
}

/// The pose a bone ends the tick in: its rest transform (or, without
/// rest data, its current transform) overwritten by each of its tracks'
/// sampled values.
pub open spec fn posed_transform(
    clip: AnimationClip,
    rest: RestPose,
    bone: BoneName,
    t: i64,
    current: Transform,
) -> Transform {
    let base = match rest_lookup(rest, bone) {
        Some(tr) => tr,
        None => current,
    };
    apply_tracks_spec(clip.tracks@, bone, t, base)
}

/// Applies the clip to the skeleton at wrapped playback time `t`: every
/// bone is first reset to its rest pose, then each of its tracks writes
/// its sampled value onto its own transform channel.
pub fn apply_pose(
    skeleton: &mut Vec<(BoneName, Transform)>,
    clip: &AnimationClip,
    rest: &RestPose,
    t: i64,
)
    requires
        clip_wf(*clip),
        0 <= t <= TIME_LIMIT,
    ensures
        final(skeleton)@.len() == old(skeleton)@.len(),
        forall|k: int|
            0 <= k < old(skeleton)@.len() ==> #[trigger] final(skeleton)@[k] == (
            old(skeleton)@[k].0,
            posed_transform(*clip, *rest, old(skeleton)@[k].0, t, old(skeleton)@[k].1),
            ),
{
    let n = skeleton.len();
    let mut i: usize = 0;
    while i < n
        invariant
            0 <= i <= n,
            n == skeleton@.len(),
            skeleton@.len() == old(skeleton)@.len(),
            clip_wf(*clip),
            0 <= t <= TIME_LIMIT,
            forall|k: int| i <= k < n ==> #[trigger] skeleton@[k] == old(skeleton)@[k],
            forall|k: int|
                0 <= k < i ==> #[trigger] skeleton@[k] == (
                old(skeleton)@[k].0,
                posed_transform(*clip, *rest, old(skeleton)@[k].0, t, old(skeleton)@[k].1),
                ),
        decreases n - i,
    {
        let (bone, current) = skeleton[i];
        let mut tr = match rest.get(bone) {
            Some(rest_tr) => rest_tr,
            None => current,
        };
        let ghost base = tr;
        proof {
            assert(clip.tracks@.take(0) =~= Seq::<Track>::empty());
        }
        let m = clip.tracks.len();
        let mut j: usize = 0;
        while j < m
            invariant
                0 <= j <= m,
                m == clip.tracks@.len(),
                clip_wf(*clip),
                0 <= t <= TIME_LIMIT,
                tr == apply_tracks_spec(clip.tracks@.take(j as int), bone, t, base),
            decreases m - j,
        {
            proof {
                assert(clip.tracks@.take(j + 1).drop_last() =~= clip.tracks@.take(j as int));
                assert(clip.tracks@.take(j + 1).last() == clip.tracks@[j as int]);
            }
            let track = &clip.tracks[j];
            if track.bone == bone {
                let sampled = sample_track(track, t);
                match sampled {
                    SampledValue::Translation(v) => {
                        tr = Transform { translation: v, rotation: tr.rotation, scale: tr.scale };
                    }
                    SampledValue::Rotation(q) => {
                        tr = Transform { translation: tr.translation, rotation: q, scale: tr.scale };
                    }
                    SampledValue::Scale(v) => {
                        tr = Transform { translation: tr.translation, rotation: tr.rotation, scale: v };
                    }
                }
            }
            j = j + 1;
        }
        proof {
            assert(clip.tracks@.take(m as int) =~= clip.tracks@);
        }
        skeleton.set(i, (bone, tr));
        i = i + 1;
    }
}

} // verus!
