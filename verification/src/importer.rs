//! Clip import: turning a decoded animation document into an
//! [`AnimationClip`].
//!
//! The document model holds, as plain values, exactly what the importer
//! reads from a decoded scene file: per animation, the channels with
//! their target node's name, interpolation mode, keyframe times and
//! output values. The caller that owns the real decoder converts into
//! this model at the boundary.

use vstd::math::max;
use vstd::prelude::*;

use crate::bones::{bone_of_name, parse_bone_name};
use crate::clip::{times_sorted, track_wf, AnimationClip, Interpolation, Track, TrackValues};
use crate::math::{quat_ok, time_ok, vec3_ok, QuatFx, Vec3Fx};

verus! {

/// The output values a channel carries; `Unrecognized` stands for any
/// output kind the importer does not handle (it drops the channel).
pub enum ChannelOutputs {
    Translations(Vec<Vec3Fx>),
    Rotations(Vec<QuatFx>),
    Scales(Vec<Vec3Fx>),
    Unrecognized,
}

/// One animation channel of the document: the target node's display
/// name (if the node has one), the declared interpolation, the keyframe
/// times (if the channel has input data) and the output values (if they
/// could be read).
pub struct ChannelDesc {
    pub node_name: Option<String>,
    pub interpolation: Interpolation,
    pub times: Option<Vec<i64>>,
    pub outputs: Option<ChannelOutputs>,
}

/// One animation of the document.
pub struct AnimationDesc {
    pub channels: Vec<ChannelDesc>,
}

/// A decoded animation document.
pub struct AnimationDoc {
    pub animations: Vec<AnimationDesc>,
}

/// Why an import failed. Unrecognized bones and output kinds are not
/// errors — those channels are skipped — but a document without
/// animations, or a mapped channel without keyframe input data, fails
/// the import as a whole.
#[derive(Clone, Copy, PartialEq, Eq, Structural, Debug)]
pub enum ImportError {
    NoAnimation,
    MissingKeyframeInputs,
}

/// How many values a channel's outputs hold; 0 for kinds the importer
/// drops.
pub open spec fn outputs_len(o: ChannelOutputs) -> nat {
    match o {
        ChannelOutputs::Translations(vs) => vs@.len(),
        ChannelOutputs::Rotations(vs) => vs@.len(),
        ChannelOutputs::Scales(vs) => vs@.len(),
        ChannelOutputs::Unrecognized => 0,
    }
}

/// Whether a channel's output components are within the fixed-point
/// limits.
pub open spec fn outputs_ok(o: ChannelOutputs) -> bool {
    match o {
        ChannelOutputs::Translations(vs) => forall|i: int|
            0 <= i < vs@.len() ==> vec3_ok(#[trigger] vs@[i]),
        ChannelOutputs::Rotations(vs) => forall|i: int|
            0 <= i < vs@.len() ==> quat_ok(#[trigger] vs@[i]),
        ChannelOutputs::Scales(vs) => forall|i: int|
            0 <= i < vs@.len() ==> vec3_ok(#[trigger] vs@[i]),
        ChannelOutputs::Unrecognized => true,
    }
}

/// Channel well-formedness, as the interchange format guarantees it:
/// sorted in-range keyframe times, bounded values, one output value per
/// keyframe time.
pub open spec fn channel_wf(c: ChannelDesc) -> bool {
    &&& match c.times {
        Some(ts) => times_sorted(ts@) && forall|i: int|
            0 <= i < ts@.len() ==> time_ok(#[trigger] ts@[i]),
        None => true,
    }
    &&& match c.outputs {
        Some(o) => outputs_ok(o),
        None => true,
    }
    &&& match (c.times, c.outputs) {
        (Some(ts), Some(o)) => !(o is Unrecognized) ==> outputs_len(o) == ts@.len(),
        _ => true,
    }
}

/// Document well-formedness: every channel of the first animation (the
/// only one the importer reads) is well-formed.
pub open spec fn doc_wf(doc: AnimationDoc) -> bool {
    doc.animations@.len() > 0 ==> forall|i: int|
        0 <= i < doc.animations@[0].channels@.len() ==> channel_wf(
            #[trigger] doc.animations@[0].channels@[i],
        )
}

/// A sequence whose adjacent elements are in order is sorted.
proof fn lemma_adjacent_implies_sorted(s: Seq<i64>, i: int, j: int)
    requires
        forall|k: int| 0 <= k < s.len() - 1 ==> #[trigger] s[k] <= s[k + 1],
        0 <= i <= j < s.len(),
    ensures
        s[i] <= s[j],
    decreases j - i,
{
    if i < j {
        lemma_adjacent_implies_sorted(s, i, j - 1);
        assert(s[j - 1] <= s[j]);
    }
}

/// Checks one channel against [`channel_wf`].
fn channel_wf_check(c: &ChannelDesc) -> (r: bool)
    ensures
        r == channel_wf(*c),
{
    let times_ok_flag = match &c.times {
        Some(ts) => {
            let n = ts.len();
            let mut ok = true;
            let mut i: usize = 0;
            while i < n
                invariant
                    0 <= i <= n,
                    n == ts@.len(),
                    ok == ((forall|k: int| 0 <= k < i ==> crate::math::time_ok(#[trigger] ts@[k]))
                        && (forall|k: int|
                        0 <= k < i && k + 1 < n ==> #[trigger] ts@[k] <= ts@[k + 1])),
                decreases n - i,
            {
                let t = ts[i];
                if t < 0 || t > crate::math::TIME_LIMIT {
                    ok = false;
                }
                if i + 1 < n {
                    if ts[i] > ts[i + 1] {
                        ok = false;
                    }
                }
                i = i + 1;
            }
            proof {
                if ok {
                    assert forall|p: int, q: int| 0 <= p <= q < ts@.len() implies ts@[p] <= ts@[q] by {
                        lemma_adjacent_implies_sorted(ts@, p, q);
                    }
                } else {
                    if times_sorted(ts@) && (forall|k: int|
                        0 <= k < ts@.len() ==> time_ok(#[trigger] ts@[k])) {
                        assert(forall|k: int| 0 <= k < ts@.len() - 1 ==> #[trigger] ts@[k] <= ts@[k
                            + 1]);
                    }
                }
            }
            ok
        }
        None => true,
    };
    let outputs_ok_flag = match &c.outputs {
        Some(o) => match o {
            ChannelOutputs::Translations(vs) => vec3s_ok_check(vs),
            ChannelOutputs::Rotations(vs) => quats_ok_check(vs),
            ChannelOutputs::Scales(vs) => vec3s_ok_check(vs),
            ChannelOutputs::Unrecognized => true,
        },
        None => true,
    };
    let len_ok_flag = match (&c.times, &c.outputs) {
        (Some(ts), Some(o)) => match o {
            ChannelOutputs::Translations(vs) => vs.len() == ts.len(),
            ChannelOutputs::Rotations(vs) => vs.len() == ts.len(),
            ChannelOutputs::Scales(vs) => vs.len() == ts.len(),
            ChannelOutputs::Unrecognized => true,
        },
        _ => true,
    };
    times_ok_flag && outputs_ok_flag && len_ok_flag
}

/// Checks that every vector component is within the fixed-point limits.
fn vec3s_ok_check(vs: &Vec<Vec3Fx>) -> (r: bool)
    ensures
        r == forall|i: int| 0 <= i < vs@.len() ==> vec3_ok(#[trigger] vs@[i]),
{
    let n = vs.len();
    let mut i: usize = 0;
    while i < n
        invariant
            0 <= i <= n,
            n == vs@.len(),
            forall|k: int| 0 <= k < i ==> vec3_ok(#[trigger] vs@[k]),
        decreases n - i,
    {
        let v = vs[i];
        if v.x < -crate::math::VAL_LIMIT || v.x > crate::math::VAL_LIMIT || v.y
            < -crate::math::VAL_LIMIT || v.y > crate::math::VAL_LIMIT || v.z
            < -crate::math::VAL_LIMIT || v.z > crate::math::VAL_LIMIT {
            return false;
        }
        i = i + 1;
    }
    true
}

/// Checks that every quaternion component is within the fixed-point
/// limits.
fn quats_ok_check(vs: &Vec<QuatFx>) -> (r: bool)
    ensures
        r == forall|i: int| 0 <= i < vs@.len() ==> quat_ok(#[trigger] vs@[i]),
{
    let n = vs.len();
    let mut i: usize = 0;
    while i < n
        invariant
            0 <= i <= n,
            n == vs@.len(),
            forall|k: int| 0 <= k < i ==> quat_ok(#[trigger] vs@[k]),
        decreases n - i,
    {
        let v = vs[i];
        if v.x < -crate::math::VAL_LIMIT || v.x > crate::math::VAL_LIMIT || v.y
            < -crate::math::VAL_LIMIT || v.y > crate::math::VAL_LIMIT || v.z
            < -crate::math::VAL_LIMIT || v.z > crate::math::VAL_LIMIT || v.w
            < -crate::math::VAL_LIMIT || v.w > crate::math::VAL_LIMIT {
            return false;
        }
        i = i + 1;
    }
    true
}

/// Checks a whole document against [`doc_wf`], so that a caller holding
/// untrusted decoded data can test it before importing.
pub fn doc_wf_check(doc: &AnimationDoc) -> (r: bool)
    ensures
        r == doc_wf(*doc),
{
    if doc.animations.len() == 0 {
        return true;
    }
    let chans = &doc.animations[0].channels;
    let n = chans.len();
    let mut i: usize = 0;
    while i < n
        invariant
            0 <= i <= n,
            doc.animations@.len() > 0,
            n == doc.animations@[0].channels@.len(),
            chans@ == doc.animations@[0].channels@,
            forall|k: int| 0 <= k < i ==> channel_wf(#[trigger] doc.animations@[0].channels@[k]),
        decreases n - i,
    {
        if !channel_wf_check(&chans[i]) {
            return false;
        }
        i = i + 1;
    }
    true
}

/// Whether a channel's target node resolves to a canonical bone.
pub open spec fn channel_maps(c: ChannelDesc) -> bool {
    match c.node_name {
        Some(n) => bone_of_name(n@) is Some,
        None => false,
    }
}

/// A mapped channel without keyframe input data: the malformed-channel
/// case. The chosen policy — documented here — is that one such channel
/// fails the whole clip import with `MissingKeyframeInputs`, rather
/// than dropping just that channel.
pub open spec fn channel_missing_inputs(c: ChannelDesc) -> bool {
    channel_maps(c) && c.times is None
}

/// What a channel contributes to the clip's duration: its last keyframe
/// time, once its node name maps to a bone — even when its outputs are
/// missing or of an unrecognized kind.
pub open spec fn channel_contrib(c: ChannelDesc) -> int {
    if channel_maps(c) {
        match c.times {
            Some(ts) => if ts@.len() > 0 {
                ts@.last() as int
            } else {
                0
            },
            None => 0,
        }
    } else {
        0
    }
}

/// The track a channel yields, if any: its node must name a bone, its
/// times must be present and non-empty, and its outputs must be present
/// and of a recognized kind.
pub open spec fn channel_track(c: ChannelDesc) -> Option<Track> {
    match c.node_name {
        None => None,
        Some(n) => match bone_of_name(n@) {
            None => None,
            Some(bone) => match c.times {
                None => None,
                Some(ts) => if ts@.len() == 0 {
                    None
                } else {
                    match c.outputs {
                        None => None,
                        Some(o) => match o {
                            ChannelOutputs::Translations(vs) => Some(
                                Track {
                                    bone,
                                    times: ts,
                                    values: TrackValues::Translations(vs),
                                    interpolation: c.interpolation,
                                },
                            ),
                            ChannelOutputs::Rotations(vs) => Some(
                                Track {
                                    bone,
                                    times: ts,
                                    values: TrackValues::Rotations(vs),
                                    interpolation: c.interpolation,
                                },
                            ),
                            ChannelOutputs::Scales(vs) => Some(
                                Track {
                                    bone,
                                    times: ts,
                                    values: TrackValues::Scales(vs),
                                    interpolation: c.interpolation,
                                },
                            ),
                            ChannelOutputs::Unrecognized => None,
                        },
                    }
                },
            },
        },
    }
}

/// The tracks of a channel prefix, in channel order.
pub open spec fn tracks_of(chans: Seq<ChannelDesc>) -> Seq<Track>
    decreases chans.len(),
{
    if chans.len() == 0 {
        Seq::empty()
    } else {
        let rest = tracks_of(chans.drop_last());
        match channel_track(chans.last()) {
            Some(t) => rest.push(t),
            None => rest,
        }
    }
}

/// The clip duration of a channel prefix: the maximum last-keyframe
/// time over the mapped channels, 0 with none.
pub open spec fn duration_of(chans: Seq<ChannelDesc>) -> int
    decreases chans.len(),
{
    if chans.len() == 0 {
        0
    } else {
        max(duration_of(chans.drop_last()), channel_contrib(chans.last()))
    }
}

/// One folding step of [`tracks_of`] and [`duration_of`] along a prefix.
proof fn lemma_fold_step(chans: Seq<ChannelDesc>, i: int)
    requires
        0 <= i < chans.len(),
    ensures
        tracks_of(chans.take(i + 1)) == (match channel_track(chans[i]) {
            Some(t) => tracks_of(chans.take(i)).push(t),
            None => tracks_of(chans.take(i)),
        }),
        duration_of(chans.take(i + 1)) == max(duration_of(chans.take(i)), channel_contrib(chans[i])),
{
    assert(chans.take(i + 1).drop_last() =~= chans.take(i));
    assert(chans.take(i + 1).last() == chans[i]);
}

/// Imports the first animation of a decoded document into a clip.
///
/// Channels whose node has no name, whose name maps to no canonical
/// bone, or whose outputs are missing or of an unrecognized kind are
/// skipped; a mapped channel still contributes its last keyframe time
/// to the duration. A document without animations fails with
/// `NoAnimation`; a mapped channel without keyframe input data fails
/// the whole import with `MissingKeyframeInputs` (the documented
/// policy for malformed channels). An import that keeps zero tracks is
/// valid.
pub fn import(doc: AnimationDoc) -> (r: Result<AnimationClip, ImportError>)
    requires
        doc_wf(doc),
    ensures
        (r == Result::<AnimationClip, ImportError>::Err(ImportError::NoAnimation)) <==> doc.animations@.len() == 0,
        doc.animations@.len() > 0 ==> ((r == Result::<AnimationClip, ImportError>::Err(
            ImportError::MissingKeyframeInputs,
        )) <==> exists|j: int|
            0 <= j < doc.animations@[0].channels@.len() && channel_missing_inputs(
                #[trigger] doc.animations@[0].channels@[j],
            )),
        r is Ok || r == Result::<AnimationClip, ImportError>::Err(ImportError::NoAnimation) || r
            == Result::<AnimationClip, ImportError>::Err(ImportError::MissingKeyframeInputs),
        match r {
            Ok(clip) => {
                &&& clip.tracks@ == tracks_of(doc.animations@[0].channels@)
                &&& clip.duration == duration_of(doc.animations@[0].channels@)
                &&& crate::clip::clip_wf(clip)
            },
            Err(_) => true,
        },
{
    let AnimationDoc { mut animations } = doc;
    if animations.len() == 0 {
        return Err(ImportError::NoAnimation);
    }
    let anim = animations.remove(0);
    let AnimationDesc { mut channels } = anim;
    let ghost chans = doc.animations@[0].channels@;
    assert(channels@ == chans);
    assert(chans.subrange(0, chans.len() as int) =~= chans);
    assert(forall|k: int| 0 <= k < chans.len() ==> channel_wf(#[trigger] chans[k]));
    let mut tracks: Vec<Track> = Vec::new();
    let mut duration: i64 = 0;
    let ghost mut i: int = 0;
    assert(chans.take(0) =~= Seq::<ChannelDesc>::empty());
    while channels.len() > 0
        invariant
            doc.animations@.len() > 0,
            chans == doc.animations@[0].channels@,
            0 <= i <= chans.len(),
            channels@ == chans.subrange(i, chans.len() as int),
            forall|k: int| 0 <= k < chans.len() ==> channel_wf(#[trigger] chans[k]),
            forall|k: int| 0 <= k < i ==> !channel_missing_inputs(#[trigger] chans[k]),
            tracks@ == tracks_of(chans.take(i)),
            duration == duration_of(chans.take(i)),
            time_ok(duration),
            forall|k: int| 0 <= k < tracks@.len() ==> track_wf(#[trigger] tracks@[k]),
            forall|k: int| 0 <= k < tracks@.len() ==> (#[trigger] tracks@[k]).times@.last() <= duration,
        decreases channels@.len(),
    {
        let c = channels.remove(0);
        proof {
            assert(c == chans[i]);
            assert(channels@ =~= chans.subrange(i + 1, chans.len() as int));
            lemma_fold_step(chans, i);
        }
        let ChannelDesc { node_name, interpolation, times, outputs } = c;
        match node_name {
            None => {}
            Some(n) => {
                match parse_bone_name(n.as_str()) {
                    None => {}
                    Some(bone) => {
                        match times {
                            None => {
                                proof {
                                    assert(chans[i].node_name == Some(n));
                                    assert(channel_maps(chans[i]));
                                    assert(0 <= i < doc.animations@[0].channels@.len()
                                        && channel_missing_inputs(
                                        doc.animations@[0].channels@[i],
                                    ));
                                }
                                return Err(ImportError::MissingKeyframeInputs);
                            }
                            Some(ts) => {
                                if ts.len() > 0 {
                                    let last = ts[ts.len() - 1];
                                    if last > duration {
                                        duration = last;
                                    }
                                    match outputs {
                                        None => {}
                                        Some(o) => {
                                            match o {
                                                ChannelOutputs::Translations(vs) => {
                                                    tracks.push(
                                                        Track {
                                                            bone,
                                                            times: ts,
                                                            values: TrackValues::Translations(vs),
                                                            interpolation,
                                                        },
                                                    );
                                                }
                                                ChannelOutputs::Rotations(vs) => {
                                                    tracks.push(
                                                        Track {
                                                            bone,
                                                            times: ts,
                                                            values: TrackValues::Rotations(vs),
                                                            interpolation,
                                                        },
                                                    );
                                                }
                                                ChannelOutputs::Scales(vs) => {
                                                    tracks.push(
                                                        Track {
                                                            bone,
                                                            times: ts,
                                                            values: TrackValues::Scales(vs),
                                                            interpolation,
                                                        },
                                                    );
                                                }
                                                ChannelOutputs::Unrecognized => {}
                                            }
                                        }
                                    }
                                }
                            }
                        }
                    }
                }
            }
        }
        proof {
            i = i + 1;
        }
    }
    proof {
        assert(chans.take(chans.len() as int) =~= chans);
    }
    Ok(AnimationClip { duration, tracks })
}

} // verus!
