//! The animation context manager: detects selection changes, drives
//! re-import and rest-pose capture, and applies playback each tick.
//!
//! The manager walks three states. `Empty`: no clip was ever requested;
//! it leaves once a non-empty selection is observed while the skeleton
//! has at least one bone. `Loading`: waiting for the selection's decoded
//! document; when one arrives the import runs, and on success the rest
//! pose is captured and the state becomes `Ready`. `Ready`: the clip is
//! sampled and applied every enabled tick, until the selection changes
//! or a regenerate request re-enters `Loading`. A failed import records
//! its error and keeps the prior clip; the attempt is repeated only
//! after the next selection change or regenerate request, never on an
//! unchanged tick.

use vstd::prelude::*;
use vstd::string::StrSliceExecFns;

use crate::bones::BoneName;
use crate::clip::{clip_targets, clip_wf, AnimationClip};
use crate::importer::{
    channel_missing_inputs, doc_wf, duration_of, import, tracks_of, AnimationDoc, ImportError,
};
use crate::math::Transform;
use crate::pose::{
    apply_pose, capture_rest, lookup_seq, posed_transform, rest_lookup, rest_wf, restore_rest,
    RestPose,
};
use crate::sampler::{wrap_time, wrap_time_spec};

verus! {

/// Where the manager stands in its load cycle.
#[derive(Clone, Copy, PartialEq, Eq, Structural, Debug)]
pub enum CtxState {
    Empty,
    Loading,
    Ready,
}

/// The manager's state: the imported clip (kept across a failed reload
/// for diagnostics), the rest-pose snapshot, the selection the current
/// load cycle refers to, and the last import failure, which blocks
/// retries until the selection or the regenerate flag changes.
pub struct AnimationContext {
    pub state: CtxState,
    pub clip: Option<AnimationClip>,
    pub rest: RestPose,
    pub loaded: String,
    pub last_error: Option<ImportError>,
}

/// Context invariant: a `Ready` manager holds a well-formed clip and a
/// well-formed rest-pose snapshot.
pub open spec fn ctx_wf(ctx: AnimationContext) -> bool {
    &&& match ctx.clip {
        Some(c) => clip_wf(c),
        None => true,
    }
    &&& rest_wf(ctx.rest)
    &&& (ctx.state is Ready ==> ctx.clip is Some)
}

/// Whether a tick in this pre-state, observing this selection and
/// regenerate flag, performs an import as soon as a decoded document is
/// available.
pub open spec fn wants_import(
    ctx: AnimationContext,
    selection: Seq<char>,
    regen: bool,
    skel_nonempty: bool,
) -> bool {
    match ctx.state {
        CtxState::Empty => skel_nonempty && selection.len() > 0,
        CtxState::Loading => selection != ctx.loaded@ || regen || ctx.last_error is None,
        CtxState::Ready => selection != ctx.loaded@ || regen,
    }
}

/// Once a tick has imported a selection successfully the manager is
/// `Ready` with that selection recorded, and a later tick that observes
/// the same selection without a regenerate request wants no import:
/// repeated ticks with an unchanged selection re-import nothing.
pub proof fn lemma_no_reimport_when_settled(
    ctx: AnimationContext,
    selection: Seq<char>,
    skel_nonempty: bool,
)
    requires
        ctx.state is Ready,
        ctx.loaded@ == selection,
    ensures
        !wants_import(ctx, selection, false, skel_nonempty),
{
}

/// What one tick reports: whether it re-imported the clip, re-captured
/// the rest pose, sampled and applied the clip, restored the rest pose
/// (disabled playback), and the import error if the attempt failed.
#[derive(Clone, Copy, PartialEq, Eq, Structural, Debug)]
pub struct TickReport {
    pub reimported: bool,
    pub recaptured: bool,
    pub sampled: bool,
    pub restored: bool,
    pub error: Option<ImportError>,
}

impl AnimationContext {
    /// A fresh manager: no clip loaded, empty rest pose.
    pub fn new() -> (r: AnimationContext)
        ensures
            ctx_wf(r),
            r.state is Empty,
            r.clip is None,
            r.last_error is None,
            forall|b: BoneName| #[trigger] rest_lookup(r.rest, b) is None,
    {
        AnimationContext {
            state: CtxState::Empty,
            clip: None,
            rest: RestPose::empty(),
            loaded: String::new(),
            last_error: None,
        }
    }
}

/// What a dropped file stands for: an animation clip to play, or a
/// model to load.
#[derive(Clone, Copy, PartialEq, Eq, Structural, Debug)]
pub enum DroppedKind {
    Animation,
    Model,
}

/// Whether a file name carries the animation-clip suffix `.vrma`.
pub open spec fn has_vrma_suffix(s: Seq<char>) -> bool {
    s.len() >= 5 && s[s.len() - 5] == '.' && s[s.len() - 4] == 'v' && s[s.len() - 3] == 'r' && s[s.len()
        - 2] == 'm' && s[s.len() - 1] == 'a'
}

/// Classifies a dropped file by its name: a `.vrma` file is a new clip
/// selection, anything else a new model.
pub fn classify_dropped_file(name: &str) -> (r: DroppedKind)
    ensures
        r == (if has_vrma_suffix(name@) {
            DroppedKind::Animation
        } else {
            DroppedKind::Model
        }),
{
    let n = name.unicode_len();
    if n < 5 {
        return DroppedKind::Model;
    }
    if name.get_char(n - 5) == '.' && name.get_char(n - 4) == 'v' && name.get_char(n - 3) == 'r'
        && name.get_char(n - 2) == 'm' && name.get_char(n - 1) == 'a' {
        DroppedKind::Animation
    } else {
        DroppedKind::Model
    }
}

/// One tick of VRM animation playback on the humanoid bones.
///
/// `selection` names the active clip and `doc` carries its decoded
/// document once the asset pipeline has finished with it; `regen` is
/// the explicit regenerate request, consumed by the import attempt it
/// triggers. With playback disabled the tick samples nothing and
/// restores every bone that has rest-pose data to its rest transform.
pub fn move_leg(
    ctx: &mut AnimationContext,
    selection: &String,
    enabled: bool,
    regen: &mut bool,
    doc: Option<AnimationDoc>,
    elapsed: i64,
    skeleton: &mut Vec<(BoneName, Transform)>,
) -> (r: TickReport)
    requires
        ctx_wf(*old(ctx)),
        match doc {
            Some(d) => doc_wf(d),
            None => true,
        },
        0 <= elapsed,
    ensures
        ctx_wf(*final(ctx)),
        // an import happens exactly when the pre-state asks for one and a
        // decoded document is at hand
        r.reimported == (doc is Some && wants_import(
            *old(ctx),
            selection@,
            *old(regen),
            old(skeleton)@.len() > 0,
        )),
        // the rest pose is re-captured exactly by a successful import
        r.recaptured == (r.reimported && r.error is None),
        // the regenerate request is consumed by the attempt it triggers
        *final(regen) == (*old(regen) && !r.reimported),
        // a settled Ready manager is left untouched
        old(ctx).state is Ready && selection@ == old(ctx).loaded@ && !*old(regen) ==> *final(ctx)
            == *old(ctx) && !r.reimported,
        // a failed selection is not retried on an unchanged tick
        old(ctx).state is Loading && old(ctx).last_error is Some && selection@ == old(
            ctx,
        ).loaded@ && !*old(regen) ==> *final(ctx) == *old(ctx) && !r.reimported,
        // an Empty manager waits for a selection and a skeleton
        old(ctx).state is Empty && (selection@.len() == 0 || old(skeleton)@.len() == 0)
            ==> final(ctx).state is Empty,
        // what the import attempt decided, when one ran
        r.reimported ==> match doc {
            Some(d) => {
                &&& (r.error == Some(ImportError::NoAnimation) <==> d.animations@.len() == 0)
                &&& d.animations@.len() > 0 ==> (r.error == Some(ImportError::MissingKeyframeInputs)
                    <==> exists|j: int|
                    0 <= j < d.animations@[0].channels@.len() && channel_missing_inputs(
                        #[trigger] d.animations@[0].channels@[j],
                    ))
                &&& r.error is None ==> {
                    &&& final(ctx).state is Ready
                    &&& final(ctx).loaded@ == selection@
                    &&& final(ctx).last_error is None
                    &&& match final(ctx).clip {
                        Some(c) => {
                            &&& c.tracks@ == tracks_of(d.animations@[0].channels@)
                            &&& c.duration == duration_of(d.animations@[0].channels@)
                            &&& forall|b: BoneName|
                                #[trigger] rest_lookup(final(ctx).rest, b) == (if clip_targets(
                                    c,
                                    b,
                                ) {
                                    lookup_seq(old(skeleton)@, b)
                                } else {
                                    None::<Transform>
                                })
                        },
                        None => false,
                    }
                }
            },
            None => false,
        },
        // a failed import keeps the prior clip and rest pose, records the
        // error and stays in Loading
        r.error is Some ==> final(ctx).state is Loading && final(ctx).clip == old(ctx).clip
            && final(ctx).rest == old(ctx).rest && final(ctx).last_error == r.error,
        // disabled playback restores the rest pose within the same tick
        r.restored == !enabled,
        !enabled ==> !r.sampled && final(skeleton)@.len() == old(skeleton)@.len() && forall|k: int|
            0 <= k < old(skeleton)@.len() ==> #[trigger] final(skeleton)@[k] == (
            old(skeleton)@[k].0,
            match rest_lookup(final(ctx).rest, old(skeleton)@[k].0) {
                Some(tr) => tr,
                None => old(skeleton)@[k].1,
            },
            ),
        // enabled playback on a Ready manager samples at the wrapped time
        // and applies the pose
        r.sampled == (enabled && final(ctx).state is Ready),
        enabled && final(ctx).state is Ready ==> match final(ctx).clip {
            Some(c) => final(skeleton)@.len() == old(skeleton)@.len() && forall|k: int|
                0 <= k < old(skeleton)@.len() ==> #[trigger] final(skeleton)@[k] == (
                old(skeleton)@[k].0,
                posed_transform(
                    c,
                    final(ctx).rest,
                    old(skeleton)@[k].0,
                    wrap_time_spec(elapsed, c.duration),
                    old(skeleton)@[k].1,
                ),
                ),
            None => false,
        },
        // otherwise the tick leaves the skeleton alone
        enabled && !(final(ctx).state is Ready) ==> final(skeleton)@ == old(skeleton)@,
{
    let mut report = TickReport {
        reimported: false,
        recaptured: false,
        sampled: false,
        restored: false,
        error: None,
    };
    match ctx.state {
        CtxState::Empty => {
            if !selection.as_str().is_empty() && skeleton.len() > 0 {
                ctx.state = CtxState::Loading;
                ctx.loaded = selection.clone();
                ctx.last_error = None;
            }
        }
        _ => {
            if !crate::bones::str_eq(selection.as_str(), ctx.loaded.as_str()) || *regen {
                ctx.state = CtxState::Loading;
                ctx.loaded = selection.clone();
                ctx.last_error = None;
            }
        }
    }
    let attempt = match ctx.state {
        CtxState::Loading => ctx.last_error.is_none(),
        _ => false,
    };
    if attempt {
        match doc {
            Some(d) => {
                *regen = false;
                report.reimported = true;
                match import(d) {
                    Ok(clip) => {
                        ctx.rest = capture_rest(skeleton, &clip);
                        ctx.clip = Some(clip);
                        ctx.state = CtxState::Ready;
                        ctx.last_error = None;
                        report.recaptured = true;
                    }
                    Err(e) => {
                        ctx.last_error = Some(e);
                        report.error = Some(e);
                    }
                }
            }
            None => {}
        }
    }
    if !enabled {
        restore_rest(skeleton, &ctx.rest);
        report.restored = true;
    } else {
        match ctx.state {
            CtxState::Ready => {
                match &ctx.clip {
                    Some(clip) => {
                        let t = wrap_time(elapsed, clip.duration);
                        apply_pose(skeleton, clip, &ctx.rest, t);
                        report.sampled = true;
                    }
                    None => {}
                }
            }
            _ => {}
        }
    }
    report
}

} // verus!
