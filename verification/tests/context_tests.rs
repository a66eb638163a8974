use vrm_anim::bones::BoneName;
use vrm_anim::clip::Interpolation;
use vrm_anim::context::{
    classify_dropped_file, move_leg, AnimationContext, CtxState, DroppedKind,
};
use vrm_anim::importer::{
    import, AnimationDesc, AnimationDoc, ChannelDesc, ChannelOutputs, ImportError,
};
use vrm_anim::math::{QuatFx, Transform, Vec3Fx, SCALE};
use vrm_anim::pose::{apply_pose, capture_rest, restore_rest};

fn v(x: i64, y: i64, z: i64) -> Vec3Fx {
    Vec3Fx { x, y, z }
}

fn identity() -> Transform {
    Transform {
        translation: v(0, 0, 0),
        rotation: QuatFx { x: 0, y: 0, z: 0, w: SCALE },
        scale: v(SCALE, SCALE, SCALE),
    }
}

fn hips_doc() -> AnimationDoc {
    // One Linear translation track on Hips: t=0 -> (0,0,0), t=1 -> (0,1,0).
    AnimationDoc {
        animations: vec![AnimationDesc {
            channels: vec![ChannelDesc {
                node_name: Some("Hips".to_string()),
                interpolation: Interpolation::Linear,
                times: Some(vec![0, SCALE]),
                outputs: Some(ChannelOutputs::Translations(vec![v(0, 0, 0), v(0, SCALE, 0)])),
            }],
        }],
    }
}

fn empty_doc() -> AnimationDoc {
    AnimationDoc { animations: vec![] }
}

#[test]
fn end_to_end_hips_clip_midpoint_and_wrap() {
    let mut ctx = AnimationContext::new();
    let selection = "handDance.vrma".to_string();
    let mut regen = false;
    let mut skeleton = vec![(BoneName::Hips, identity())];

    // First tick: import, capture, sample at t = 0.5 -> (0, 0.5, 0).
    let r = move_leg(
        &mut ctx,
        &selection,
        true,
        &mut regen,
        Some(hips_doc()),
        SCALE / 2,
        &mut skeleton,
    );
    assert!(r.reimported && r.recaptured && r.sampled && r.error.is_none());
    assert!(ctx.state == CtxState::Ready);
    assert!(skeleton[0].1.translation == v(0, SCALE / 2, 0));

    // Second tick: t = 1.5 wraps to 0.5 -> the same pose, no reimport.
    let r2 = move_leg(
        &mut ctx,
        &selection,
        true,
        &mut regen,
        None,
        SCALE + SCALE / 2,
        &mut skeleton,
    );
    assert!(!r2.reimported && !r2.recaptured && r2.sampled);
    assert!(skeleton[0].1.translation == v(0, SCALE / 2, 0));
}

#[test]
fn unchanged_selection_triggers_zero_reimports() {
    let mut ctx = AnimationContext::new();
    let selection = "clip.vrma".to_string();
    let mut regen = false;
    let mut skeleton = vec![(BoneName::Hips, identity())];
    let mut imports = 0;
    for tick in 0..5 {
        let doc = if tick == 0 { Some(hips_doc()) } else { None };
        let r = move_leg(&mut ctx, &selection, true, &mut regen, doc, 0, &mut skeleton);
        if r.reimported {
            imports += 1;
        }
    }
    assert_eq!(imports, 1);
}

#[test]
fn selection_change_triggers_exactly_one_reimport_and_recapture() {
    let mut ctx = AnimationContext::new();
    let first = "a.vrma".to_string();
    let second = "b.vrma".to_string();
    let mut regen = false;
    let mut skeleton = vec![(BoneName::Hips, identity())];
    let r = move_leg(&mut ctx, &first, true, &mut regen, Some(hips_doc()), 0, &mut skeleton);
    assert!(r.reimported && r.recaptured);
    let mut imports = 0;
    let mut captures = 0;
    for tick in 0..4 {
        let doc = if tick == 0 { Some(hips_doc()) } else { None };
        let r = move_leg(&mut ctx, &second, true, &mut regen, doc, 0, &mut skeleton);
        if r.reimported {
            imports += 1;
        }
        if r.recaptured {
            captures += 1;
        }
    }
    assert_eq!(imports, 1);
    assert_eq!(captures, 1);
}

#[test]
fn regen_flag_forces_one_reimport_and_is_consumed() {
    let mut ctx = AnimationContext::new();
    let selection = "clip.vrma".to_string();
    let mut regen = false;
    let mut skeleton = vec![(BoneName::Hips, identity())];
    move_leg(&mut ctx, &selection, true, &mut regen, Some(hips_doc()), 0, &mut skeleton);
    regen = true;
    let r = move_leg(&mut ctx, &selection, true, &mut regen, Some(hips_doc()), 0, &mut skeleton);
    assert!(r.reimported);
    assert!(!regen);
    let r2 = move_leg(&mut ctx, &selection, true, &mut regen, Some(hips_doc()), 0, &mut skeleton);
    assert!(!r2.reimported);
}

#[test]
fn disabling_playback_restores_rest_pose_same_tick() {
    let mut ctx = AnimationContext::new();
    let selection = "clip.vrma".to_string();
    let mut regen = false;
    let mut skeleton = vec![(BoneName::Hips, identity()), (BoneName::Spine, identity())];
    // Import and pose the skeleton away from rest.
    move_leg(&mut ctx, &selection, true, &mut regen, Some(hips_doc()), SCALE / 2, &mut skeleton);
    assert!(skeleton[0].1.translation == v(0, SCALE / 2, 0));
    // Disable: the tracked bone snaps back to its exact rest transform.
    let r = move_leg(&mut ctx, &selection, false, &mut regen, None, SCALE / 2, &mut skeleton);
    assert!(r.restored && !r.sampled);
    assert!(skeleton[0].1 == identity());
    // The untracked bone is untouched either way.
    assert!(skeleton[1].1 == identity());
}

#[test]
fn no_animation_failure_stays_loading_and_survives_ticks() {
    let mut ctx = AnimationContext::new();
    let selection = "broken.vrma".to_string();
    let mut regen = false;
    let mut skeleton = vec![(BoneName::Hips, identity())];
    let r = move_leg(&mut ctx, &selection, true, &mut regen, Some(empty_doc()), 0, &mut skeleton);
    assert!(r.reimported && !r.recaptured);
    assert!(r.error == Some(ImportError::NoAnimation));
    assert!(ctx.state == CtxState::Loading);
    // Later ticks do not retry and do not crash.
    for _ in 0..3 {
        let r = move_leg(&mut ctx, &selection, true, &mut regen, Some(empty_doc()), 0, &mut skeleton);
        assert!(!r.reimported);
        assert!(ctx.state == CtxState::Loading);
    }
}

#[test]
fn failed_reload_keeps_prior_clip() {
    let mut ctx = AnimationContext::new();
    let first = "good.vrma".to_string();
    let second = "bad.vrma".to_string();
    let mut regen = false;
    let mut skeleton = vec![(BoneName::Hips, identity())];
    move_leg(&mut ctx, &first, true, &mut regen, Some(hips_doc()), 0, &mut skeleton);
    let prior = ctx.clip.clone();
    assert!(prior.is_some());
    let r = move_leg(&mut ctx, &second, true, &mut regen, Some(empty_doc()), 0, &mut skeleton);
    assert!(r.error == Some(ImportError::NoAnimation));
    assert!(ctx.clip == prior);
    assert!(ctx.state == CtxState::Loading);
}

#[test]
fn empty_manager_waits_for_selection_and_skeleton() {
    let mut ctx = AnimationContext::new();
    let empty_selection = String::new();
    let selection = "clip.vrma".to_string();
    let mut regen = false;
    let mut skeleton: Vec<(BoneName, Transform)> = vec![];
    // No selection: stays Empty.
    let r = move_leg(&mut ctx, &empty_selection, true, &mut regen, Some(hips_doc()), 0, &mut skeleton);
    assert!(!r.reimported && ctx.state == CtxState::Empty);
    // Selection but no bones yet: stays Empty.
    let r = move_leg(&mut ctx, &selection, true, &mut regen, Some(hips_doc()), 0, &mut skeleton);
    assert!(!r.reimported && ctx.state == CtxState::Empty);
    // Bones appear: the same tick loads and imports.
    skeleton.push((BoneName::Hips, identity()));
    let r = move_leg(&mut ctx, &selection, true, &mut regen, Some(hips_doc()), 0, &mut skeleton);
    assert!(r.reimported && ctx.state == CtxState::Ready);
}

#[test]
fn capture_and_restore_cover_tracked_bones_only() {
    let doc = hips_doc();
    let clip = import(doc).unwrap();
    let spine_pose = Transform {
        translation: v(9, 9, 9),
        rotation: QuatFx { x: 0, y: 0, z: 0, w: SCALE },
        scale: v(SCALE, SCALE, SCALE),
    };
    let skeleton = vec![(BoneName::Hips, identity()), (BoneName::Spine, spine_pose)];
    let rest = capture_rest(&skeleton, &clip);
    assert!(rest.get(BoneName::Hips) == Some(identity()));
    assert!(rest.get(BoneName::Spine) == None);
    // Scramble the skeleton, then restore: only Hips comes back.
    let scrambled = Transform {
        translation: v(1, 1, 1),
        rotation: QuatFx { x: 0, y: 0, z: 0, w: SCALE },
        scale: v(SCALE, SCALE, SCALE),
    };
    let mut live = vec![(BoneName::Hips, scrambled), (BoneName::Spine, scrambled)];
    restore_rest(&mut live, &rest);
    assert!(live[0].1 == identity());
    assert!(live[1].1 == scrambled);
}

#[test]
fn multiple_tracks_on_one_bone_each_write_their_channel() {
    // A translation track and a rotation track on Hips compose.
    let doc = AnimationDoc {
        animations: vec![AnimationDesc {
            channels: vec![
                ChannelDesc {
                    node_name: Some("Hips".to_string()),
                    interpolation: Interpolation::Step,
                    times: Some(vec![0]),
                    outputs: Some(ChannelOutputs::Translations(vec![v(1, 2, 3)])),
                },
                ChannelDesc {
                    node_name: Some("Hips".to_string()),
                    interpolation: Interpolation::Step,
                    times: Some(vec![0]),
                    outputs: Some(ChannelOutputs::Rotations(vec![QuatFx {
                        x: 0,
                        y: 0,
                        z: 0,
                        w: SCALE,
                    }])),
                },
            ],
        }],
    };
    let clip = import(doc).unwrap();
    let skeleton = vec![(BoneName::Hips, identity())];
    let rest = capture_rest(&skeleton, &clip);
    let mut live = skeleton.clone();
    apply_pose(&mut live, &clip, &rest, 0);
    assert!(live[0].1.translation == v(1, 2, 3));
    // The rotation channel carries the rig-convention correction.
    assert!(live[0].1.rotation == QuatFx { x: 0, y: 0, z: 0, w: -SCALE });
    assert!(live[0].1.scale == v(SCALE, SCALE, SCALE));
}

#[test]
fn duplicate_tracks_last_write_wins() {
    let doc = AnimationDoc {
        animations: vec![AnimationDesc {
            channels: vec![
                ChannelDesc {
                    node_name: Some("Hips".to_string()),
                    interpolation: Interpolation::Step,
                    times: Some(vec![0]),
                    outputs: Some(ChannelOutputs::Translations(vec![v(1, 1, 1)])),
                },
                ChannelDesc {
                    node_name: Some("Hips".to_string()),
                    interpolation: Interpolation::Step,
                    times: Some(vec![0]),
                    outputs: Some(ChannelOutputs::Translations(vec![v(2, 2, 2)])),
                },
            ],
        }],
    };
    let clip = import(doc).unwrap();
    let skeleton = vec![(BoneName::Hips, identity())];
    let rest = capture_rest(&skeleton, &clip);
    let mut live = skeleton.clone();
    apply_pose(&mut live, &clip, &rest, 0);
    assert!(live[0].1.translation == v(2, 2, 2));
}

#[test]
fn dropped_files_classify_by_suffix() {
    assert!(classify_dropped_file("dance.vrma") == DroppedKind::Animation);
    assert!(classify_dropped_file("model.vrm") == DroppedKind::Model);
    assert!(classify_dropped_file(".vrma") == DroppedKind::Animation);
    assert!(classify_dropped_file("vrma") == DroppedKind::Model);
    assert!(classify_dropped_file("") == DroppedKind::Model);
    assert!(classify_dropped_file("dance.VRMA") == DroppedKind::Model);
}
