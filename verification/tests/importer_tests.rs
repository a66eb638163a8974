use vrm_anim::bones::BoneName;
use vrm_anim::clip::{Interpolation, TrackValues};
use vrm_anim::importer::{
    doc_wf_check, import, AnimationDesc, AnimationDoc, ChannelDesc, ChannelOutputs, ImportError,
};
use vrm_anim::math::{Vec3Fx, SCALE};

fn v(x: i64, y: i64, z: i64) -> Vec3Fx {
    Vec3Fx { x, y, z }
}

fn channel(
    name: Option<&str>,
    times: Option<Vec<i64>>,
    outputs: Option<ChannelOutputs>,
) -> ChannelDesc {
    ChannelDesc {
        node_name: name.map(|n| n.to_string()),
        interpolation: Interpolation::Linear,
        times,
        outputs,
    }
}

fn doc_of(channels: Vec<ChannelDesc>) -> AnimationDoc {
    AnimationDoc { animations: vec![AnimationDesc { channels }] }
}

#[test]
fn no_animation_fails() {
    let doc = AnimationDoc { animations: vec![] };
    assert!(doc_wf_check(&doc));
    assert!(import(doc) == Err(ImportError::NoAnimation));
}

#[test]
fn missing_keyframe_inputs_fails_whole_import() {
    let doc = doc_of(vec![
        channel(
            Some("Hips"),
            Some(vec![0, SCALE]),
            Some(ChannelOutputs::Translations(vec![v(0, 0, 0), v(0, 1, 0)])),
        ),
        channel(Some("Spine"), None, None),
    ]);
    assert!(doc_wf_check(&doc));
    assert!(import(doc) == Err(ImportError::MissingKeyframeInputs));
}

#[test]
fn unnamed_node_is_skipped_even_without_inputs() {
    let doc = doc_of(vec![channel(None, None, None)]);
    assert!(doc_wf_check(&doc));
    let clip = import(doc).unwrap();
    assert_eq!(clip.tracks.len(), 0);
    assert_eq!(clip.duration, 0);
}

#[test]
fn unrecognized_bone_is_skipped_not_failed() {
    let doc = doc_of(vec![
        channel(Some("Armature"), None, None),
        channel(
            Some("Hips"),
            Some(vec![0, SCALE]),
            Some(ChannelOutputs::Translations(vec![v(0, 0, 0), v(0, 1, 0)])),
        ),
    ]);
    let clip = import(doc).unwrap();
    assert_eq!(clip.tracks.len(), 1);
    assert!(clip.tracks[0].bone == BoneName::Hips);
    assert_eq!(clip.duration, SCALE);
}

#[test]
fn unrecognized_output_kind_drops_channel_but_counts_duration() {
    let doc = doc_of(vec![channel(
        Some("Hips"),
        Some(vec![0, 2 * SCALE]),
        Some(ChannelOutputs::Unrecognized),
    )]);
    let clip = import(doc).unwrap();
    assert_eq!(clip.tracks.len(), 0);
    assert_eq!(clip.duration, 2 * SCALE);
}

#[test]
fn unreadable_outputs_drop_channel_but_count_duration() {
    let doc = doc_of(vec![channel(Some("Hips"), Some(vec![0, 3 * SCALE]), None)]);
    let clip = import(doc).unwrap();
    assert_eq!(clip.tracks.len(), 0);
    assert_eq!(clip.duration, 3 * SCALE);
}

#[test]
fn zero_tracks_is_a_valid_import() {
    let doc = doc_of(vec![]);
    let clip = import(doc).unwrap();
    assert_eq!(clip.tracks.len(), 0);
    assert_eq!(clip.duration, 0);
}

#[test]
fn duration_is_max_last_keyframe_across_channels() {
    let doc = doc_of(vec![
        channel(
            Some("Hips"),
            Some(vec![0, SCALE]),
            Some(ChannelOutputs::Translations(vec![v(0, 0, 0), v(1, 0, 0)])),
        ),
        channel(
            Some("Spine"),
            Some(vec![0, 5 * SCALE]),
            Some(ChannelOutputs::Scales(vec![v(SCALE, SCALE, SCALE), v(SCALE, SCALE, SCALE)])),
        ),
        channel(
            Some("Head"),
            Some(vec![0, 3 * SCALE]),
            Some(ChannelOutputs::Translations(vec![v(0, 0, 0), v(0, 1, 0)])),
        ),
    ]);
    let clip = import(doc).unwrap();
    assert_eq!(clip.tracks.len(), 3);
    assert_eq!(clip.duration, 5 * SCALE);
}

#[test]
fn tracks_keep_channel_data_and_kind() {
    let doc = doc_of(vec![channel(
        Some("LeftUpLeg"),
        Some(vec![0, SCALE]),
        Some(ChannelOutputs::Translations(vec![v(1, 2, 3), v(4, 5, 6)])),
    )]);
    let clip = import(doc).unwrap();
    assert_eq!(clip.tracks.len(), 1);
    let track = &clip.tracks[0];
    assert!(track.bone == BoneName::LeftUpperLeg);
    assert!(track.interpolation == Interpolation::Linear);
    assert_eq!(track.times, vec![0, SCALE]);
    assert!(track.values == TrackValues::Translations(vec![v(1, 2, 3), v(4, 5, 6)]));
}

#[test]
fn only_the_first_animation_is_imported() {
    let second = AnimationDesc {
        channels: vec![channel(
            Some("Hips"),
            Some(vec![0, SCALE]),
            Some(ChannelOutputs::Translations(vec![v(0, 0, 0), v(0, 1, 0)])),
        )],
    };
    let doc = AnimationDoc { animations: vec![AnimationDesc { channels: vec![] }, second] };
    let clip = import(doc).unwrap();
    assert_eq!(clip.tracks.len(), 0);
    assert_eq!(clip.duration, 0);
}

#[test]
fn wf_check_rejects_unsorted_times() {
    let doc = doc_of(vec![channel(
        Some("Hips"),
        Some(vec![SCALE, 0]),
        Some(ChannelOutputs::Translations(vec![v(0, 0, 0), v(0, 1, 0)])),
    )]);
    assert!(!doc_wf_check(&doc));
}

#[test]
fn wf_check_rejects_mismatched_lengths() {
    let doc = doc_of(vec![channel(
        Some("Hips"),
        Some(vec![0, SCALE]),
        Some(ChannelOutputs::Translations(vec![v(0, 0, 0)])),
    )]);
    assert!(!doc_wf_check(&doc));
}

#[test]
fn wf_check_rejects_out_of_range_values() {
    let big = 2_000_000_000_i64;
    let doc = doc_of(vec![channel(
        Some("Hips"),
        Some(vec![0, SCALE]),
        Some(ChannelOutputs::Translations(vec![v(0, 0, 0), v(0, big, 0)])),
    )]);
    assert!(!doc_wf_check(&doc));
}

#[test]
fn wf_check_rejects_out_of_range_times() {
    let doc = doc_of(vec![channel(
        Some("Hips"),
        Some(vec![-1, SCALE]),
        Some(ChannelOutputs::Translations(vec![v(0, 0, 0), v(0, 1, 0)])),
    )]);
    assert!(!doc_wf_check(&doc));
}
