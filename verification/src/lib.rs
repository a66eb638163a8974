//! Skeletal-animation import and playback for VRM humanoid rigs.
//!
//! The crate parses a decoded animation document into a [`clip::AnimationClip`],
//! maps scene-graph node names onto a canonical humanoid bone taxonomy,
//! samples per-bone keyframe tracks at a playback time, and applies the
//! sampled values onto a skeleton's bone transforms after restoring the
//! recorded rest pose.
//!
//! All times and values are fixed-point numbers: an `i64` counts units of
//! `1 / math::SCALE`. Callers that hold floating-point data convert at the
//! boundary; everything inside the crate is exact integer arithmetic.

pub mod bones;
pub mod clip;
pub mod context;
pub mod importer;
pub mod math;
pub mod pose;
pub mod sampler;
