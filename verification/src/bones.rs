//! Canonical humanoid bone taxonomy and the bone-name mapper.
//!
//! [`parse_bone_name`] maps a scene-graph node's display name onto a
//! [`BoneName`], tolerating the alias spellings of the common skeleton
//! naming conventions (including numbered finger-segment suffixes). The
//! match is exact and case-sensitive; unknown names map to `None` so that
//! callers skip the node rather than fail.

use vstd::prelude::*;
use vstd::string::StrSliceExecFns;

verus! {

/// A canonical humanoid bone identifier, independent of the source
/// skeleton's naming convention.
#[derive(Clone, Copy, PartialEq, Eq, Structural, Debug)]
pub enum BoneName {
    Hips,
    LeftUpperLeg,
    RightUpperLeg,
    LeftLowerLeg,
    RightLowerLeg,
    LeftFoot,
    RightFoot,
    Spine,
    Chest,
    Neck,
    Head,
    LeftShoulder,
    RightShoulder,
    LeftUpperArm,
    RightUpperArm,
    LeftLowerArm,
    RightLowerArm,
    LeftHand,
    RightHand,
    LeftToes,
    RightToes,
    LeftEye,
    RightEye,
    Jaw,
    LeftThumbProximal,
    LeftThumbIntermediate,
    LeftThumbDistal,
    LeftIndexProximal,
    LeftIndexIntermediate,
    LeftIndexDistal,
    LeftMiddleProximal,
    LeftMiddleIntermediate,
    LeftMiddleDistal,
    LeftRingProximal,
    LeftRingIntermediate,
    LeftRingDistal,
    LeftLittleProximal,
    LeftLittleIntermediate,
    LeftLittleDistal,
    RightThumbProximal,
    RightThumbIntermediate,
    RightThumbDistal,
    RightIndexProximal,
    RightIndexIntermediate,
    RightIndexDistal,
    RightMiddleProximal,
    RightMiddleIntermediate,
    RightMiddleDistal,
    RightRingProximal,
    RightRingIntermediate,
    RightRingDistal,
    RightLittleProximal,
    RightLittleIntermediate,
    RightLittleDistal,
    UpperChest,
}

/// Compares two string slices by contents.
pub fn str_eq(a: &str, b: &str) -> (r: bool)
    ensures
        r == (a@ == b@),
{
    let alen = a.unicode_len();
    let blen = b.unicode_len();
    if alen != blen {
        return false;
    }
    let mut i: usize = 0;
    while i < alen
        invariant
            0 <= i <= alen,
            alen == a@.len(),
            alen == b@.len(),
            forall|j: int| 0 <= j < i ==> a@[j] == b@[j],
        decreases alen - i,
    {
        if a.get_char(i) != b.get_char(i) {
            return false;
        }
        i = i + 1;
    }
    proof {
        assert(a@ =~= b@);
    }
    true
}

/// The alias table: which canonical bone, if any, a node name denotes.
/// Every name that stands in no branch maps to `None` — the mapper never
/// fabricates a bone for an unrecognized name.
pub open spec fn bone_of_name(s: Seq<char>) -> Option<BoneName> {
    if s == "Hips"@ {
        Some(BoneName::Hips)
    } else if s == "LeftUpperLeg"@ {
        Some(BoneName::LeftUpperLeg)
    } else if s == "LeftUpLeg"@ {
        Some(BoneName::LeftUpperLeg)
    } else if s == "RightUpperLeg"@ {
        Some(BoneName::RightUpperLeg)
    } else if s == "RightUpLeg"@ {
        Some(BoneName::RightUpperLeg)
    } else if s == "LeftLowerLeg"@ {
        Some(BoneName::LeftLowerLeg)
    } else if s == "RightLowerLeg"@ {
        Some(BoneName::RightLowerLeg)
    } else if s == "LeftLeg"@ {
        Some(BoneName::LeftLowerLeg)
    } else if s == "RightLeg"@ {
        Some(BoneName::RightLowerLeg)
    } else if s == "LeftFoot"@ {
        Some(BoneName::LeftFoot)
    } else if s == "LeftToeBase"@ {
        Some(BoneName::LeftFoot)
    } else if s == "RightFoot"@ {
        Some(BoneName::RightFoot)
    } else if s == "RightToeBase"@ {
        Some(BoneName::RightFoot)
    } else if s == "Spine"@ {
        Some(BoneName::Spine)
    } else if s == "Chest"@ {
        Some(BoneName::Chest)
    } else if s == "Neck"@ {
        Some(BoneName::Neck)
    } else if s == "Head"@ {
        Some(BoneName::Head)
    } else if s == "LeftShoulder"@ {
        Some(BoneName::LeftShoulder)
    } else if s == "RightShoulder"@ {
        Some(BoneName::RightShoulder)
    } else if s == "LeftUpperArm"@ {
        Some(BoneName::LeftUpperArm)
    } else if s == "LeftArm"@ {
        Some(BoneName::LeftUpperArm)
    } else if s == "RightUpperArm"@ {
        Some(BoneName::RightUpperArm)
    } else if s == "RightArm"@ {
        Some(BoneName::RightUpperArm)
    } else if s == "LeftLowerArm"@ {
        Some(BoneName::LeftLowerArm)
    } else if s == "LeftForeArm"@ {
        Some(BoneName::LeftLowerArm)
    } else if s == "RightLowerArm"@ {
        Some(BoneName::RightLowerArm)
    } else if s == "RightForeArm"@ {
        Some(BoneName::RightLowerArm)
    } else if s == "LeftHand"@ {
        Some(BoneName::LeftHand)
    } else if s == "RightHand"@ {
        Some(BoneName::RightHand)
    } else if s == "LeftToes"@ {
        Some(BoneName::LeftToes)
    } else if s == "LeftToeBase_end"@ {
        Some(BoneName::LeftToes)
    } else if s == "RightToes"@ {
        Some(BoneName::RightToes)
    } else if s == "RightToeBase_end"@ {
        Some(BoneName::RightToes)
    } else if s == "LeftEye"@ {
        Some(BoneName::LeftEye)
    } else if s == "RightEye"@ {
        Some(BoneName::RightEye)
    } else if s == "Jaw"@ {
        Some(BoneName::Jaw)
    } else if s == "LeftThumbProximal"@ {
        Some(BoneName::LeftThumbProximal)
    } else if s == "LeftThumbIntermediate"@ {
        Some(BoneName::LeftThumbIntermediate)
    } else if s == "LeftThumbDistal"@ {
        Some(BoneName::LeftThumbDistal)
    } else if s == "LeftIndexProximal"@ {
        Some(BoneName::LeftIndexProximal)
    } else if s == "LeftIndexIntermediate"@ {
        Some(BoneName::LeftIndexIntermediate)
    } else if s == "LeftIndexDistal"@ {
        Some(BoneName::LeftIndexDistal)
    } else if s == "LeftMiddleProximal"@ {
        Some(BoneName::LeftMiddleProximal)
    } else if s == "LeftMiddleIntermediate"@ {
        Some(BoneName::LeftMiddleIntermediate)
    } else if s == "LeftMiddleDistal"@ {
        Some(BoneName::LeftMiddleDistal)
    } else if s == "LeftRingProximal"@ {
        Some(BoneName::LeftRingProximal)
    } else if s == "LeftRingIntermediate"@ {
        Some(BoneName::LeftRingIntermediate)
    } else if s == "LeftRingDistal"@ {
        Some(BoneName::LeftRingDistal)
    } else if s == "LeftLittleProximal"@ {
        Some(BoneName::LeftLittleProximal)
    } else if s == "LeftLittleIntermediate"@ {
        Some(BoneName::LeftLittleIntermediate)
    } else if s == "LeftLittleDistal"@ {
        Some(BoneName::LeftLittleDistal)
    } else if s == "RightThumbProximal"@ {
        Some(BoneName::RightThumbProximal)
    } else if s == "RightThumbIntermediate"@ {
        Some(BoneName::RightThumbIntermediate)
    } else if s == "RightThumbDistal"@ {
        Some(BoneName::RightThumbDistal)
    } else if s == "RightIndexProximal"@ {
        Some(BoneName::RightIndexProximal)
    } else if s == "RightIndexIntermediate"@ {
        Some(BoneName::RightIndexIntermediate)
    } else if s == "RightIndexDistal"@ {
        Some(BoneName::RightIndexDistal)
    } else if s == "RightMiddleProximal"@ {
        Some(BoneName::RightMiddleProximal)
    } else if s == "RightMiddleIntermediate"@ {
        Some(BoneName::RightMiddleIntermediate)
    } else if s == "RightMiddleDistal"@ {
        Some(BoneName::RightMiddleDistal)
    } else if s == "RightRingProximal"@ {
        Some(BoneName::RightRingProximal)
    } else if s == "RightRingIntermediate"@ {
        Some(BoneName::RightRingIntermediate)
    } else if s == "RightRingDistal"@ {
        Some(BoneName::RightRingDistal)
    } else if s == "RightLittleProximal"@ {
        Some(BoneName::RightLittleProximal)
    } else if s == "RightLittleIntermediate"@ {
        Some(BoneName::RightLittleIntermediate)
    } else if s == "RightLittleDistal"@ {
        Some(BoneName::RightLittleDistal)
    } else if s == "LeftHandThumb1"@ {
        Some(BoneName::LeftThumbProximal)
    } else if s == "LeftHandThumb2"@ {
        Some(BoneName::LeftThumbIntermediate)
    } else if s == "LeftHandThumb3"@ {
        Some(BoneName::LeftThumbDistal)
    } else if s == "LeftHandIndex1"@ {
        Some(BoneName::LeftIndexProximal)
    } else if s == "LeftHandIndex2"@ {
        Some(BoneName::LeftIndexIntermediate)
    } else if s == "LeftHandIndex3"@ {
        Some(BoneName::LeftIndexDistal)
    } else if s == "LeftHandMiddle1"@ {
        Some(BoneName::LeftMiddleProximal)
    } else if s == "LeftHandMiddle2"@ {
        Some(BoneName::LeftMiddleIntermediate)
    } else if s == "LeftHandMiddle3"@ {
        Some(BoneName::LeftMiddleDistal)
    } else if s == "LeftHandRing1"@ {
        Some(BoneName::LeftRingProximal)
    } else if s == "LeftHandRing2"@ {
        Some(BoneName::LeftRingIntermediate)
    } else if s == "LeftHandRing3"@ {
        Some(BoneName::LeftRingDistal)
    } else if s == "LeftHandLittle1"@ {
        Some(BoneName::LeftLittleProximal)
    } else if s == "LeftHandLittle2"@ {
        Some(BoneName::LeftLittleIntermediate)
    } else if s == "LeftHandLittle3"@ {
        Some(BoneName::LeftLittleDistal)
    } else if s == "LeftHandPinky1"@ {
        Some(BoneName::LeftLittleProximal)
    } else if s == "LeftHandPinky2"@ {
        Some(BoneName::LeftLittleIntermediate)
    } else if s == "LeftHandPinky3"@ {
        Some(BoneName::LeftLittleDistal)
    } else if s == "RightHandThumb1"@ {
        Some(BoneName::RightThumbProximal)
    } else if s == "RightHandThumb2"@ {
        Some(BoneName::RightThumbIntermediate)
    } else if s == "RightHandThumb3"@ {
        Some(BoneName::RightThumbDistal)
    } else if s == "RightHandIndex1"@ {
        Some(BoneName::RightIndexProximal)
    } else if s == "RightHandIndex2"@ {
        Some(BoneName::RightIndexIntermediate)
    } else if s == "RightHandIndex3"@ {
        Some(BoneName::RightIndexDistal)
    } else if s == "RightHandMiddle1"@ {
        Some(BoneName::RightMiddleProximal)
    } else if s == "RightHandMiddle2"@ {
        Some(BoneName::RightMiddleIntermediate)
    } else if s == "RightHandMiddle3"@ {
        Some(BoneName::RightMiddleDistal)
    } else if s == "RightHandRing1"@ {
        Some(BoneName::RightRingProximal)
    } else if s == "RightHandRing2"@ {
        Some(BoneName::RightRingIntermediate)
    } else if s == "RightHandRing3"@ {
        Some(BoneName::RightRingDistal)
    } else if s == "RightHandLittle1"@ {
        Some(BoneName::RightLittleProximal)
    } else if s == "RightHandLittle2"@ {
        Some(BoneName::RightLittleIntermediate)
    } else if s == "RightHandLittle3"@ {
        Some(BoneName::RightLittleDistal)
    } else if s == "RightHandPinky1"@ {
        Some(BoneName::RightLittleProximal)
    } else if s == "RightHandPinky2"@ {
        Some(BoneName::RightLittleIntermediate)
    } else if s == "RightHandPinky3"@ {
        Some(BoneName::RightLittleDistal)
    } else if s == "UpperChest"@ {
        Some(BoneName::UpperChest)
    } else {
        None
    }
}

/// Maps a node's display name to its canonical bone, or `None` if the
/// name is not a recognized alias. Exact, case-sensitive matching only.
#[verifier::rlimit(50)]
pub fn parse_bone_name(name: &str) -> (res: Option<BoneName>)
    ensures
        res == bone_of_name(name@),
{
    if str_eq(name, "Hips") {
        return Some(BoneName::Hips);
    }
    if str_eq(name, "LeftUpperLeg") {
        return Some(BoneName::LeftUpperLeg);
    }
    if str_eq(name, "LeftUpLeg") {
        return Some(BoneName::LeftUpperLeg);
    }
    if str_eq(name, "RightUpperLeg") {
        return Some(BoneName::RightUpperLeg);
    }
    if str_eq(name, "RightUpLeg") {
        return Some(BoneName::RightUpperLeg);
    }
    if str_eq(name, "LeftLowerLeg") {
        return Some(BoneName::LeftLowerLeg);
    }
    if str_eq(name, "RightLowerLeg") {
        return Some(BoneName::RightLowerLeg);
    }
    if str_eq(name, "LeftLeg") {
        return Some(BoneName::LeftLowerLeg);
    }
    if str_eq(name, "RightLeg") {
        return Some(BoneName::RightLowerLeg);
    }
    if str_eq(name, "LeftFoot") {
        return Some(BoneName::LeftFoot);
    }
    if str_eq(name, "LeftToeBase") {
        return Some(BoneName::LeftFoot);
    }
    if str_eq(name, "RightFoot") {
        return Some(BoneName::RightFoot);
    }
    if str_eq(name, "RightToeBase") {
        return Some(BoneName::RightFoot);
    }
    if str_eq(name, "Spine") {
        return Some(BoneName::Spine);
    }
    if str_eq(name, "Chest") {
        return Some(BoneName::Chest);
    }
    if str_eq(name, "Neck") {
        return Some(BoneName::Neck);
    }
    if str_eq(name, "Head") {
        return Some(BoneName::Head);
    }
    if str_eq(name, "LeftShoulder") {
        return Some(BoneName::LeftShoulder);
    }
    if str_eq(name, "RightShoulder") {
        return Some(BoneName::RightShoulder);
    }
    if str_eq(name, "LeftUpperArm") {
        return Some(BoneName::LeftUpperArm);
    }
    if str_eq(name, "LeftArm") {
        return Some(BoneName::LeftUpperArm);
    }
    if str_eq(name, "RightUpperArm") {
        return Some(BoneName::RightUpperArm);
    }
    if str_eq(name, "RightArm") {
        return Some(BoneName::RightUpperArm);
    }
    if str_eq(name, "LeftLowerArm") {
        return Some(BoneName::LeftLowerArm);
    }
    if str_eq(name, "LeftForeArm") {
        return Some(BoneName::LeftLowerArm);
    }
    if str_eq(name, "RightLowerArm") {
        return Some(BoneName::RightLowerArm);
    }
    if str_eq(name, "RightForeArm") {
        return Some(BoneName::RightLowerArm);
    }
    if str_eq(name, "LeftHand") {
        return Some(BoneName::LeftHand);
    }
    if str_eq(name, "RightHand") {
        return Some(BoneName::RightHand);
    }
    if str_eq(name, "LeftToes") {
        return Some(BoneName::LeftToes);
    }
    if str_eq(name, "LeftToeBase_end") {
        return Some(BoneName::LeftToes);
    }
    if str_eq(name, "RightToes") {
        return Some(BoneName::RightToes);
    }
    if str_eq(name, "RightToeBase_end") {
        return Some(BoneName::RightToes);
    }
    if str_eq(name, "LeftEye") {
        return Some(BoneName::LeftEye);
    }
    if str_eq(name, "RightEye") {
        return Some(BoneName::RightEye);
    }
    if str_eq(name, "Jaw") {
        return Some(BoneName::Jaw);
    }
    if str_eq(name, "LeftThumbProximal") {
        return Some(BoneName::LeftThumbProximal);
    }
    if str_eq(name, "LeftThumbIntermediate") {
        return Some(BoneName::LeftThumbIntermediate);
    }
    if str_eq(name, "LeftThumbDistal") {
        return Some(BoneName::LeftThumbDistal);
    }
    if str_eq(name, "LeftIndexProximal") {
        return Some(BoneName::LeftIndexProximal);
    }
    if str_eq(name, "LeftIndexIntermediate") {
        return Some(BoneName::LeftIndexIntermediate);
    }
    if str_eq(name, "LeftIndexDistal") {
        return Some(BoneName::LeftIndexDistal);
    }
    if str_eq(name, "LeftMiddleProximal") {
        return Some(BoneName::LeftMiddleProximal);
    }
    if str_eq(name, "LeftMiddleIntermediate") {
        return Some(BoneName::LeftMiddleIntermediate);
    }
    if str_eq(name, "LeftMiddleDistal") {
        return Some(BoneName::LeftMiddleDistal);
    }
    if str_eq(name, "LeftRingProximal") {
        return Some(BoneName::LeftRingProximal);
    }
    if str_eq(name, "LeftRingIntermediate") {
        return Some(BoneName::LeftRingIntermediate);
    }
    if str_eq(name, "LeftRingDistal") {
        return Some(BoneName::LeftRingDistal);
    }
    if str_eq(name, "LeftLittleProximal") {
        return Some(BoneName::LeftLittleProximal);
    }
    if str_eq(name, "LeftLittleIntermediate") {
        return Some(BoneName::LeftLittleIntermediate);
    }
    if str_eq(name, "LeftLittleDistal") {
        return Some(BoneName::LeftLittleDistal);
    }
    if str_eq(name, "RightThumbProximal") {
        return Some(BoneName::RightThumbProximal);
    }
    if str_eq(name, "RightThumbIntermediate") {
        return Some(BoneName::RightThumbIntermediate);
    }
    if str_eq(name, "RightThumbDistal") {
        return Some(BoneName::RightThumbDistal);
    }
    if str_eq(name, "RightIndexProximal") {
        return Some(BoneName::RightIndexProximal);
    }
    if str_eq(name, "RightIndexIntermediate") {
        return Some(BoneName::RightIndexIntermediate);
    }
    if str_eq(name, "RightIndexDistal") {
        return Some(BoneName::RightIndexDistal);
    }
    if str_eq(name, "RightMiddleProximal") {
        return Some(BoneName::RightMiddleProximal);
    }
    if str_eq(name, "RightMiddleIntermediate") {
        return Some(BoneName::RightMiddleIntermediate);
    }
    if str_eq(name, "RightMiddleDistal") {
        return Some(BoneName::RightMiddleDistal);
    }
    if str_eq(name, "RightRingProximal") {
        return Some(BoneName::RightRingProximal);
    }
    if str_eq(name, "RightRingIntermediate") {
        return Some(BoneName::RightRingIntermediate);
    }
    if str_eq(name, "RightRingDistal") {
        return Some(BoneName::RightRingDistal);
    }
    if str_eq(name, "RightLittleProximal") {
        return Some(BoneName::RightLittleProximal);
    }
    if str_eq(name, "RightLittleIntermediate") {
        return Some(BoneName::RightLittleIntermediate);
    }
    if str_eq(name, "RightLittleDistal") {
        return Some(BoneName::RightLittleDistal);
    }
    if str_eq(name, "LeftHandThumb1") {
        return Some(BoneName::LeftThumbProximal);
    }
    if str_eq(name, "LeftHandThumb2") {
        return Some(BoneName::LeftThumbIntermediate);
    }
    if str_eq(name, "LeftHandThumb3") {
        return Some(BoneName::LeftThumbDistal);
    }
    if str_eq(name, "LeftHandIndex1") {
        return Some(BoneName::LeftIndexProximal);
    }
    if str_eq(name, "LeftHandIndex2") {
        return Some(BoneName::LeftIndexIntermediate);
    }
    if str_eq(name, "LeftHandIndex3") {
        return Some(BoneName::LeftIndexDistal);
    }
    if str_eq(name, "LeftHandMiddle1") {
        return Some(BoneName::LeftMiddleProximal);
    }
    if str_eq(name, "LeftHandMiddle2") {
        return Some(BoneName::LeftMiddleIntermediate);
    }
    if str_eq(name, "LeftHandMiddle3") {
        return Some(BoneName::LeftMiddleDistal);
    }
    if str_eq(name, "LeftHandRing1") {
        return Some(BoneName::LeftRingProximal);
    }
    if str_eq(name, "LeftHandRing2") {
        return Some(BoneName::LeftRingIntermediate);
    }
    if str_eq(name, "LeftHandRing3") {
        return Some(BoneName::LeftRingDistal);
    }
    if str_eq(name, "LeftHandLittle1") {
        return Some(BoneName::LeftLittleProximal);
    }
    if str_eq(name, "LeftHandLittle2") {
        return Some(BoneName::LeftLittleIntermediate);
    }
    if str_eq(name, "LeftHandLittle3") {
        return Some(BoneName::LeftLittleDistal);
    }
    if str_eq(name, "LeftHandPinky1") {
        return Some(BoneName::LeftLittleProximal);
    }
    if str_eq(name, "LeftHandPinky2") {
        return Some(BoneName::LeftLittleIntermediate);
    }
    if str_eq(name, "LeftHandPinky3") {
        return Some(BoneName::LeftLittleDistal);
    }
    if str_eq(name, "RightHandThumb1") {
        return Some(BoneName::RightThumbProximal);
    }
    if str_eq(name, "RightHandThumb2") {
        return Some(BoneName::RightThumbIntermediate);
    }
    if str_eq(name, "RightHandThumb3") {
        return Some(BoneName::RightThumbDistal);
    }
    if str_eq(name, "RightHandIndex1") {
        return Some(BoneName::RightIndexProximal);
    }
    if str_eq(name, "RightHandIndex2") {
        return Some(BoneName::RightIndexIntermediate);
    }
    if str_eq(name, "RightHandIndex3") {
        return Some(BoneName::RightIndexDistal);
    }
    if str_eq(name, "RightHandMiddle1") {
        return Some(BoneName::RightMiddleProximal);
    }
    if str_eq(name, "RightHandMiddle2") {
        return Some(BoneName::RightMiddleIntermediate);
    }
    if str_eq(name, "RightHandMiddle3") {
        return Some(BoneName::RightMiddleDistal);
    }
    if str_eq(name, "RightHandRing1") {
        return Some(BoneName::RightRingProximal);
    }
    if str_eq(name, "RightHandRing2") {
        return Some(BoneName::RightRingIntermediate);
    }
    if str_eq(name, "RightHandRing3") {
        return Some(BoneName::RightRingDistal);
    }
    if str_eq(name, "RightHandLittle1") {
        return Some(BoneName::RightLittleProximal);
    }
    if str_eq(name, "RightHandLittle2") {
        return Some(BoneName::RightLittleIntermediate);
    }
    if str_eq(name, "RightHandLittle3") {
        return Some(BoneName::RightLittleDistal);
    }
    if str_eq(name, "RightHandPinky1") {
        return Some(BoneName::RightLittleProximal);
    }
    if str_eq(name, "RightHandPinky2") {
        return Some(BoneName::RightLittleIntermediate);
    }
    if str_eq(name, "RightHandPinky3") {
        return Some(BoneName::RightLittleDistal);
    }
    if str_eq(name, "UpperChest") {
        return Some(BoneName::UpperChest);
    }
    None
}

/// Alias spellings of one joint agree: the two skeleton-naming
/// conventions for the left upper leg map to the same canonical bone.
pub proof fn lemma_alias_spellings_agree()
    ensures
        bone_of_name("LeftUpLeg"@) == bone_of_name("LeftUpperLeg"@),
        bone_of_name("LeftUpLeg"@) == Some(BoneName::LeftUpperLeg),
{
    reveal_strlit("Hips");
    reveal_strlit("LeftUpperLeg");
    reveal_strlit("LeftUpLeg");
    assert("Hips"@.len() == 4);
    assert("LeftUpperLeg"@.len() == 12);
    assert("LeftUpLeg"@.len() == 9);
    assert("LeftUpperLeg"@ != "Hips"@);
    assert("LeftUpLeg"@ != "Hips"@);
    assert("LeftUpLeg"@ != "LeftUpperLeg"@);
    assert(bone_of_name("LeftUpperLeg"@) == Some(BoneName::LeftUpperLeg));
    assert(bone_of_name("LeftUpLeg"@) == Some(BoneName::LeftUpperLeg));
}


/// The spellings the alias table recognizes, written out as a plain
/// disjunction, independent of which bone each one names.
pub open spec fn is_recognized_alias(s: Seq<char>) -> bool {
    ||| s == "Hips"@
    ||| s == "LeftUpperLeg"@
    ||| s == "LeftUpLeg"@
    ||| s == "RightUpperLeg"@
    ||| s == "RightUpLeg"@
    ||| s == "LeftLowerLeg"@
    ||| s == "RightLowerLeg"@
    ||| s == "LeftLeg"@
    ||| s == "RightLeg"@
    ||| s == "LeftFoot"@
    ||| s == "LeftToeBase"@
    ||| s == "RightFoot"@
    ||| s == "RightToeBase"@
    ||| s == "Spine"@
    ||| s == "Chest"@
    ||| s == "Neck"@
    ||| s == "Head"@
    ||| s == "LeftShoulder"@
    ||| s == "RightShoulder"@
    ||| s == "LeftUpperArm"@
    ||| s == "LeftArm"@
    ||| s == "RightUpperArm"@
    ||| s == "RightArm"@
    ||| s == "LeftLowerArm"@
    ||| s == "LeftForeArm"@
    ||| s == "RightLowerArm"@
    ||| s == "RightForeArm"@
    ||| s == "LeftHand"@
    ||| s == "RightHand"@
    ||| s == "LeftToes"@
    ||| s == "LeftToeBase_end"@
    ||| s == "RightToes"@
    ||| s == "RightToeBase_end"@
    ||| s == "LeftEye"@
    ||| s == "RightEye"@
    ||| s == "Jaw"@
    ||| s == "LeftThumbProximal"@
    ||| s == "LeftThumbIntermediate"@
    ||| s == "LeftThumbDistal"@
    ||| s == "LeftIndexProximal"@
    ||| s == "LeftIndexIntermediate"@
    ||| s == "LeftIndexDistal"@
    ||| s == "LeftMiddleProximal"@
    ||| s == "LeftMiddleIntermediate"@
    ||| s == "LeftMiddleDistal"@
    ||| s == "LeftRingProximal"@
    ||| s == "LeftRingIntermediate"@
    ||| s == "LeftRingDistal"@
    ||| s == "LeftLittleProximal"@
    ||| s == "LeftLittleIntermediate"@
    ||| s == "LeftLittleDistal"@
    ||| s == "RightThumbProximal"@
    ||| s == "RightThumbIntermediate"@
    ||| s == "RightThumbDistal"@
    ||| s == "RightIndexProximal"@
    ||| s == "RightIndexIntermediate"@
    ||| s == "RightIndexDistal"@
    ||| s == "RightMiddleProximal"@
    ||| s == "RightMiddleIntermediate"@
    ||| s == "RightMiddleDistal"@
    ||| s == "RightRingProximal"@
    ||| s == "RightRingIntermediate"@
    ||| s == "RightRingDistal"@
    ||| s == "RightLittleProximal"@
    ||| s == "RightLittleIntermediate"@
    ||| s == "RightLittleDistal"@
    ||| s == "LeftHandThumb1"@
    ||| s == "LeftHandThumb2"@
    ||| s == "LeftHandThumb3"@
    ||| s == "LeftHandIndex1"@
    ||| s == "LeftHandIndex2"@
    ||| s == "LeftHandIndex3"@
    ||| s == "LeftHandMiddle1"@
    ||| s == "LeftHandMiddle2"@
    ||| s == "LeftHandMiddle3"@
    ||| s == "LeftHandRing1"@
    ||| s == "LeftHandRing2"@
    ||| s == "LeftHandRing3"@
    ||| s == "LeftHandLittle1"@
    ||| s == "LeftHandLittle2"@
    ||| s == "LeftHandLittle3"@
    ||| s == "LeftHandPinky1"@
    ||| s == "LeftHandPinky2"@
    ||| s == "LeftHandPinky3"@
    ||| s == "RightHandThumb1"@
    ||| s == "RightHandThumb2"@
    ||| s == "RightHandThumb3"@
    ||| s == "RightHandIndex1"@
    ||| s == "RightHandIndex2"@
    ||| s == "RightHandIndex3"@
    ||| s == "RightHandMiddle1"@
    ||| s == "RightHandMiddle2"@
    ||| s == "RightHandMiddle3"@
    ||| s == "RightHandRing1"@
    ||| s == "RightHandRing2"@
    ||| s == "RightHandRing3"@
    ||| s == "RightHandLittle1"@
    ||| s == "RightHandLittle2"@
    ||| s == "RightHandLittle3"@
    ||| s == "RightHandPinky1"@
    ||| s == "RightHandPinky2"@
    ||| s == "RightHandPinky3"@
    ||| s == "UpperChest"@
}

/// The mapper returns a bone exactly for the recognized alias
/// spellings: every other name maps to `None`, never to a fabricated
/// bone.
#[verifier::rlimit(50)]
pub proof fn lemma_unrecognized_maps_to_none(s: Seq<char>)
    ensures
        (bone_of_name(s) is Some) <==> is_recognized_alias(s),
{
}

} // verus!
