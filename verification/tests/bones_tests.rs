use vrm_anim::bones::{parse_bone_name, BoneName};

#[test]
fn alias_spellings_agree_upper_leg() {
    let a = parse_bone_name("LeftUpLeg");
    let b = parse_bone_name("LeftUpperLeg");
    assert!(a == Some(BoneName::LeftUpperLeg));
    assert!(a == b);
}

#[test]
fn alias_spellings_agree_arms() {
    assert!(parse_bone_name("RightArm") == Some(BoneName::RightUpperArm));
    assert!(parse_bone_name("RightUpperArm") == Some(BoneName::RightUpperArm));
    assert!(parse_bone_name("LeftForeArm") == Some(BoneName::LeftLowerArm));
    assert!(parse_bone_name("LeftLowerArm") == Some(BoneName::LeftLowerArm));
}

#[test]
fn alias_spellings_agree_legs_and_feet() {
    assert!(parse_bone_name("RightLeg") == Some(BoneName::RightLowerLeg));
    assert!(parse_bone_name("RightLowerLeg") == Some(BoneName::RightLowerLeg));
    assert!(parse_bone_name("LeftToeBase") == Some(BoneName::LeftFoot));
    assert!(parse_bone_name("LeftFoot") == Some(BoneName::LeftFoot));
    assert!(parse_bone_name("LeftToeBase_end") == Some(BoneName::LeftToes));
    assert!(parse_bone_name("LeftToes") == Some(BoneName::LeftToes));
}

#[test]
fn numbered_finger_segments() {
    assert!(parse_bone_name("LeftHandThumb1") == Some(BoneName::LeftThumbProximal));
    assert!(parse_bone_name("LeftThumbProximal") == Some(BoneName::LeftThumbProximal));
    assert!(parse_bone_name("RightHandMiddle3") == Some(BoneName::RightMiddleDistal));
    assert!(parse_bone_name("RightMiddleDistal") == Some(BoneName::RightMiddleDistal));
    assert!(parse_bone_name("RightHandPinky2") == Some(BoneName::RightLittleIntermediate));
    assert!(parse_bone_name("RightHandLittle2") == Some(BoneName::RightLittleIntermediate));
    assert!(parse_bone_name("RightLittleIntermediate") == Some(BoneName::RightLittleIntermediate));
}

#[test]
fn core_bones_map() {
    assert!(parse_bone_name("Hips") == Some(BoneName::Hips));
    assert!(parse_bone_name("Spine") == Some(BoneName::Spine));
    assert!(parse_bone_name("Chest") == Some(BoneName::Chest));
    assert!(parse_bone_name("UpperChest") == Some(BoneName::UpperChest));
    assert!(parse_bone_name("Neck") == Some(BoneName::Neck));
    assert!(parse_bone_name("Head") == Some(BoneName::Head));
    assert!(parse_bone_name("Jaw") == Some(BoneName::Jaw));
    assert!(parse_bone_name("LeftEye") == Some(BoneName::LeftEye));
}

#[test]
fn unrecognized_names_map_to_none() {
    assert!(parse_bone_name("Armature") == None);
    assert!(parse_bone_name("") == None);
    assert!(parse_bone_name("Hips2") == None);
    assert!(parse_bone_name("Left") == None);
    assert!(parse_bone_name("mixamorig:Hips") == None);
}

#[test]
fn matching_is_case_sensitive() {
    assert!(parse_bone_name("hips") == None);
    assert!(parse_bone_name("HIPS") == None);
    assert!(parse_bone_name("leftupleg") == None);
}
