use dobot::{
    decode_words, encode_words, ArmOrientation, IoLevel, JogCommand, JogCommandType,
    JogCommonParams, JogJointParams, Pose, PtpCommonParams, PtpJointParams, PtpJumpParams,
    PtpMode,
};

#[test]
fn ptp_common_params_fixed_layout_round_trip() {
    let p = PtpCommonParams { velocity_ratio: 30.0f32.to_bits(), acceleration_ratio: 10.0f32.to_bits() };
    let b = p.to_bytes();
    assert_eq!(b, vec![0x00, 0x00, 0xF0, 0x41, 0x00, 0x00, 0x20, 0x41]);
    let q = PtpCommonParams::from_bytes(&b).unwrap();
    assert_eq!(f32::from_bits(q.velocity_ratio).to_bits(), 30.0f32.to_bits());
    assert_eq!(f32::from_bits(q.acceleration_ratio).to_bits(), 10.0f32.to_bits());
}

#[test]
fn pose_layout() {
    let mut b = Vec::new();
    for i in 0..8u32 {
        b.extend_from_slice(&(i * 0x0101_0101 + 1).to_le_bytes());
    }
    let p = Pose::from_bytes(&b).unwrap();
    assert_eq!(p.x, 1);
    assert_eq!(p.r, 3 * 0x0101_0101 + 1);
    assert_eq!(p.joint_angles[3], 7 * 0x0101_0101 + 1);
    assert_eq!(p.to_bytes(), b);
}

#[test]
fn joint_params_layout() {
    let j = JogJointParams { velocity: [1, 2, 3, 4], acceleration: [5, 6, 7, 8] };
    let b = j.to_bytes();
    assert_eq!(b.len(), 32);
    assert_eq!(&b[16..20], &[5, 0, 0, 0]);
    let k = PtpJointParams::from_bytes(&b).unwrap();
    assert_eq!(k.velocity, [1, 2, 3, 4]);
    assert_eq!(k.acceleration, [5, 6, 7, 8]);
}

#[test]
fn jump_params_layout() {
    let j = PtpJumpParams { jump_height: 20.0f32.to_bits(), z_limit: 0, dummy: 0xDEAD_BEEF };
    let b = j.to_bytes();
    assert_eq!(b.len(), 12);
    assert_eq!(&b[8..12], &[0xEF, 0xBE, 0xAD, 0xDE]);
    assert_eq!(PtpJumpParams::from_bytes(&b).unwrap().dummy, 0xDEAD_BEEF);
    assert!(PtpJumpParams::from_bytes(&b[..11]).is_err());
}

#[test]
fn jog_common_params_layout() {
    let j = JogCommonParams { velocity_ratio: 50.0f32.to_bits(), acceleration_ratio: 50.0f32.to_bits() };
    assert_eq!(JogCommonParams::from_bytes(&j.to_bytes()).unwrap().velocity_ratio, 50.0f32.to_bits());
}

#[test]
fn words_pack_little_endian() {
    assert_eq!(encode_words(&[0x0403_0201, 0x0807_0605]), vec![1, 2, 3, 4, 5, 6, 7, 8]);
    assert_eq!(decode_words(&[1, 2, 3, 4, 5, 6, 7, 8]), vec![0x0403_0201, 0x0807_0605]);
    assert!(encode_words(&[]).is_empty());
}

#[test]
fn firmware_codes() {
    assert_eq!(IoLevel::High.code(), 1);
    assert_eq!(ArmOrientation::Righty.code(), 1);
    assert_eq!(ArmOrientation::from_code(0), ArmOrientation::Lefty);
    assert_eq!(JogCommandType::Cartesian.code(), 0);
    assert_eq!(JogCommand::Idel.code(), 0);
    assert_eq!(JogCommand::DnDown.code(), 8);
    assert_eq!(PtpMode::MovjAngle.code(), 4);
    assert_eq!(PtpMode::JumpMovlXyz.code(), 9);
}

#[test]
fn words_ignore_trailing_remainder() {
    assert_eq!(decode_words(&[1, 0, 0, 0, 9, 9]), vec![1]);
    assert!(decode_words(&[7, 7, 7]).is_empty());
}
