use openduckrust::motors::MotorController;
use openduckrust::motors::NUM_DOFS;
use openduckrust::motors::default_init_positions;
use openduckrust::motors::find_position;
use openduckrust::motors::joint_ids_default;
use openduckrust::motors::joint_names_default;
use openduckrust::protocol::validate_frame;

fn controller() -> MotorController {
    MotorController::new(vec![0i64; NUM_DOFS])
}

#[test]
fn joint_tables_are_consistent() {
    assert_eq!(NUM_DOFS, 14);
    assert_eq!(joint_ids_default().len(), 14);
    assert_eq!(joint_names_default().len(), 14);
    assert_eq!(default_init_positions().len(), 14);
    let m = controller();
    assert_eq!(m.joint_names()[0], "left_hip_yaw");
    assert_eq!(m.joint_ids[0], 20);
    assert_eq!(m.init_positions_array()[3], 1_368_000);
}

#[test]
fn disable_is_idempotent_and_commands_zero_torque() {
    let m = controller();
    let first = m.turn_off();
    let second = m.turn_off();
    assert_eq!(first, second);
    assert_eq!(first.len(), NUM_DOFS);
    for (i, frame) in first.iter().enumerate() {
        // [FF FF id 04 03 40 00 chk]: write 0 to the torque register.
        assert_eq!(frame.len(), 8);
        assert_eq!(frame[2], m.joint_ids[i]);
        assert_eq!(frame[5], 40);
        assert_eq!(frame[6], 0);
        assert!(validate_frame(frame.as_slice()));
    }
}

#[test]
fn torque_enable_commands_one() {
    let m = controller();
    let frames = m.torque_enable_frames();
    assert_eq!(frames.len(), NUM_DOFS);
    for frame in &frames {
        assert_eq!(frame[5], 40);
        assert_eq!(frame[6], 1);
        assert!(validate_frame(frame.as_slice()));
    }
}

#[test]
fn gain_frames_carry_the_values() {
    let mut m = controller();
    let mut kps = vec![30u8; NUM_DOFS];
    kps[5] = 8;
    let frames = m.set_kps(&kps);
    assert_eq!(m.kps, kps);
    assert_eq!(frames.len(), NUM_DOFS);
    assert_eq!(frames[0][5], 21);
    assert_eq!(frames[0][6], 30);
    assert_eq!(frames[5][6], 8);
    let kds = vec![0u8; NUM_DOFS];
    let frames = m.set_kds(&kds);
    assert_eq!(frames[0][5], 22);
    assert_eq!(frames[0][6], 0);
}

#[test]
fn group_write_applies_offset_and_converts() {
    let mut offsets = vec![0i64; NUM_DOFS];
    offsets[0] = 100_000;
    let m = MotorController::new(offsets);
    let frame = m.set_position_all_array(&vec![0i64; NUM_DOFS]);
    assert!(validate_frame(frame.as_slice()));
    // Core: FE len 83 2A 02, then id/lo/hi triples.
    assert_eq!(frame[2], 0xFE);
    assert_eq!(frame[4], 0x83);
    assert_eq!(frame[5], 42);
    // Joint 0 commanded 0 with offset 100000: raw = 100000*4096/2pi + 2048 = 2113.
    assert_eq!(frame[7], 20);
    let raw0 = frame[8] as i16 | ((frame[9] as i16) << 8);
    assert_eq!(raw0, 2113);
    // Joint 1 without offset sits at the centre.
    let raw1 = frame[11] as i16 | ((frame[12] as i16) << 8);
    assert_eq!(raw1, 2048);
}

#[test]
fn named_write_selects_only_named_joints() {
    let m = controller();
    let pairs = vec![("left_knee".to_string(), 0i64), ("head_yaw".to_string(), 0i64)];
    let frame = m.set_position_all(&pairs);
    assert!(validate_frame(frame.as_slice()));
    // Two devices in the frame: length byte = 3*2 + 4.
    assert_eq!(frame[3], 10);
    assert_eq!(frame[7], 23);  // left_knee
    assert_eq!(frame[10], 32);  // head_yaw
}

#[test]
fn find_position_takes_first_match() {
    let pairs = vec![("a".to_string(), 1i64), ("b".to_string(), 2), ("a".to_string(), 3)];
    assert_eq!(find_position(&pairs, &"a".to_string()), Some(1));
    assert_eq!(find_position(&pairs, &"b".to_string()), Some(2));
    assert_eq!(find_position(&pairs, &"c".to_string()), None);
}

#[test]
fn startup_sequence_steps() {
    let mut m = controller();
    let kps = vec![30u8; NUM_DOFS];
    m.set_kps(&kps);
    let seq = m.turn_on();
    assert_eq!(seq.torque_on.len(), NUM_DOFS);
    assert_eq!(seq.torque_on[0][5], 40);
    assert_eq!(seq.torque_on[0][6], 1);
    // Gentle gains first, configured gains restored last.
    assert_eq!(seq.low_gain[0][5], 21);
    assert_eq!(seq.low_gain[0][6], 2);
    assert_eq!(seq.restore_gain[0][6], 30);
    assert!(validate_frame(seq.move_to_init.as_slice()));
    // The controller's own gains are untouched by the sequence.
    assert_eq!(m.kps, kps);
}

#[test]
fn group_read_frames_and_parsing() {
    let m = controller();
    let frame = m.position_read_frame();
    assert_eq!(frame[4], 0x82);
    assert_eq!(frame[5], 56);
    let frame = m.velocity_read_frame();
    assert_eq!(frame[5], 58);

    // An empty response is a failed read, not a zero reading.
    assert!(m.get_present_positions(&[0u8; 112], 0).is_none());
    assert!(m.get_present_velocities(&[0u8; 112], 0).is_none());

    // A full response of centre positions reads as all zero radians.
    let mut buf: Vec<u8> = Vec::new();
    for id in m.joint_ids.iter() {
        let sum = *id as u32 + 4 + 0 + 0x00 + 0x08;
        let chk = (255 - (sum % 256)) as u8;
        buf.extend_from_slice(&[0xFF, 0xFF, *id, 4, 0, 0x00, 0x08, chk]);
    }
    let pos = m.get_present_positions(buf.as_slice(), buf.len()).unwrap();
    assert_eq!(pos, vec![0i64; NUM_DOFS]);

    // A short response pads the missing devices with a zero reading.
    let pos = m.get_present_positions(buf.as_slice(), 8).unwrap();
    assert_eq!(pos[0], 0);
    // Raw 0 decodes as -pi: (0 - 2048) * 2pi / 4096 microradians.
    assert_eq!(pos[1], -3_141_593);

    let vel = m.get_present_velocities(buf.as_slice(), buf.len()).unwrap();
    assert_eq!(vel, vec![2_487_805i64; NUM_DOFS]);
}
