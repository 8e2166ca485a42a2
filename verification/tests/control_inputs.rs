use openduckrust::config::DuckConfig;
use openduckrust::config::ExpressionFeatures;
use openduckrust::control::ControlState;
use openduckrust::control::apply_head_commands;
use openduckrust::control::build_observation;
use openduckrust::control::filter_active;
use openduckrust::controller::ButtonState;
use openduckrust::controller::Buttons;
use openduckrust::controller::ControllerOutput;
use openduckrust::controller::XBoxController;
use openduckrust::imu::Imu;
use openduckrust::imu::ImuData;
use openduckrust::imu::ImuReader;
use openduckrust::imu::MockImu;
use openduckrust::imu::imu_sample_from_raw;
use openduckrust::motors::NUM_DOFS;
use openduckrust::peripherals::MockFeetContacts;
use openduckrust::peripherals::ProjectorState;
use openduckrust::peripherals::contacts_to_values;
use openduckrust::rl_utils::joint_is_antenna;
use openduckrust::rl_utils::make_action_dict;
use openduckrust::rl_utils::mujoco_joints_order;
use openduckrust::sensor_channel::LatestReceiver;
use openduckrust::sensor_channel::PublishOutcome;
use openduckrust::sensor_channel::publish_keep_unread;
use openduckrust::sensor_channel::publish_latest;
use openduckrust::sensor_channel::send_stop;
use openduckrust::tenant::TenantContext;

#[test]
fn button_debounce_rapid_represses_trigger_once() {
    let mut b = ButtonState::new();
    b.update(true, 300);
    assert!(b.triggered);
    b.update(false, 350);
    assert!(!b.triggered);
    // A re-press within the 200 ms window registers but does not trigger.
    b.update(true, 400);
    assert!(b.is_pressed);
    assert!(!b.triggered);
}

#[test]
fn button_debounce_spaced_represses_trigger_twice() {
    let mut b = ButtonState::new();
    b.update(true, 300);
    assert!(b.triggered);
    b.update(false, 350);
    b.update(true, 600);
    assert!(b.triggered);
}

#[test]
fn button_sustained_press_never_retriggers() {
    let mut b = ButtonState::new();
    b.update(true, 300);
    assert!(b.triggered);
    for t in [400i64, 900, 10_000, 500_000] {
        b.update(true, t);
        assert!(!b.triggered);
        assert!(b.is_pressed);
    }
}

#[test]
fn buttons_start_released() {
    let buttons = Buttons::new();
    assert!(!buttons.a.is_pressed);
    assert!(!buttons.dpad_down.triggered);
}

#[test]
fn latest_receiver_keeps_last_value() {
    let (tx, rx) = crossbeam_channel::bounded::<i64>(1);
    let mut latest = LatestReceiver::new(rx, 7);
    assert_eq!(*latest.get_latest(), 7);
    assert_eq!(publish_keep_unread(&tx, 42), PublishOutcome::Published);
    assert_eq!(*latest.get_latest(), 42);
    // Nothing new: the last sample is handed out again.
    assert_eq!(*latest.get_latest(), 42);
    drop(tx);
    assert_eq!(*latest.get_latest(), 42);
}

#[test]
fn publish_policies_differ_on_full_slot() {
    // Keep-unread: the unseen first sample survives.
    let (tx, rx) = crossbeam_channel::bounded::<i64>(1);
    assert_eq!(publish_keep_unread(&tx, 1), PublishOutcome::Published);
    assert_eq!(publish_keep_unread(&tx, 2), PublishOutcome::SlotOccupied);
    assert_eq!(rx.try_recv(), Ok(1));

    // Latest-wins: the unseen first sample is evicted.
    let (tx, rx) = crossbeam_channel::bounded::<i64>(1);
    assert_eq!(publish_latest(&tx, &rx, 1), PublishOutcome::Published);
    assert_eq!(publish_latest(&tx, &rx, 2), PublishOutcome::Published);
    assert_eq!(rx.try_recv(), Ok(2));

    // A dropped consumer is reported so the producer loop can end.
    let (tx, rx) = crossbeam_channel::bounded::<i64>(1);
    drop(rx);
    assert_eq!(publish_keep_unread(&tx, 3), PublishOutcome::ReceiverGone);
}

#[test]
fn stop_signal_is_idempotent() {
    let (tx, rx) = crossbeam_channel::bounded::<()>(1);
    assert!(send_stop(&tx));
    assert!(!send_stop(&tx));
    assert!(rx.try_recv().is_ok());
    assert!(send_stop(&tx));
}

#[test]
fn imu_handle_defaults_then_tracks() {
    let (tx, rx) = crossbeam_channel::bounded::<ImuData>(1);
    let (stop_tx, stop_rx) = crossbeam_channel::bounded::<()>(1);
    let mut imu = Imu::new(rx, stop_tx);
    let d = imu.get_data();
    assert_eq!(d.gyro, [0, 0, 0]);
    let sample = imu_sample_from_raw([900, -900, 0], [100, 0, -200]);
    assert_eq!(
        publish_latest(&tx, &imu.inner.receiver, sample),
        PublishOutcome::Published
    );
    let d = imu.get_data();
    assert_eq!(d.gyro, [1_000_000, -1_000_000, 0]);
    assert_eq!(d.accel, [1_000_000, 0, -2_000_000]);
    imu.stop();
    imu.stop();
    assert!(stop_rx.try_recv().is_ok());
}

#[test]
fn mock_imu_reports_gravity() {
    let mut mock = MockImu::new();
    let d = ImuReader::get_data(&mut mock);
    assert_eq!(d.accel, [0, 0, 9_810_000]);
    assert_eq!(mock.fixed_reading().accel, [0, 0, 9_810_000]);
    assert_eq!(mock.fixed_reading().gyro, [0, 0, 0]);
    ImuReader::stop(&mock);
}

#[test]
fn controller_handle_defaults_then_tracks() {
    let (tx, rx) = crossbeam_channel::bounded::<ControllerOutput>(1);
    let (stop_tx, _stop_rx) = crossbeam_channel::bounded::<()>(1);
    let mut pad = XBoxController::new(rx, stop_tx);
    assert_eq!(pad.get_last_command().commands, [0i64; 7]);
    let mut snap = ControllerOutput::new();
    snap.commands = [1, 2, 3, 4, 5, 6, 7];
    snap.left_trigger = 500_000;
    assert_eq!(publish_keep_unread(&tx, snap), PublishOutcome::Published);
    let got = pad.get_last_command();
    assert_eq!(got.commands, [1, 2, 3, 4, 5, 6, 7]);
    assert_eq!(got.left_trigger, 500_000);
    pad.stop();
}

#[test]
fn antenna_joints_are_filtered_from_action_dict() {
    assert!(joint_is_antenna("left_antenna"));
    assert!(joint_is_antenna("right_antenna"));
    assert!(!joint_is_antenna("left_knee"));
    assert!(!joint_is_antenna("antenn"));
    assert!(joint_is_antenna("antenna"));

    let order = mujoco_joints_order();
    assert_eq!(order.len(), 16);
    let names: Vec<String> = order.iter().map(|s| s.to_string()).collect();
    let action: Vec<i64> = (0..16).collect();
    let dict = make_action_dict(action.as_slice(), &names);
    assert_eq!(dict.len(), 14);
    assert!(dict.iter().all(|(n, _)| !n.contains("antenna")));
    assert_eq!(dict[3], ("left_knee".to_string(), 3));
    // Past the antennas the action index still follows the joint index.
    assert_eq!(dict[9], ("right_hip_yaw".to_string(), 11));
}

#[test]
fn action_dict_skips_missing_action_entries() {
    let names = vec!["a".to_string(), "b".to_string(), "c".to_string()];
    let dict = make_action_dict(&[10i64, 20], &names);
    assert_eq!(dict, vec![("a".to_string(), 10), ("b".to_string(), 20)]);
}

#[test]
fn control_state_rotates_action_history() {
    let init = vec![5i64; NUM_DOFS];
    let mut state = ControlState::new(&init, false);
    assert_eq!(state.motor_targets, init);
    assert!(!state.paused);

    let a1 = vec![1i64; NUM_DOFS];
    let a2 = vec![2i64; NUM_DOFS];
    state.update_action_history(&a1);
    state.update_action_history(&a2);
    assert_eq!(state.last_action, a2);
    assert_eq!(state.last_last_action, a1);
    assert_eq!(state.last_last_last_action, vec![0i64; NUM_DOFS]);

    state.apply_pause_trigger(false);
    assert!(!state.paused);
    state.apply_pause_trigger(true);
    assert!(state.paused);
    state.apply_pause_trigger(true);
    assert!(!state.paused);
}

#[test]
fn head_commands_add_onto_head_joints() {
    let targets = vec![0i64; NUM_DOFS];
    let commands = [10i64, 20, 30, 40, 50, 60, 70];
    let out = apply_head_commands(&targets, &commands);
    assert_eq!(out.len(), NUM_DOFS);
    assert_eq!(out[4], 0);
    assert_eq!(out[5], 40);
    assert_eq!(out[6], 50);
    assert_eq!(out[7], 60);
    assert_eq!(out[8], 70);
    assert_eq!(out[9], 0);

    // Too few joints: nothing is overridden.
    let short = vec![1i64; 8];
    assert_eq!(apply_head_commands(&short, &commands), short);
}

#[test]
fn filter_warmup_bypasses_first_second() {
    assert!(!filter_active(0));
    assert!(!filter_active(1000));
    assert!(filter_active(1001));
}

#[test]
fn observation_layout_and_length() {
    let imu = ImuData { gyro: [1, 2, 3], accel: [4, 5, 6] };
    let commands = [10i64, 11, 12, 13, 14, 15, 16];
    let dof_pos = vec![100i64; NUM_DOFS];
    let init_pos = vec![40i64; NUM_DOFS];
    let dof_vel = vec![1000i64; NUM_DOFS];
    let mut state = ControlState::new(&init_pos, false);
    state.update_action_history(&vec![7i64; NUM_DOFS]);
    let feet = contacts_to_values(true, false);
    let phase = [999i64, -999];
    let obs = build_observation(
        &imu, &commands, &dof_pos, &init_pos, &dof_vel, &state, &feet, &phase,
    );
    assert_eq!(obs.len(), 3 + 3 + 7 + 6 * NUM_DOFS + 2 + 2);
    assert_eq!(&obs[0..6], &[1, 2, 3, 4, 5, 6]);
    assert_eq!(&obs[6..13], &commands);
    // Positions relative to the standing pose.
    assert_eq!(obs[13], 60);
    // Velocities scaled by 0.05.
    assert_eq!(obs[13 + NUM_DOFS], 50);
    // Action history: newest first.
    assert_eq!(obs[13 + 2 * NUM_DOFS], 7);
    assert_eq!(obs[13 + 3 * NUM_DOFS], 0);
    // Previous motor targets.
    assert_eq!(obs[13 + 5 * NUM_DOFS], 40);
    // Feet contacts and phase close the vector.
    let n = obs.len();
    assert_eq!(&obs[n - 4..], &[1_000_000, 0, 999, -999]);
}

#[test]
fn feet_contacts_encode_and_mock() {
    assert_eq!(contacts_to_values(true, true), [1_000_000, 1_000_000]);
    assert_eq!(contacts_to_values(false, false), [0, 0]);
    assert_eq!(MockFeetContacts.get(), [0, 0]);
}

#[test]
fn projector_toggles() {
    let mut p = ProjectorState::new();
    assert!(!p.is_on);
    assert!(p.switch());
    assert!(!p.switch());
}

#[test]
fn config_defaults_are_safe() {
    let c = DuckConfig::default();
    assert!(!c.start_paused);
    assert!(!c.imu_upside_down);
    assert_eq!(c.phase_frequency_factor_offset_milli, 0);
    assert_eq!(c.joints_offset.len(), NUM_DOFS);
    assert_eq!(c.joint_offset(0), 0);
    assert_eq!(c.joint_offset(999), 0);
    let f = ExpressionFeatures::default();
    assert!(!f.eyes && !f.projector && !f.antennas && !f.speaker);
}

#[test]
fn tenant_context_holds_identity() {
    let t = TenantContext::new(
        "tenant-a".to_string(),
        "user-1".to_string(),
        vec!["admin".to_string()],
    );
    assert_eq!(t.tenant_id, "tenant-a");
    assert_eq!(t.user_id, "user-1");
    assert_eq!(t.roles, vec!["admin".to_string()]);
}
