use openduckrust::rl_utils::ActionFilter;
use openduckrust::rl_utils::LowPassActionFilter;
use openduckrust::rl_utils::action_to_pd_targets;
use openduckrust::rl_utils::quat_rotate_inverse;

#[test]
fn test_low_pass_filter_converges() {
    // 50 Hz control, 30 Hz cutoff; targets in fixed-point units, and
    // the 0.01 tolerance scaled the same way.
    let mut filter = LowPassActionFilter::new(50, 30);
    let target = vec![1000i64, 2000, 3000];

    // Push the same value many times — should converge.
    for _ in 0..200 {
        filter.push(&target);
        filter.get_filtered_action();
    }

    let result = filter.get_filtered_action();
    for (r, t) in result.iter().zip(target.iter()) {
        assert!((r - t).abs() < 10, "Filter did not converge: {} vs {}", r, t);
    }
}

#[test]
fn test_action_filter_average() {
    let mut filter = ActionFilter::new(3);
    filter.push(&[1i64, 2]);
    filter.push(&[4i64, 5]);
    filter.push(&[7i64, 8]);

    let avg = filter.get_filtered_action();
    assert_eq!(avg[0], 4);
    assert_eq!(avg[1], 5);
}

#[test]
fn action_filter_discards_oldest_beyond_window() {
    let mut filter = ActionFilter::new(2);
    filter.push(&[0i64]);
    filter.push(&[10i64]);
    filter.push(&[20i64]);
    // Window of two: only the last two rows are averaged.
    let avg = filter.get_filtered_action();
    assert_eq!(avg, vec![15i64]);
}

#[test]
fn action_filter_empty_yields_empty() {
    let filter = ActionFilter::new(3);
    assert!(filter.get_filtered_action().is_empty());
}

#[test]
fn low_pass_alpha_matches_frequencies() {
    // alpha = 1000 * control / (control + cutoff) = 1000 * 50 / 80 = 625.
    let filter = LowPassActionFilter::new(50, 30);
    assert_eq!(filter.alpha_milli, 625);
}

#[test]
fn low_pass_first_push_seeds_output() {
    let mut filter = LowPassActionFilter::new(50, 30);
    filter.push(&[4000i64]);
    let out = filter.get_filtered_action();
    // Seeded at the target, the output starts there.
    assert_eq!(out, vec![4000i64]);
}

#[test]
fn low_pass_single_step_keeps_alpha_of_distance() {
    let mut filter = LowPassActionFilter::new(50, 30);
    filter.push(&[0i64]);
    filter.get_filtered_action();
    filter.push(&[1000i64]);
    // One step from 0 toward 1000 keeps 625 thousandths of the distance.
    let out = filter.get_filtered_action();
    assert_eq!(out, vec![375i64]);
}

#[test]
fn pd_targets_scale_and_offset() {
    let action = [1000i64, -2000];
    let offset = [5i64, 10];
    let targets = action_to_pd_targets(&action, &offset, 250);
    assert_eq!(targets, vec![255i64, -490]);
}

#[test]
fn quat_rotate_inverse_identity() {
    // The identity quaternion leaves the vector unchanged.
    let q = [0i64, 0, 0, 1_000_000];
    let v = [1_000_000i64, 2_000_000, 3_000_000];
    let r = quat_rotate_inverse(&q, &v);
    assert_eq!(r, v);
}

#[test]
fn quat_rotate_inverse_half_turn_about_z() {
    // A half turn about z negates x and y and keeps z.
    let q = [0i64, 0, 1_000_000, 0];
    let v = [1_000_000i64, 2_000_000, 3_000_000];
    let r = quat_rotate_inverse(&q, &v);
    assert_eq!(r[0], -1_000_000);
    assert_eq!(r[1], -2_000_000);
    assert_eq!(r[2], 3_000_000);
}
