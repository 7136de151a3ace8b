use urd::monitoring::MonitorOutput;

const MS: u64 = 1_000_000;

#[test]
fn first_position_is_always_output() {
    let mut m = MonitorOutput::new(10, true, 4);
    assert!(m.should_output_position(0, false));
    assert_eq!(m.decimal_places, 4);
}

#[test]
fn positions_are_rate_limited() {
    // 10 Hz: at least 100 ms between outputs.
    let mut m = MonitorOutput::new(10, false, 4);
    assert!(m.should_output_position(1_000 * MS, true));
    assert!(!m.should_output_position(1_050 * MS, true));
    assert!(!m.should_output_position(1_100 * MS - 1, true));
    assert!(m.should_output_position(1_100 * MS, true));
    // a clock reading before the last output counts as no time passed
    assert!(!m.should_output_position(500 * MS, true));
}

#[test]
fn rate_interval_uses_whole_milliseconds() {
    // 3 Hz: 1000 / 3 = 333 ms.
    let mut m = MonitorOutput::new(3, false, 4);
    assert!(m.should_output_position(0, false));
    assert!(!m.should_output_position(333 * MS - 1, false));
    assert!(m.should_output_position(333 * MS, false));
}

#[test]
fn dynamic_mode_outputs_positions_only_on_change() {
    let mut m = MonitorOutput::new(1000, true, 4);
    assert!(m.should_output_position(0, false));
    assert!(!m.should_output_position(10 * MS, false));
    assert!(m.should_output_position(20 * MS, true));
}

#[test]
fn static_mode_outputs_positions_without_change() {
    let mut m = MonitorOutput::new(1000, false, 2);
    assert!(m.should_output_position(0, false));
    assert!(m.should_output_position(10 * MS, false));
}

#[test]
fn dynamic_mode_reports_robot_state_on_change_only() {
    let mut m = MonitorOutput::new(10, true, 4);
    assert!(m.should_output_robot_state(7, 1, 1));
    assert!(!m.should_output_robot_state(7, 1, 1));
    assert!(m.should_output_robot_state(7, 3, 1));
    assert!(!m.should_output_robot_state(7, 3, 1));
    assert!(m.should_output_robot_state(7, 1, 1));
}

#[test]
fn static_mode_reports_every_robot_state() {
    let mut m = MonitorOutput::new(10, false, 4);
    assert!(m.should_output_robot_state(5, 1, 0));
    assert!(m.should_output_robot_state(5, 1, 0));
}

#[test]
fn robot_state_checks_are_not_rate_limited() {
    let mut m = MonitorOutput::new(1, true, 4);
    assert!(m.should_output_position(0, true));
    assert!(m.should_output_robot_state(1, 1, 1));
    assert!(m.should_output_robot_state(2, 1, 1));
}
