use urd::monitoring::{get_robot_mode_name, get_runtime_state_name, get_safety_mode_name, robot_state_report};

#[test]
fn robot_mode_names_cover_the_table() {
    let expected = [
        (-1, "NO_CONTROLLER"),
        (0, "DISCONNECTED"),
        (1, "CONFIRM_SAFETY"),
        (2, "BOOTING"),
        (3, "POWER_OFF"),
        (4, "POWER_ON"),
        (5, "IDLE"),
        (6, "BACKDRIVE"),
        (7, "RUNNING"),
        (8, "UPDATING_FIRMWARE"),
    ];
    for (mode, name) in expected {
        assert_eq!(get_robot_mode_name(mode), name);
    }
}

#[test]
fn safety_mode_names_cover_the_table() {
    let expected = [
        (1, "NORMAL"),
        (2, "REDUCED"),
        (3, "PROTECTIVE_STOP"),
        (4, "RECOVERY"),
        (5, "SAFEGUARD_STOP"),
        (6, "SYSTEM_EMERGENCY_STOP"),
        (7, "ROBOT_EMERGENCY_STOP"),
        (8, "EMERGENCY_STOP"),
        (9, "VIOLATION"),
        (10, "FAULT"),
        (11, "STOPPED_DUE_TO_SAFETY"),
    ];
    for (mode, name) in expected {
        assert_eq!(get_safety_mode_name(mode), name);
    }
}

#[test]
fn runtime_state_names_cover_the_table() {
    let expected = [
        (0, "STOPPING"),
        (1, "STOPPED"),
        (2, "PLAYING"),
        (3, "PAUSING"),
        (4, "PAUSED"),
        (5, "RESUMING"),
    ];
    for (state, name) in expected {
        assert_eq!(get_runtime_state_name(state), name);
    }
}

#[test]
fn unknown_values_are_named_with_their_number() {
    assert_eq!(get_robot_mode_name(9), "UNKNOWN(9)");
    assert_eq!(get_robot_mode_name(-2), "UNKNOWN(-2)");
    assert_eq!(get_safety_mode_name(0), "UNKNOWN(0)");
    assert_eq!(get_safety_mode_name(12), "UNKNOWN(12)");
    assert_eq!(get_runtime_state_name(-1), "UNKNOWN(-1)");
    assert_eq!(get_runtime_state_name(6), "UNKNOWN(6)");
    assert_eq!(get_robot_mode_name(1234567), "UNKNOWN(1234567)");
    assert_eq!(get_robot_mode_name(i32::MAX), "UNKNOWN(2147483647)");
    assert_eq!(get_robot_mode_name(i32::MIN), "UNKNOWN(-2147483648)");
    assert_eq!(get_safety_mode_name(-100), "UNKNOWN(-100)");
}

#[test]
fn robot_state_report_names_each_mode() {
    let report = robot_state_report(7, 3, 99);
    assert_eq!(report.event_type, "robot_state");
    assert_eq!(report.robot_mode, 7);
    assert_eq!(report.robot_mode_name, "RUNNING");
    assert_eq!(report.safety_mode, 3);
    assert_eq!(report.safety_mode_name, "PROTECTIVE_STOP");
    assert_eq!(report.runtime_state, 99);
    assert_eq!(report.runtime_state_name, "UNKNOWN(99)");
}
