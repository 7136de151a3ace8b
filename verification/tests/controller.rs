use urd::controller::{
    interpreter_validation_command, monitor_output_for, wait_decision, ConnectDecision, ConnectRetry,
    ControllerError, InitStep, InterpreterCommand, PrepareAction, PrepareStage, RobotController,
    RobotPreparation, RobotState, WaitOutcome, UR_DASHBOARD_PORT, UR_PRIMARY_PORT,
};
use urd::text::{text_contains, text_equals};
use urd::{ControlInterface, ReceiveInterface, RTDE_PORT};

fn send(c: &str) -> PrepareAction {
    PrepareAction::Send(c.to_string())
}

fn wait(target: &str, timeout_seconds: u64) -> PrepareAction {
    PrepareAction::WaitFor { target: target.to_string(), timeout_seconds }
}

fn initialize(c: &mut RobotController, enable_monitoring: bool, rpy: bool) -> Vec<InitStep> {
    let mut steps = Vec::new();
    let mut step = InitStep::ConnectPrimary;
    while step != InitStep::Finished {
        steps.push(step);
        step = c.complete_init_step(step, enable_monitoring, rpy);
    }
    steps
}

#[test]
fn ports() {
    assert_eq!(UR_PRIMARY_PORT, 30001);
    assert_eq!(UR_DASHBOARD_PORT, 29999);
    assert_eq!(RTDE_PORT, 30004);
}

#[test]
fn interfaces_connect_to_the_rtde_port() {
    let c = ControlInterface::new("192.168.1.100", |host, port| Ok::<_, String>(format!("{}:{}", host, port)))
        .unwrap();
    assert_eq!(c.endpoint().host, "192.168.1.100");
    assert_eq!(c.endpoint().port, 30004);
    assert_eq!(c.client(), "192.168.1.100:30004");
    let mut r = ReceiveInterface::new("10.0.0.2", |_host, port| Ok::<_, String>(port)).unwrap();
    assert_eq!(r.endpoint().host, "10.0.0.2");
    assert_eq!(*r.client(), 30004);
    *r.client_mut() = 7;
    assert_eq!(*r.client(), 7);
}

#[test]
fn interfaces_fail_when_the_connection_fails() {
    let c = ControlInterface::<u16>::new("192.168.1.100", |_host, _port| Err("refused".to_string()));
    assert_eq!(c.err(), Some("refused".to_string()));
    let r = ReceiveInterface::<u16>::new("10.0.0.2", |_host, _port| Err(5u8));
    assert_eq!(r.err(), Some(5u8));
}

#[test]
fn interpreter_validation_command_text() {
    assert_eq!(interpreter_validation_command(), "textmsg(\"Interpreter mode validated\")");
}

#[test]
fn new_controller_is_disconnected_and_not_ready() {
    let c = RobotController::new();
    assert_eq!(*c.state(), RobotState::Disconnected);
    assert!(!c.is_ready());
    assert!(!c.links().primary);
}

#[test]
fn initialization_without_monitoring() {
    let mut c = RobotController::new();
    let steps = initialize(&mut c, false, true);
    assert_eq!(
        steps,
        vec![
            InitStep::ConnectPrimary,
            InitStep::ConnectDashboard,
            InitStep::PrepareRobot,
            InitStep::StartInterpreter,
            InitStep::ValidateInterpreter
        ]
    );
    assert_eq!(*c.state(), RobotState::Running);
    assert!(c.is_ready());
    let l = c.links();
    assert!(l.primary && l.dashboard && l.interpreter);
    assert!(!l.rtde && !l.monitor && !l.rpy);
}

#[test]
fn initialization_with_monitoring() {
    let mut c = RobotController::new();
    let steps = initialize(&mut c, true, true);
    assert_eq!(steps.len(), 6);
    assert_eq!(steps[5], InitStep::SpawnMonitor);
    assert!(c.is_ready());
    let l = c.links();
    assert!(l.rtde && l.monitor && l.rpy);

    let mut d = RobotController::new();
    initialize(&mut d, true, false);
    assert!(d.links().monitor && !d.links().rpy);
}

#[test]
fn failed_initialization_is_not_ready() {
    let mut c = RobotController::new();
    assert_eq!(c.complete_init_step(InitStep::ConnectPrimary, false, false), InitStep::ConnectDashboard);
    assert_eq!(c.complete_init_step(InitStep::ConnectDashboard, false, false), InitStep::PrepareRobot);
    // preparation fails: the sequence stops here
    assert_eq!(*c.state(), RobotState::Disconnected);
    assert!(!c.is_ready());
    assert!(c.links().primary && c.links().dashboard);
}

#[test]
fn interpreter_script_needs_primary_socket() {
    let mut c = RobotController::new();
    assert_eq!(c.interpreter_script(), Err(ControllerError::PrimaryNotConnected));
    c.complete_init_step(InitStep::ConnectPrimary, false, false);
    assert_eq!(
        c.interpreter_script().unwrap(),
        "def ur_init():\n  textmsg(\"Starting interpreter mode\")\n  interpreter_mode()\nend\nur_init()\n"
    );
}

#[test]
fn dashboard_commands_need_dashboard_socket() {
    let mut c = RobotController::new();
    assert_eq!(c.dashboard_command("robotmode"), Err(ControllerError::DashboardNotConnected));
    c.complete_init_step(InitStep::ConnectPrimary, false, false);
    c.complete_init_step(InitStep::ConnectDashboard, false, false);
    assert_eq!(c.dashboard_command("robotmode").unwrap(), "robotmode\n");
    assert_eq!(c.dashboard_command("power on").unwrap(), "power on\n");
}

#[test]
fn emergency_abort_needs_primary_socket() {
    let c = RobotController::new();
    assert_eq!(c.emergency_abort(), Err(ControllerError::PrimaryNotConnected));
}

#[test]
fn emergency_abort_halts_and_blocks_cleanup() {
    let mut c = RobotController::new();
    initialize(&mut c, false, false);
    let plan = c.emergency_abort().unwrap();
    assert_eq!(plan.script, "halt\n");
    assert!(plan.signal_interpreter);
    c.record_emergency_halt();
    assert_eq!(*c.state(), RobotState::Error("Emergency halted".to_string()));
    assert!(!c.is_ready());
    assert!(c.cleanup_on_drop().is_empty());
    let shutdown = c.shutdown();
    assert!(shutdown.interpreter_commands.is_empty());
    assert_eq!(*c.state(), RobotState::Disconnected);
}

#[test]
fn emergency_abort_without_interpreter_signals_nothing() {
    let mut c = RobotController::new();
    c.complete_init_step(InitStep::ConnectPrimary, false, false);
    let plan = c.emergency_abort().unwrap();
    assert!(!plan.signal_interpreter);
}

#[test]
fn shutdown_cleans_up_and_disconnects() {
    let mut c = RobotController::new();
    initialize(&mut c, true, true);
    assert_eq!(
        c.cleanup_on_drop(),
        vec![InterpreterCommand::AbortMove, InterpreterCommand::Clear, InterpreterCommand::EndInterpreter]
    );
    let plan = c.shutdown();
    assert_eq!(
        plan.interpreter_commands,
        vec![InterpreterCommand::Halt, InterpreterCommand::Clear, InterpreterCommand::EndInterpreter]
    );
    assert_eq!(*c.state(), RobotState::Disconnected);
    assert!(!c.is_ready());
    let l = c.links();
    assert!(!l.primary && !l.dashboard && !l.interpreter && !l.rtde && !l.monitor);
    // the RPY analyzer is kept
    assert!(l.rpy);
    assert!(c.cleanup_on_drop().is_empty());
}

#[test]
fn preparation_of_a_powered_off_robot() {
    let (mut p, first) = RobotPreparation::start();
    assert_eq!(first, send("robotmode"));
    assert_eq!(p.advance("Robotmode: POWER_OFF"), send("power on"));
    assert_eq!(p.advance("Powering on"), wait("IDLE", 15));
    assert_eq!(p.advance("Robotmode: IDLE"), send("robotmode"));
    assert_eq!(p.advance("Robotmode: IDLE"), send("brake release"));
    assert_eq!(p.advance("Brake releasing"), wait("RUNNING", 10));
    assert_eq!(p.advance("Robotmode: RUNNING"), PrepareAction::Done);
    assert_eq!(p.stage(), PrepareStage::Ready);
}

#[test]
fn preparation_of_a_disconnected_robot_powers_on() {
    let (mut p, _) = RobotPreparation::start();
    assert_eq!(p.advance("Robotmode: DISCONNECTED"), send("power on"));
}

#[test]
fn preparation_of_a_running_robot_does_nothing() {
    let (mut p, _) = RobotPreparation::start();
    assert_eq!(p.advance("Robotmode: RUNNING"), send("robotmode"));
    assert_eq!(p.advance("Robotmode: RUNNING"), PrepareAction::Done);
    assert_eq!(p.advance("anything"), PrepareAction::Done);
}

#[test]
fn preparation_of_an_idle_robot_releases_brakes() {
    let (mut p, _) = RobotPreparation::start();
    assert_eq!(p.advance("Robotmode: IDLE"), send("robotmode"));
    assert_eq!(p.advance("Robotmode: IDLE"), send("brake release"));
}

#[test]
fn waiting_for_a_mode() {
    let s = 1_000_000_000u64;
    assert_eq!(wait_decision("Robotmode: RUNNING", "RUNNING", 0, 10), WaitOutcome::Reached);
    assert_eq!(wait_decision("Robotmode: RUNNING", "RUNNING", 100 * s, 10), WaitOutcome::Reached);
    assert_eq!(wait_decision("Robotmode: IDLE", "RUNNING", 10 * s, 10), WaitOutcome::Retry);
    assert_eq!(wait_decision("Robotmode: IDLE", "RUNNING", 10 * s + 1, 10), WaitOutcome::TimedOut);
    assert_eq!(wait_decision("Robotmode: IDLE", "RUNNING", u64::MAX, u64::MAX), WaitOutcome::Retry);
}

#[test]
fn interpreter_connection_retries_up_to_the_limit() {
    let mut r = ConnectRetry::new(3);
    let mut tries = 0;
    let decision = loop {
        assert!(r.should_attempt());
        tries += 1;
        match r.on_failure() {
            ConnectDecision::RetryAfterPause => continue,
            ConnectDecision::GiveUp => break ConnectDecision::GiveUp,
        }
    };
    assert_eq!(decision, ConnectDecision::GiveUp);
    assert_eq!(tries, 3);
    assert_eq!(r.attempts(), 2);
}

#[test]
fn interpreter_connection_with_no_attempts_allowed() {
    let r = ConnectRetry::new(0);
    assert!(!r.should_attempt());
    let mut one = ConnectRetry::new(1);
    assert!(one.should_attempt());
    assert_eq!(one.on_failure(), ConnectDecision::GiveUp);
}

#[test]
fn monitor_settings() {
    let mut m = monitor_output_for(10, "dynamic", None);
    assert_eq!(m.decimal_places, 4);
    assert!(m.should_output_robot_state(1, 1, 1));
    assert!(!m.should_output_robot_state(1, 1, 1));
    let mut s = monitor_output_for(10, "static", Some(6));
    assert_eq!(s.decimal_places, 6);
    assert!(s.should_output_robot_state(1, 1, 1));
    assert!(s.should_output_robot_state(1, 1, 1));
    let mut d = monitor_output_for(10, "Dynamic", Some(2));
    assert!(d.should_output_robot_state(1, 1, 1));
    assert!(d.should_output_robot_state(1, 1, 1));
}

#[test]
fn text_search() {
    assert!(text_contains("Robotmode: POWER_OFF", "POWER_OFF"));
    assert!(text_contains("abc", ""));
    assert!(text_contains("", ""));
    assert!(!text_contains("", "a"));
    assert!(!text_contains("IDL", "IDLE"));
    assert!(text_contains("IDLE", "IDLE"));
    assert!(text_contains("xxIDLE", "IDLE"));
    assert!(text_contains("äöüIDLE", "IDLE"));
    assert!(!text_contains("Robotmode: RUNNING", "IDLE"));
    assert!(text_equals("dynamic", "dynamic"));
    assert!(!text_equals("dynamic", "dynamics"));
    assert!(!text_equals("dynamic", "Dynamic"));
}

#[test]
fn shutdown_without_interpreter_sends_no_commands() {
    let mut c = RobotController::new();
    c.complete_init_step(InitStep::ConnectPrimary, false, false);
    assert!(c.cleanup_on_drop().is_empty());
    assert!(c.shutdown().interpreter_commands.is_empty());
    assert!(!c.links().primary);
}
