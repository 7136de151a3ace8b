//! Robot controller decisions: the initialization sequence, the power-on and
//! brake-release procedure, waiting for a robot mode, connection retries, emergency
//! abort and shutdown. The caller performs the socket and interpreter I/O that each
//! decision asks for and reports back what happened.

use vstd::prelude::*;
use crate::monitoring::MonitorOutput;
use crate::text::{contains_text, text_contains, text_equals};

verus! {

/// Robot operational states
#[derive(Debug, Clone, PartialEq)]
pub enum RobotState {
    Disconnected,
    PowerOff,
    Idle,
    Running,
    Error(String),
}

/// Primary interface ports for UR robots
pub const UR_PRIMARY_PORT: u16 = 30001;
pub const UR_DASHBOARD_PORT: u16 = 29999;

/// Why a controller operation was refused.
#[derive(Debug, Clone, PartialEq)]
pub enum ControllerError {
    /// The primary interface socket is not connected.
    PrimaryNotConnected,
    /// The dashboard socket is not connected.
    DashboardNotConnected,
}

/// Which connections and monitors the controller holds.
#[derive(Debug, Clone, Copy, PartialEq, Eq)]
pub struct ControllerLinks {
    pub primary: bool,
    pub dashboard: bool,
    pub interpreter: bool,
    pub rtde: bool,
    pub monitor: bool,
    pub rpy: bool,
}

/// The steps of the initialization sequence, in order.
#[derive(Debug, Clone, Copy, PartialEq, Eq)]
pub enum InitStep {
    /// Connect to the primary interface.
    ConnectPrimary,
    /// Connect to the dashboard interface.
    ConnectDashboard,
    /// Power the robot on and release its brakes where needed (see `RobotPreparation`).
    PrepareRobot,
    /// Send the interpreter mode script over the primary interface.
    StartInterpreter,
    /// Connect to the interpreter (see `ConnectRetry`), then run the test command of
    /// `interpreter_validation_command` on it. The step completes, and the interpreter
    /// connection is recorded, only once that command succeeded.
    ValidateInterpreter,
    /// Start RTDE monitoring.
    SpawnMonitor,
    /// Initialization is complete.
    Finished,
}

/// The step that follows `step`; monitoring is spawned only when enabled.
pub open spec fn init_step_after(step: InitStep, enable_monitoring: bool) -> InitStep {
    match step {
        InitStep::ConnectPrimary => InitStep::ConnectDashboard,
        InitStep::ConnectDashboard => InitStep::PrepareRobot,
        InitStep::PrepareRobot => InitStep::StartInterpreter,
        InitStep::StartInterpreter => InitStep::ValidateInterpreter,
        InitStep::ValidateInterpreter => if enable_monitoring {
            InitStep::SpawnMonitor
        } else {
            InitStep::Finished
        },
        InitStep::SpawnMonitor => InitStep::Finished,
        InitStep::Finished => InitStep::Finished,
    }
}

/// The connections held once `step` completed.
pub open spec fn links_after(links: ControllerLinks, step: InitStep, rpy_enabled: bool) -> ControllerLinks {
    match step {
        InitStep::ConnectPrimary => ControllerLinks { primary: true, ..links },
        InitStep::ConnectDashboard => ControllerLinks { dashboard: true, ..links },
        InitStep::ValidateInterpreter => ControllerLinks { interpreter: true, ..links },
        InitStep::SpawnMonitor => ControllerLinks {
            rtde: true,
            monitor: true,
            rpy: links.rpy || rpy_enabled,
            ..links
        },
        _ => links,
    }
}

/// The script that switches the robot into interpreter mode.
pub open spec fn interpreter_script_text() -> Seq<char> {
    "def ur_init():\n  textmsg(\"Starting interpreter mode\")\n  interpreter_mode()\nend\nur_init()\n"@
}

/// The test command run on the interpreter after connecting to it.
pub open spec fn validation_command_text() -> Seq<char> {
    "textmsg(\"Interpreter mode validated\")"@
}

/// The test command that validates interpreter mode: run on the interpreter after the
/// connection attempts, before the interpreter connection is recorded.
pub fn interpreter_validation_command() -> (command: String)
    ensures
        command@ == validation_command_text(),
{
    String::from_str("textmsg(\"Interpreter mode validated\")")
}

/// The script that halts the robot at once.
pub open spec fn halt_script_text() -> Seq<char> {
    "halt\n"@
}

/// The message of the error state that an emergency abort leaves.
pub open spec fn emergency_message() -> Seq<char> {
    "Emergency halted"@
}

/// What an emergency abort sends and signals.
#[derive(Debug, Clone, PartialEq)]
pub struct AbortPlan {
    /// The script to write to the primary interface.
    pub script: String,
    /// Whether the interpreter client must be told to abort its pending operations.
    pub signal_interpreter: bool,
}

/// A best-effort command to the interpreter client during cleanup.
#[derive(Debug, Clone, Copy, PartialEq, Eq)]
pub enum InterpreterCommand {
    /// Halt any running program.
    Halt,
    /// Abort the current move.
    AbortMove,
    /// Clear the interpreter buffer.
    Clear,
    /// Leave interpreter mode.
    EndInterpreter,
}

/// The cleanup that shutdown sends to the interpreter, in order.
pub open spec fn shutdown_cleanup_commands() -> Seq<InterpreterCommand> {
    seq![InterpreterCommand::Halt, InterpreterCommand::Clear, InterpreterCommand::EndInterpreter]
}

/// The cleanup that dropping the controller sends to the interpreter, in order.
pub open spec fn drop_cleanup_commands() -> Seq<InterpreterCommand> {
    seq![InterpreterCommand::AbortMove, InterpreterCommand::Clear, InterpreterCommand::EndInterpreter]
}

/// Whether cleanup may talk to the interpreter: there is one, and the controller is not
/// in an error state (after a halt the interpreter is unresponsive).
pub open spec fn interpreter_cleanup_allowed(state: RobotState, links: ControllerLinks) -> bool {
    links.interpreter && !(state is Error)
}

/// What shutdown must do before the connections close.
#[derive(Debug, Clone, PartialEq, Eq)]
pub struct ShutdownPlan {
    /// The commands to send to the interpreter, in order; their failures are ignored.
    pub interpreter_commands: Vec<InterpreterCommand>,
}

fn three_commands(a: InterpreterCommand, b: InterpreterCommand, c: InterpreterCommand) -> (v: Vec<InterpreterCommand>)
    ensures
        v@ == seq![a, b, c],
{
    let mut v = Vec::new();
    v.push(a);
    v.push(b);
    v.push(c);
    assert(v@ =~= seq![a, b, c]);
    v
}

/// Robot controller state: the robot state and the connections held.
pub struct RobotController {
    state: RobotState,
    links: ControllerLinks,
}

impl RobotController {
    /// The robot state.
    pub closed spec fn current_state(&self) -> RobotState {
        self.state
    }

    /// The connections held.
    pub closed spec fn current_links(&self) -> ControllerLinks {
        self.links
    }

    /// Ready for commands: running with an interpreter connection.
    pub open spec fn ready(&self) -> bool {
        self.current_state() is Running && self.current_links().interpreter
    }

    /// A controller that holds no connection yet.
    pub fn new() -> (c: Self)
        ensures
            c.current_state() is Disconnected,
            c.current_links() == (ControllerLinks {
                primary: false,
                dashboard: false,
                interpreter: false,
                rtde: false,
                monitor: false,
                rpy: false,
            }),
    {
        RobotController {
            state: RobotState::Disconnected,
            links: ControllerLinks {
                primary: false,
                dashboard: false,
                interpreter: false,
                rtde: false,
                monitor: false,
                rpy: false,
            },
        }
    }

    /// Get the current robot state
    pub fn state(&self) -> (s: &RobotState)
        ensures
            *s == self.current_state(),
    {
        &self.state
    }

    /// The connections held.
    pub fn links(&self) -> (l: ControllerLinks)
        ensures
            l == self.current_links(),
    {
        self.links
    }

    /// Check if the robot is ready for commands
    pub fn is_ready(&self) -> (r: bool)
        ensures
            r == self.ready(),
    {
        match self.state {
            RobotState::Running => self.links.interpreter,
            _ => false,
        }
    }

    /// Record that `step` of the initialization sequence completed, and return the
    /// step to run next. When the sequence is complete the robot is running.
    pub fn complete_init_step(&mut self, step: InitStep, enable_monitoring: bool, rpy_enabled: bool) -> (next: InitStep)
        ensures
            next == init_step_after(step, enable_monitoring),
            final(self).current_links() == links_after(old(self).current_links(), step, rpy_enabled),
            next is Finished ==> final(self).current_state() is Running,
            !(next is Finished) ==> final(self).current_state() == old(self).current_state(),
    {
        let links = self.links;
        let next = match step {
            InitStep::ConnectPrimary => {
                self.links = ControllerLinks { primary: true, ..links };
                InitStep::ConnectDashboard
            },
            InitStep::ConnectDashboard => {
                self.links = ControllerLinks { dashboard: true, ..links };
                InitStep::PrepareRobot
            },
            InitStep::PrepareRobot => InitStep::StartInterpreter,
            InitStep::StartInterpreter => InitStep::ValidateInterpreter,
            InitStep::ValidateInterpreter => {
                self.links = ControllerLinks { interpreter: true, ..links };
                if enable_monitoring {
                    InitStep::SpawnMonitor
                } else {
                    InitStep::Finished
                }
            },
            InitStep::SpawnMonitor => {
                self.links = ControllerLinks {
                    rtde: true,
                    monitor: true,
                    rpy: links.rpy || rpy_enabled,
                    ..links
                };
                InitStep::Finished
            },
            InitStep::Finished => InitStep::Finished,
        };
        if let InitStep::Finished = next {
            self.state = RobotState::Running;
        }
        next
    }

    /// The script that starts interpreter mode, to be written to the primary interface.
    pub fn interpreter_script(&self) -> (r: Result<String, ControllerError>)
        ensures
            self.current_links().primary <==> r is Ok,
            r matches Ok(s) ==> s@ == interpreter_script_text(),
            r matches Err(e) ==> e == ControllerError::PrimaryNotConnected,
    {
        if !self.links.primary {
            return Err(ControllerError::PrimaryNotConnected);
        }
        Ok(String::from_str("def ur_init():\n  textmsg(\"Starting interpreter mode\")\n  interpreter_mode()\nend\nur_init()\n"))
    }

    /// The line to write to the dashboard interface for `command`.
    pub fn dashboard_command(&self, command: &str) -> (r: Result<String, ControllerError>)
        ensures
            self.current_links().dashboard <==> r is Ok,
            r matches Ok(line) ==> line@ == command@ + "\n"@,
            r matches Err(e) ==> e == ControllerError::DashboardNotConnected,
    {
        if !self.links.dashboard {
            return Err(ControllerError::DashboardNotConnected);
        }
        let mut line = String::from_str(command);
        line.append("\n");
        Ok(line)
    }

    /// Send immediate abort through primary socket (bypasses interpreter queue):
    /// what to send and signal. Once the script was written, the caller records the
    /// halt with `record_emergency_halt`.
    pub fn emergency_abort(&self) -> (r: Result<AbortPlan, ControllerError>)
        ensures
            self.current_links().primary <==> r is Ok,
            r matches Ok(plan) ==> {
                &&& plan.script@ == halt_script_text()
                &&& plan.signal_interpreter == self.current_links().interpreter
            },
            r matches Err(e) ==> e == ControllerError::PrimaryNotConnected,
    {
        if !self.links.primary {
            return Err(ControllerError::PrimaryNotConnected);
        }
        Ok(AbortPlan { script: String::from_str("halt\n"), signal_interpreter: self.links.interpreter })
    }

    /// Record that the halt was sent: the interpreter is now unresponsive.
    pub fn record_emergency_halt(&mut self)
        ensures
            final(self).current_state() matches RobotState::Error(msg) && msg@ == emergency_message(),
            final(self).current_links() == old(self).current_links(),
    {
        self.state = RobotState::Error(String::from_str("Emergency halted"));
    }

    /// Graceful shutdown of the robot controller: closes every connection and leaves
    /// the controller disconnected. The interpreter is cleaned up first unless the
    /// controller is in an error state (the robot is likely halted).
    pub fn shutdown(&mut self) -> (plan: ShutdownPlan)
        ensures
            plan.interpreter_commands@ == if interpreter_cleanup_allowed(
                old(self).current_state(),
                old(self).current_links(),
            ) {
                shutdown_cleanup_commands()
            } else {
                Seq::<InterpreterCommand>::empty()
            },
            final(self).current_state() is Disconnected,
            final(self).current_links() == (ControllerLinks {
                primary: false,
                dashboard: false,
                interpreter: false,
                rtde: false,
                monitor: false,
                rpy: old(self).current_links().rpy,
            }),
    {
        let in_error = match self.state {
            RobotState::Error(_) => true,
            _ => false,
        };
        let interpreter_commands = if self.links.interpreter && !in_error {
            three_commands(InterpreterCommand::Halt, InterpreterCommand::Clear, InterpreterCommand::EndInterpreter)
        } else {
            Vec::new()
        };
        let plan = ShutdownPlan { interpreter_commands };
        self.links = ControllerLinks {
            primary: false,
            dashboard: false,
            interpreter: false,
            rtde: false,
            monitor: false,
            rpy: self.links.rpy,
        };
        self.state = RobotState::Disconnected;
        plan
    }

    /// The commands that dropping the controller sends to the interpreter, in order:
    /// abort the move, clear the buffer and leave interpreter mode, only with an
    /// interpreter connection and outside an error state.
    pub fn cleanup_on_drop(&self) -> (commands: Vec<InterpreterCommand>)
        ensures
            commands@ == if interpreter_cleanup_allowed(self.current_state(), self.current_links()) {
                drop_cleanup_commands()
            } else {
                Seq::<InterpreterCommand>::empty()
            },
    {
        let allowed = match self.state {
            RobotState::Error(_) => false,
            _ => self.links.interpreter,
        };
        if allowed {
            three_commands(InterpreterCommand::AbortMove, InterpreterCommand::Clear, InterpreterCommand::EndInterpreter)
        } else {
            Vec::new()
        }
    }
}

/// The monitor output that monitoring starts with: position output is dynamic when
/// the robot state stream is configured as `dynamic`, and values are rounded to four
/// decimal places unless configured otherwise.
pub fn monitor_output_for(pub_rate_hz: u32, stream_robot_state: &str, decimal_places: Option<u32>) -> (m: MonitorOutput)
    ensures
        m.rate() == pub_rate_hz,
        m.is_dynamic() == (stream_robot_state@ == "dynamic"@),
        m.places() == (match decimal_places { Some(d) => d, None => 4 }),
        m.last_state() is None,
        m.last_output() is None,
{
    let dynamic_mode = text_equals(stream_robot_state, "dynamic");
    let places = match decimal_places {
        Some(d) => d,
        None => 4,
    };
    MonitorOutput::new(pub_rate_hz, dynamic_mode, places)
}

/// The stages of bringing the robot to a running state over the dashboard interface.
#[derive(Debug, Clone, Copy, PartialEq, Eq)]
pub enum PrepareStage {
    /// The robot mode was asked for.
    CheckMode,
    /// `power on` was sent.
    PoweringOn,
    /// Waiting for the robot to report `IDLE`.
    AwaitIdle,
    /// The robot mode was asked for again.
    RecheckMode,
    /// `brake release` was sent.
    ReleasingBrakes,
    /// Waiting for the robot to report `RUNNING`.
    AwaitRunning,
    /// The robot is prepared.
    Ready,
}

/// What the caller does next while preparing the robot.
#[derive(Debug, Clone, PartialEq)]
pub enum PrepareAction {
    /// Send this dashboard command and report its response.
    Send(String),
    /// Wait until the robot mode contains `target`, for at most `timeout_seconds`
    /// (see `wait_decision`), then report.
    WaitFor { target: String, timeout_seconds: u64 },
    /// Preparation is complete.
    Done,
}

/// The robot needs power when its mode reads `POWER_OFF` or `DISCONNECTED`.
pub open spec fn needs_power(mode: Seq<char>) -> bool {
    contains_text(mode, "POWER_OFF"@) || contains_text(mode, "DISCONNECTED"@)
}

/// The brakes are released when the robot mode reads `IDLE`.
pub open spec fn needs_brake_release(mode: Seq<char>) -> bool {
    contains_text(mode, "IDLE"@)
}

/// The stage that follows `stage` once the caller reports `response`.
pub open spec fn prepare_stage_after(stage: PrepareStage, response: Seq<char>) -> PrepareStage {
    match stage {
        PrepareStage::CheckMode => if needs_power(response) {
            PrepareStage::PoweringOn
        } else {
            PrepareStage::RecheckMode
        },
        PrepareStage::PoweringOn => PrepareStage::AwaitIdle,
        PrepareStage::AwaitIdle => PrepareStage::RecheckMode,
        PrepareStage::RecheckMode => if needs_brake_release(response) {
            PrepareStage::ReleasingBrakes
        } else {
            PrepareStage::Ready
        },
        PrepareStage::ReleasingBrakes => PrepareStage::AwaitRunning,
        PrepareStage::AwaitRunning => PrepareStage::Ready,
        PrepareStage::Ready => PrepareStage::Ready,
    }
}

/// The action that entering `stage` asks for.
pub open spec fn prepare_action_of(stage: PrepareStage, action: PrepareAction) -> bool {
    match stage {
        PrepareStage::CheckMode => action matches PrepareAction::Send(c) && c@ == "robotmode"@,
        PrepareStage::PoweringOn => action matches PrepareAction::Send(c) && c@ == "power on"@,
        PrepareStage::AwaitIdle => action matches PrepareAction::WaitFor { target, timeout_seconds }
            && target@ == "IDLE"@ && timeout_seconds == 15,
        PrepareStage::RecheckMode => action matches PrepareAction::Send(c) && c@ == "robotmode"@,
        PrepareStage::ReleasingBrakes => action matches PrepareAction::Send(c) && c@ == "brake release"@,
        PrepareStage::AwaitRunning => action matches PrepareAction::WaitFor { target, timeout_seconds }
            && target@ == "RUNNING"@ && timeout_seconds == 10,
        PrepareStage::Ready => action is Done,
    }
}

/// How many more reports the procedure needs from `stage` at most.
pub open spec fn prepare_steps_left(stage: PrepareStage) -> nat {
    match stage {
        PrepareStage::CheckMode => 6,
        PrepareStage::PoweringOn => 5,
        PrepareStage::AwaitIdle => 4,
        PrepareStage::RecheckMode => 3,
        PrepareStage::ReleasingBrakes => 2,
        PrepareStage::AwaitRunning => 1,
        PrepareStage::Ready => 0,
    }
}

fn prepare_action(stage: PrepareStage) -> (action: PrepareAction)
    ensures
        prepare_action_of(stage, action),
{
    match stage {
        PrepareStage::CheckMode => PrepareAction::Send(String::from_str("robotmode")),
        PrepareStage::PoweringOn => PrepareAction::Send(String::from_str("power on")),
        PrepareStage::AwaitIdle => PrepareAction::WaitFor {
            target: String::from_str("IDLE"),
            timeout_seconds: 15,
        },
        PrepareStage::RecheckMode => PrepareAction::Send(String::from_str("robotmode")),
        PrepareStage::ReleasingBrakes => PrepareAction::Send(String::from_str("brake release")),
        PrepareStage::AwaitRunning => PrepareAction::WaitFor {
            target: String::from_str("RUNNING"),
            timeout_seconds: 10,
        },
        PrepareStage::Ready => PrepareAction::Done,
    }
}

/// Assess robot state and prepare it for operation: power the robot on when it is
/// off or disconnected, then release the brakes when it is idle.
pub struct RobotPreparation {
    stage: PrepareStage,
}

impl RobotPreparation {
    /// The current stage.
    pub closed spec fn current_stage(&self) -> PrepareStage {
        self.stage
    }

    /// Begin by asking for the robot mode.
    pub fn start() -> (r: (Self, PrepareAction))
        ensures
            r.0.current_stage() == PrepareStage::CheckMode,
            prepare_action_of(PrepareStage::CheckMode, r.1),
    {
        (RobotPreparation { stage: PrepareStage::CheckMode }, prepare_action(PrepareStage::CheckMode))
    }

    /// The current stage.
    pub fn stage(&self) -> (s: PrepareStage)
        ensures
            s == self.current_stage(),
    {
        self.stage
    }

    /// Report the outcome of the last action: the dashboard response to a command, or
    /// the last robot mode seen by a completed wait. Returns the next action.
    pub fn advance(&mut self, response: &str) -> (action: PrepareAction)
        ensures
            final(self).current_stage() == prepare_stage_after(old(self).current_stage(), response@),
            prepare_action_of(final(self).current_stage(), action),
    {
        let next = match self.stage {
            PrepareStage::CheckMode => {
                if text_contains(response, "POWER_OFF") || text_contains(response, "DISCONNECTED") {
                    PrepareStage::PoweringOn
                } else {
                    PrepareStage::RecheckMode
                }
            },
            PrepareStage::PoweringOn => PrepareStage::AwaitIdle,
            PrepareStage::AwaitIdle => PrepareStage::RecheckMode,
            PrepareStage::RecheckMode => {
                if text_contains(response, "IDLE") {
                    PrepareStage::ReleasingBrakes
                } else {
                    PrepareStage::Ready
                }
            },
            PrepareStage::ReleasingBrakes => PrepareStage::AwaitRunning,
            PrepareStage::AwaitRunning => PrepareStage::Ready,
            PrepareStage::Ready => PrepareStage::Ready,
        };
        self.stage = next;
        prepare_action(next)
    }
}

/// What waiting for a robot mode decides after one dashboard reply.
#[derive(Debug, Clone, Copy, PartialEq, Eq)]
pub enum WaitOutcome {
    /// The robot mode contains the target.
    Reached,
    /// The timeout passed without the target: the wait fails.
    TimedOut,
    /// Ask again after a pause.
    Retry,
}

/// The outcome of one poll while waiting for `target`, `elapsed_ns` nanoseconds after
/// the wait began.
pub open spec fn wait_outcome(current: Seq<char>, target: Seq<char>, elapsed_ns: u64, timeout_seconds: u64) -> WaitOutcome {
    if contains_text(current, target) {
        WaitOutcome::Reached
    } else if elapsed_ns > timeout_seconds * 1_000_000_000 {
        WaitOutcome::TimedOut
    } else {
        WaitOutcome::Retry
    }
}

/// Wait for robot to reach a specific state: decide on one dashboard reply.
pub fn wait_decision(current: &str, target: &str, elapsed_ns: u64, timeout_seconds: u64) -> (outcome: WaitOutcome)
    ensures
        outcome == wait_outcome(current@, target@, elapsed_ns, timeout_seconds),
{
    if text_contains(current, target) {
        WaitOutcome::Reached
    } else if (elapsed_ns as u128) > (timeout_seconds as u128) * 1_000_000_000u128 {
        WaitOutcome::TimedOut
    } else {
        WaitOutcome::Retry
    }
}

/// What one failed interpreter connection attempt leads to.
#[derive(Debug, Clone, Copy, PartialEq, Eq)]
pub enum ConnectDecision {
    /// Pause, then try again.
    RetryAfterPause,
    /// Give up: initialization fails.
    GiveUp,
}

/// Retries of the interpreter connection, bounded by the configured attempt count.
pub struct ConnectRetry {
    attempts: u32,
    max_attempts: u32,
}

impl ConnectRetry {
    /// The number of failed attempts that were followed by a retry.
    pub closed spec fn retries(&self) -> nat {
        self.attempts as nat
    }

    /// The configured number of attempts.
    pub closed spec fn limit(&self) -> nat {
        self.max_attempts as nat
    }

    /// Retries never reach the limit, unless no attempt is allowed at all.
    #[verifier::type_invariant]
    closed spec fn retries_below_limit(&self) -> bool {
        self.attempts == 0 || self.attempts < self.max_attempts
    }

    pub fn new(max_attempts: u32) -> (r: Self)
        ensures
            r.retries() == 0,
            r.limit() == max_attempts,
    {
        ConnectRetry { attempts: 0, max_attempts }
    }

    /// Whether to try connecting now.
    pub fn should_attempt(&self) -> (attempt: bool)
        ensures
            attempt == (self.retries() < self.limit()),
    {
        self.attempts < self.max_attempts
    }

    /// The number of failed attempts that were followed by a retry.
    pub fn attempts(&self) -> (n: u32)
        ensures
            n == self.retries(),
    {
        self.attempts
    }

    /// Record a failed attempt: retry while attempts remain, else give up.
    pub fn on_failure(&mut self) -> (d: ConnectDecision)
        requires
            old(self).retries() < old(self).limit(),
        ensures
            final(self).retries() < final(self).limit(),
            final(self).limit() == old(self).limit(),
            old(self).retries() + 1 < old(self).limit() ==> {
                &&& d == ConnectDecision::RetryAfterPause
                &&& final(self).retries() == old(self).retries() + 1
            },
            old(self).retries() + 1 >= old(self).limit() ==> {
                &&& d == ConnectDecision::GiveUp
                &&& final(self).retries() == old(self).retries()
            },
    {
        proof { use_type_invariant(&*self); }
        if self.attempts < self.max_attempts - 1 {
            self.attempts = self.attempts + 1;
            ConnectDecision::RetryAfterPause
        } else {
            ConnectDecision::GiveUp
        }
    }
}

/// How many steps of the initialization sequence remain from `step`.
pub open spec fn init_steps_left(step: InitStep) -> nat {
    match step {
        InitStep::ConnectPrimary => 6,
        InitStep::ConnectDashboard => 5,
        InitStep::PrepareRobot => 4,
        InitStep::StartInterpreter => 3,
        InitStep::ValidateInterpreter => 2,
        InitStep::SpawnMonitor => 1,
        InitStep::Finished => 0,
    }
}

/// The connections held once every step from `step` on completed in order.
pub open spec fn links_after_sequence(
    links: ControllerLinks,
    step: InitStep,
    enable_monitoring: bool,
    rpy_enabled: bool,
) -> ControllerLinks
    decreases init_steps_left(step),
{
    if step is Finished {
        links
    } else {
        links_after_sequence(
            links_after(links, step, rpy_enabled),
            init_step_after(step, enable_monitoring),
            enable_monitoring,
            rpy_enabled,
        )
    }
}

/// Initialization reaches the end: every step is followed by a later one until the
/// sequence is finished.
pub proof fn lemma_initialization_progresses(step: InitStep, enable_monitoring: bool)
    ensures
        !(step is Finished) ==> init_steps_left(init_step_after(step, enable_monitoring)) < init_steps_left(step),
        step is Finished ==> init_step_after(step, enable_monitoring) is Finished,
{
}

/// The full initialization sequence leaves the primary, dashboard and interpreter
/// connections open, and RTDE monitoring (with RPY analysis when configured) exactly
/// when monitoring was enabled. Since completing the last step marks the robot
/// running, an initialized controller is ready for commands.
pub proof fn lemma_initialization_connects_everything(
    links: ControllerLinks,
    enable_monitoring: bool,
    rpy_enabled: bool,
)
    ensures
        ({
            let done = links_after_sequence(links, InitStep::ConnectPrimary, enable_monitoring, rpy_enabled);
            &&& done.primary
            &&& done.dashboard
            &&& done.interpreter
            &&& done.rtde == (links.rtde || enable_monitoring)
            &&& done.monitor == (links.monitor || enable_monitoring)
            &&& done.rpy == (links.rpy || (enable_monitoring && rpy_enabled))
        }),
{
    reveal_with_fuel(links_after_sequence, 7);
}

/// After an emergency halt the controller is not ready, and neither shutdown nor
/// dropping it touches the (unresponsive) interpreter.
pub proof fn lemma_halted_controller_is_left_alone(c: RobotController)
    requires
        c.current_state() is Error,
    ensures
        !c.ready(),
        !interpreter_cleanup_allowed(c.current_state(), c.current_links()),
{
}

/// Power is switched on only when the first robot mode reply reads `POWER_OFF` or
/// `DISCONNECTED`, and brakes are released only when the robot mode read after that
/// reads `IDLE`.
///
/// After the first mode reply, power is switched on exactly when the reply contains
/// `POWER_OFF` or `DISCONNECTED` (so not for `POWER_ON`); after the second, brakes are
/// released exactly when it contains `IDLE`.
pub proof fn lemma_preparation_acts_only_when_needed(stage: PrepareStage, response: Seq<char>)
    ensures
        prepare_stage_after(stage, response) == PrepareStage::PoweringOn ==> (stage
            == PrepareStage::CheckMode && (contains_text(response, "POWER_OFF"@)
            || contains_text(response, "DISCONNECTED"@))),
        prepare_stage_after(stage, response) == PrepareStage::ReleasingBrakes ==> (stage
            == PrepareStage::RecheckMode && contains_text(response, "IDLE"@)),
        (prepare_stage_after(PrepareStage::CheckMode, response) == PrepareStage::PoweringOn) <==> (
        contains_text(response, "POWER_OFF"@) || contains_text(response, "DISCONNECTED"@)),
        (prepare_stage_after(PrepareStage::RecheckMode, response) == PrepareStage::ReleasingBrakes)
            <==> contains_text(response, "IDLE"@),
{
}

/// Only connecting to the primary interface, connecting to the dashboard and validating
/// the interpreter open those connections: every other step leaves each of them as it
/// was. In particular the interpreter is recorded only by the validation step, so a
/// sequence that stops before validation succeeds holds no interpreter.
pub proof fn lemma_each_connection_recorded_by_its_own_step(
    links: ControllerLinks,
    step: InitStep,
    rpy_enabled: bool,
)
    ensures
        step != InitStep::ConnectPrimary ==> links_after(links, step, rpy_enabled).primary == links.primary,
        step != InitStep::ConnectDashboard ==> links_after(links, step, rpy_enabled).dashboard
            == links.dashboard,
        step != InitStep::ValidateInterpreter ==> links_after(links, step, rpy_enabled).interpreter
            == links.interpreter,
        step != InitStep::SpawnMonitor ==> {
            &&& links_after(links, step, rpy_enabled).rtde == links.rtde
            &&& links_after(links, step, rpy_enabled).monitor == links.monitor
            &&& links_after(links, step, rpy_enabled).rpy == links.rpy
        },
        links_after(links, InitStep::ConnectPrimary, rpy_enabled).primary,
        links_after(links, InitStep::ConnectDashboard, rpy_enabled).dashboard,
        links_after(links, InitStep::ValidateInterpreter, rpy_enabled).interpreter,
{
}

/// Interpreter cleanup (on shutdown and on drop) is skipped only in an error state:
/// with an interpreter connection, every state other than `Error` (disconnected,
/// powered off, idle or running) cleans up, and without one nothing is sent.
pub proof fn lemma_cleanup_skipped_only_in_error_state(state: RobotState, links: ControllerLinks)
    ensures
        links.interpreter && !(state is Error) ==> interpreter_cleanup_allowed(state, links),
        state is Error ==> !interpreter_cleanup_allowed(state, links),
        !links.interpreter ==> !interpreter_cleanup_allowed(state, links),
{
}

/// Preparation ends: each report moves it closer to `Ready`, which it never leaves.
pub proof fn lemma_preparation_terminates(stage: PrepareStage, response: Seq<char>)
    ensures
        stage != PrepareStage::Ready ==> prepare_steps_left(prepare_stage_after(stage, response))
            < prepare_steps_left(stage),
        stage == PrepareStage::Ready ==> prepare_stage_after(stage, response) == PrepareStage::Ready,
{
}

} // verus!
